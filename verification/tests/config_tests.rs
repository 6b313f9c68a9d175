use stress_bench::p2p::{DiscoveryConfig, P2pConfig, StateSyncConfig};

#[test]
fn state_sync_defaults_resolve() {
    let cfg = StateSyncConfig::default();
    assert_eq!(cfg.interval_period(), 5_000);
    assert_eq!(cfg.mailbox_capacity(), 128);
    assert_eq!(cfg.synced_checkpoint_broadcast_channel_capacity(), 128);
    assert_eq!(cfg.checkpoint_header_download_concurrency(), 100);
    assert_eq!(cfg.checkpoint_content_download_concurrency(), 100);
    assert_eq!(cfg.transaction_download_concurrency(), 100);
}

#[test]
fn discovery_defaults_resolve() {
    let cfg = DiscoveryConfig::default();
    assert_eq!(cfg.interval_period(), 5_000);
    assert_eq!(cfg.target_concurrent_connections(), 4);
    assert_eq!(cfg.peers_to_query(), 1);
}

#[test]
fn explicit_values_override_defaults() {
    let mut cfg = StateSyncConfig::default();
    cfg.interval_period_ms = Some(250);
    cfg.mailbox_capacity = Some(16);
    cfg.checkpoint_header_download_concurrency = Some(7);
    assert_eq!(cfg.interval_period(), 250);
    assert_eq!(cfg.mailbox_capacity(), 16);
    assert_eq!(cfg.checkpoint_header_download_concurrency(), 7);
    assert_eq!(cfg.checkpoint_content_download_concurrency(), 100);

    let mut d = DiscoveryConfig::default();
    d.target_concurrent_connections = Some(9);
    d.peers_to_query = Some(3);
    assert_eq!(d.target_concurrent_connections(), 9);
    assert_eq!(d.peers_to_query(), 3);
}

#[test]
fn p2p_default_listen_address() {
    let cfg = P2pConfig::default();
    assert_eq!(cfg.listen_address.octet_a, 0);
    assert_eq!(cfg.listen_address.octet_b, 0);
    assert_eq!(cfg.listen_address.octet_c, 0);
    assert_eq!(cfg.listen_address.octet_d, 0);
    assert_eq!(cfg.listen_address.port, 8080);
    assert!(cfg.external_address.is_none());
    assert!(cfg.seed_peers.is_empty());
    assert!(cfg.state_sync.is_none());
    assert!(cfg.discovery.is_none());
}
