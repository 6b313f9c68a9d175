//! Peer-to-peer network configuration: listen address, seed peers, and the
//! optional state-sync and discovery tuning blocks. Every numeric tunable is
//! optional in a configuration document and resolves to a documented default
//! when absent.

use vstd::prelude::*;

verus! {

/// Default state-sync and discovery query interval, in milliseconds.
pub const DEFAULT_INTERVAL_PERIOD_MS: u64 = 5_000;

/// Default size of the state-sync actor's mailbox.
pub const DEFAULT_MAILBOX_CAPACITY: usize = 128;

/// Default capacity of the synced-checkpoint broadcast channel.
pub const DEFAULT_SYNCED_CHECKPOINT_BROADCAST_CHANNEL_CAPACITY: usize = 128;

/// Default bound on concurrently downloaded checkpoint headers.
pub const DEFAULT_CHECKPOINT_HEADER_DOWNLOAD_CONCURRENCY: usize = 100;

/// Default bound on concurrently downloaded checkpoint contents.
pub const DEFAULT_CHECKPOINT_CONTENT_DOWNLOAD_CONCURRENCY: usize = 100;

/// Default bound on transactions downloaded concurrently from one checkpoint.
pub const DEFAULT_TRANSACTION_DOWNLOAD_CONCURRENCY: usize = 100;

/// Default number of concurrent connections the discovery service targets.
pub const DEFAULT_TARGET_CONCURRENT_CONNECTIONS: usize = 4;

/// Default number of peers queried for their known peers each interval.
pub const DEFAULT_PEERS_TO_QUERY: usize = 1;

/// The port of the default p2p listen address.
pub const DEFAULT_LISTEN_PORT: u16 = 8080;

/// How an optional tunable resolves: the stored value when present, the
/// documented default when absent.
pub open spec fn resolved<T>(field: Option<T>, default: T) -> T {
    match field {
        Option::Some(v) => v,
        Option::None => default,
    }
}

/// A socket address the p2p network binds on, as four IPv4 octets and a port.
#[derive(Clone, Copy, PartialEq, Eq, Structural, Debug)]
pub struct ListenAddress {
    pub octet_a: u8,
    pub octet_b: u8,
    pub octet_c: u8,
    pub octet_d: u8,
    pub port: u16,
}

/// The default listen address, `0.0.0.0:8080`.
pub fn default_listen_address() -> (r: ListenAddress)
    ensures
        r == (ListenAddress { octet_a: 0, octet_b: 0, octet_c: 0, octet_d: 0, port: DEFAULT_LISTEN_PORT }),
{
    ListenAddress { octet_a: 0, octet_b: 0, octet_c: 0, octet_d: 0, port: DEFAULT_LISTEN_PORT }
}

/// A configured seed peer: an optional peer identity (raw public-key bytes)
/// and a required textual network address.
#[derive(Clone, Debug)]
pub struct SeedPeer {
    pub peer_id: Option<Vec<u8>>,
    pub address: String,
}

/// Configuration of the state-sync service. Every field is optional; each
/// accessor resolves an absent field to its documented default.
#[derive(Clone, Debug)]
pub struct StateSyncConfig {
    /// Query peers for their latest checkpoint every interval period.
    pub interval_period_ms: Option<u64>,
    /// Size of the state-sync actor's mailbox.
    pub mailbox_capacity: Option<usize>,
    /// Size of the broadcast channel used for notifying other systems of
    /// newly synced checkpoints.
    pub synced_checkpoint_broadcast_channel_capacity: Option<usize>,
    /// Upper bound on the number of checkpoint headers downloaded concurrently.
    pub checkpoint_header_download_concurrency: Option<usize>,
    /// Upper bound on the number of checkpoint contents downloaded concurrently.
    pub checkpoint_content_download_concurrency: Option<usize>,
    /// Upper bound on the number of transactions downloaded concurrently from
    /// a single checkpoint.
    pub transaction_download_concurrency: Option<usize>,
    /// Per-peer rate limit (requests/sec) for pushing checkpoint summaries;
    /// absent means unlimited. Non-zero when present.
    pub push_checkpoint_summary_rate_limit: Option<u32>,
    /// Per-peer rate limit (requests/sec) for fetching checkpoint summaries;
    /// absent means unlimited. Non-zero when present.
    pub get_checkpoint_summary_rate_limit: Option<u32>,
    /// Per-peer rate limit (requests/sec) for fetching checkpoint contents;
    /// absent means unlimited. Non-zero when present.
    pub get_checkpoint_contents_rate_limit: Option<u32>,
    /// Per-peer rate limit (requests/sec) for fetching a transaction and its
    /// effects; absent means unlimited. Non-zero when present.
    pub get_transaction_and_effects_rate_limit: Option<u32>,
}

impl StateSyncConfig {
    /// Rate limits are rates: a stored limit of zero is meaningless.
    pub open spec fn wf(self) -> bool {
        &&& self.push_checkpoint_summary_rate_limit matches Some(v) ==> v > 0
        &&& self.get_checkpoint_summary_rate_limit matches Some(v) ==> v > 0
        &&& self.get_checkpoint_contents_rate_limit matches Some(v) ==> v > 0
        &&& self.get_transaction_and_effects_rate_limit matches Some(v) ==> v > 0
    }

    /// The checkpoint-query interval, in milliseconds.
    pub fn interval_period(&self) -> (r: u64)
        ensures
            r == resolved(self.interval_period_ms, DEFAULT_INTERVAL_PERIOD_MS),
    {
        match self.interval_period_ms {
            Some(v) => v,
            None => DEFAULT_INTERVAL_PERIOD_MS,
        }
    }

    /// The state-sync actor's mailbox capacity.
    pub fn mailbox_capacity(&self) -> (r: usize)
        ensures
            r == resolved(self.mailbox_capacity, DEFAULT_MAILBOX_CAPACITY),
    {
        match self.mailbox_capacity {
            Some(v) => v,
            None => DEFAULT_MAILBOX_CAPACITY,
        }
    }

    /// The synced-checkpoint broadcast channel capacity.
    pub fn synced_checkpoint_broadcast_channel_capacity(&self) -> (r: usize)
        ensures
            r == resolved(
                self.synced_checkpoint_broadcast_channel_capacity,
                DEFAULT_SYNCED_CHECKPOINT_BROADCAST_CHANNEL_CAPACITY,
            ),
    {
        match self.synced_checkpoint_broadcast_channel_capacity {
            Some(v) => v,
            None => DEFAULT_SYNCED_CHECKPOINT_BROADCAST_CHANNEL_CAPACITY,
        }
    }

    /// The bound on concurrently downloaded checkpoint headers.
    pub fn checkpoint_header_download_concurrency(&self) -> (r: usize)
        ensures
            r == resolved(
                self.checkpoint_header_download_concurrency,
                DEFAULT_CHECKPOINT_HEADER_DOWNLOAD_CONCURRENCY,
            ),
    {
        match self.checkpoint_header_download_concurrency {
            Some(v) => v,
            None => DEFAULT_CHECKPOINT_HEADER_DOWNLOAD_CONCURRENCY,
        }
    }

    /// The bound on concurrently downloaded checkpoint contents.
    pub fn checkpoint_content_download_concurrency(&self) -> (r: usize)
        ensures
            r == resolved(
                self.checkpoint_content_download_concurrency,
                DEFAULT_CHECKPOINT_CONTENT_DOWNLOAD_CONCURRENCY,
            ),
    {
        match self.checkpoint_content_download_concurrency {
            Some(v) => v,
            None => DEFAULT_CHECKPOINT_CONTENT_DOWNLOAD_CONCURRENCY,
        }
    }

    /// The bound on transactions downloaded concurrently from one checkpoint.
    pub fn transaction_download_concurrency(&self) -> (r: usize)
        ensures
            r == resolved(
                self.transaction_download_concurrency,
                DEFAULT_TRANSACTION_DOWNLOAD_CONCURRENCY,
            ),
    {
        match self.transaction_download_concurrency {
            Some(v) => v,
            None => DEFAULT_TRANSACTION_DOWNLOAD_CONCURRENCY,
        }
    }
}

impl Default for StateSyncConfig {
    /// A document with every optional field absent.
    fn default() -> (r: Self)
        ensures
            r.interval_period_ms is None,
            r.mailbox_capacity is None,
            r.synced_checkpoint_broadcast_channel_capacity is None,
            r.checkpoint_header_download_concurrency is None,
            r.checkpoint_content_download_concurrency is None,
            r.transaction_download_concurrency is None,
            r.push_checkpoint_summary_rate_limit is None,
            r.get_checkpoint_summary_rate_limit is None,
            r.get_checkpoint_contents_rate_limit is None,
            r.get_transaction_and_effects_rate_limit is None,
            r.wf(),
    {
        StateSyncConfig {
            interval_period_ms: None,
            mailbox_capacity: None,
            synced_checkpoint_broadcast_channel_capacity: None,
            checkpoint_header_download_concurrency: None,
            checkpoint_content_download_concurrency: None,
            transaction_download_concurrency: None,
            push_checkpoint_summary_rate_limit: None,
            get_checkpoint_summary_rate_limit: None,
            get_checkpoint_contents_rate_limit: None,
            get_transaction_and_effects_rate_limit: None,
        }
    }
}

/// Configuration of the peer-discovery service. Every field is optional; each
/// accessor resolves an absent field to its documented default.
#[derive(Clone, Debug)]
pub struct DiscoveryConfig {
    /// Query peers for their known peers every interval period.
    pub interval_period_ms: Option<u64>,
    /// Target number of concurrent connections to establish.
    pub target_concurrent_connections: Option<usize>,
    /// Number of randomly selected peers queried for their known peers each
    /// interval.
    pub peers_to_query: Option<usize>,
    /// Per-peer rate limit (requests/sec) for the external-address query;
    /// absent means unlimited. Non-zero when present.
    pub get_external_address_rate_limit: Option<u32>,
    /// Per-peer rate limit (requests/sec) for the known-peers query; absent
    /// means unlimited. Non-zero when present.
    pub get_known_peers_rate_limit: Option<u32>,
}

impl DiscoveryConfig {
    /// Rate limits are rates: a stored limit of zero is meaningless.
    pub open spec fn wf(self) -> bool {
        &&& self.get_external_address_rate_limit matches Some(v) ==> v > 0
        &&& self.get_known_peers_rate_limit matches Some(v) ==> v > 0
    }

    /// The peer-query interval, in milliseconds.
    pub fn interval_period(&self) -> (r: u64)
        ensures
            r == resolved(self.interval_period_ms, DEFAULT_INTERVAL_PERIOD_MS),
    {
        match self.interval_period_ms {
            Some(v) => v,
            None => DEFAULT_INTERVAL_PERIOD_MS,
        }
    }

    /// The target number of concurrent connections.
    pub fn target_concurrent_connections(&self) -> (r: usize)
        ensures
            r == resolved(
                self.target_concurrent_connections,
                DEFAULT_TARGET_CONCURRENT_CONNECTIONS,
            ),
    {
        match self.target_concurrent_connections {
            Some(v) => v,
            None => DEFAULT_TARGET_CONCURRENT_CONNECTIONS,
        }
    }

    /// The number of peers queried each interval.
    pub fn peers_to_query(&self) -> (r: usize)
        ensures
            r == resolved(self.peers_to_query, DEFAULT_PEERS_TO_QUERY),
    {
        match self.peers_to_query {
            Some(v) => v,
            None => DEFAULT_PEERS_TO_QUERY,
        }
    }
}

impl Default for DiscoveryConfig {
    /// A document with every optional field absent.
    fn default() -> (r: Self)
        ensures
            r.interval_period_ms is None,
            r.target_concurrent_connections is None,
            r.peers_to_query is None,
            r.get_external_address_rate_limit is None,
            r.get_known_peers_rate_limit is None,
            r.wf(),
    {
        DiscoveryConfig {
            interval_period_ms: None,
            target_concurrent_connections: None,
            peers_to_query: None,
            get_external_address_rate_limit: None,
            get_known_peers_rate_limit: None,
        }
    }
}

/// The p2p network configuration document.
#[derive(Clone, Debug)]
pub struct P2pConfig {
    /// The address that the p2p network will bind on.
    pub listen_address: ListenAddress,
    /// The textual address other nodes can use to reach this node, shared with
    /// peers through the discovery service.
    pub external_address: Option<String>,
    /// Seed peers configured with a peer identity are preferred and the node
    /// always tries to keep a connection established with them.
    pub seed_peers: Vec<SeedPeer>,
    /// The optional state-sync tuning block.
    pub state_sync: Option<StateSyncConfig>,
    /// The optional discovery tuning block.
    pub discovery: Option<DiscoveryConfig>,
}

impl Default for P2pConfig {
    /// Binds on `0.0.0.0:8080` with no peers and no tuning blocks.
    fn default() -> (r: Self)
        ensures
            r.listen_address == (ListenAddress {
                octet_a: 0,
                octet_b: 0,
                octet_c: 0,
                octet_d: 0,
                port: DEFAULT_LISTEN_PORT,
            }),
            r.external_address is None,
            r.seed_peers@.len() == 0,
            r.state_sync is None,
            r.discovery is None,
    {
        P2pConfig {
            listen_address: default_listen_address(),
            external_address: None,
            seed_peers: Vec::new(),
            state_sync: None,
            discovery: None,
        }
    }
}

} // verus!
