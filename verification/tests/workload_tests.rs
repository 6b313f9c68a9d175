use stress_bench::interval::RunInterval;
use stress_bench::options::StressOptions;
use stress_bench::workload::{
    partition_qps, ConfigurationError, WorkloadConfiguration, WorkloadKind,
};

fn base_opts() -> StressOptions {
    StressOptions {
        local: true,
        num_client_threads: 12,
        num_server_threads: 10,
        num_transfer_accounts: 2,
        primary_gas_id: String::new(),
        genesis_blob_path: String::new(),
        keystore_path: String::new(),
        client_metric_host: String::from("127.0.0.1"),
        client_metric_port: 8081,
        log_path: String::new(),
        target_qps: 100,
        in_flight_ratio: 2,
        shared_counter_weight: 50,
        transfer_object_weight: 50,
        disjoint_mode: false,
        run_duration: RunInterval::Bounded(10),
        stat_collection_interval: 10,
        stress_stat_collection: false,
        compare_with: String::new(),
        benchmark_stats_path: String::new(),
    }
}

#[test]
fn partition_splits_evenly() {
    let shares = partition_qps(&vec![50, 50], 100).unwrap();
    assert_eq!(shares, vec![50, 50]);
}

#[test]
fn partition_assigns_remainder_to_first() {
    // floor(10 * 1 / 3) = 3 for each; the first absorbs the remainder.
    let shares = partition_qps(&vec![1, 1, 1], 10).unwrap();
    assert_eq!(shares, vec![4, 3, 3]);
    let total: u64 = shares.iter().sum();
    assert_eq!(total, 10);
}

#[test]
fn partition_remainder_skips_zero_weights() {
    let shares = partition_qps(&vec![0, 1, 1, 1], 10).unwrap();
    assert_eq!(shares, vec![0, 4, 3, 3]);
}

#[test]
fn partition_rejects_all_zero_weights() {
    assert_eq!(
        partition_qps(&vec![0, 0], 100),
        Err(ConfigurationError::AllWeightsZero)
    );
    assert_eq!(partition_qps(&vec![], 100), Err(ConfigurationError::AllWeightsZero));
}

#[test]
fn combined_mix_partitions_target_qps() {
    let opts = base_opts();
    let ws = WorkloadConfiguration::Combined
        .configure(Some(7), None, None, &opts)
        .unwrap();
    assert_eq!(ws.len(), 2);
    assert_eq!(ws[0].kind, WorkloadKind::SharedCounter);
    assert_eq!(ws[0].target_qps, 50);
    assert_eq!(ws[0].max_in_flight, 100);
    assert_eq!(ws[0].gas_id, 7);
    assert_eq!(ws[1].kind, WorkloadKind::TransferObject);
    assert_eq!(ws[1].target_qps, 50);
    assert_eq!(ws[1].max_in_flight, 100);
}

#[test]
fn combined_mix_uneven_weights() {
    let mut opts = base_opts();
    opts.shared_counter_weight = 2;
    opts.transfer_object_weight = 1;
    opts.target_qps = 100;
    let ws = WorkloadConfiguration::Combined
        .configure(Some(1), None, None, &opts)
        .unwrap();
    // floor shares are 66 and 33; the first absorbs the remainder.
    assert_eq!(ws[0].target_qps, 67);
    assert_eq!(ws[1].target_qps, 33);
    assert_eq!(ws[0].target_qps + ws[1].target_qps, 100);
}

#[test]
fn disjoint_mix_gives_each_type_full_qps() {
    let opts = base_opts();
    let ws = WorkloadConfiguration::Disjoint
        .configure(Some(1), None, None, &opts)
        .unwrap();
    assert_eq!(ws.len(), 2);
    assert_eq!(ws[0].target_qps, 100);
    assert_eq!(ws[1].target_qps, 100);
    assert_eq!(ws[0].max_in_flight, 200);
    assert_eq!(ws[1].max_in_flight, 200);
}

#[test]
fn zero_weight_type_is_not_selected() {
    let mut opts = base_opts();
    opts.transfer_object_weight = 0;
    let ws = WorkloadConfiguration::Combined
        .configure(Some(1), None, None, &opts)
        .unwrap();
    assert_eq!(ws.len(), 1);
    assert_eq!(ws[0].kind, WorkloadKind::SharedCounter);
    assert_eq!(ws[0].target_qps, 100);
}

#[test]
fn all_zero_weights_is_a_configuration_error() {
    let mut opts = base_opts();
    opts.shared_counter_weight = 0;
    opts.transfer_object_weight = 0;
    let r = WorkloadConfiguration::Combined.configure(Some(1), None, None, &opts);
    assert_eq!(r, Err(ConfigurationError::AllWeightsZero));
}

#[test]
fn missing_primary_gas_is_a_configuration_error() {
    let opts = base_opts();
    let r = WorkloadConfiguration::Combined.configure(None, None, None, &opts);
    assert_eq!(r, Err(ConfigurationError::MissingPrimaryGas));
}
