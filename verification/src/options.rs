//! The options the harness is driven by, as resolved from the command line:
//! target selection, client/server sizing, the benchmark traffic mix, run
//! duration, statistics cadence, and the stats persistence/comparison paths.

use vstd::prelude::*;
use crate::interval::RunInterval;

verus! {

/// Resolved harness options. An empty `compare_with` means no comparison is
/// requested; an empty `benchmark_stats_path` means the new stats are not
/// persisted.
#[derive(Clone, Debug)]
pub struct StressOptions {
    /// Spin up a local cluster instead of connecting to a remote deployment.
    pub local: bool,
    /// Worker threads of the client execution context.
    pub num_client_threads: u64,
    /// Server-side worker threads for a locally spun-up cluster.
    pub num_server_threads: u64,
    /// Number of accounts used by the transfer-object workload.
    pub num_transfer_accounts: u64,
    /// Identifier of the primary funding object for a remote target.
    pub primary_gas_id: String,
    /// Path of the genesis blob for a remote target.
    pub genesis_blob_path: String,
    /// Path of the keystore for a remote target.
    pub keystore_path: String,
    /// Host the client metrics endpoint binds on.
    pub client_metric_host: String,
    /// Port the client metrics endpoint binds on.
    pub client_metric_port: u64,
    /// Log file path; empty means logging to the default sink.
    pub log_path: String,
    /// Target queries per second of the whole run.
    pub target_qps: u64,
    /// Multiplier turning a QPS budget into a bound on outstanding requests.
    pub in_flight_ratio: u64,
    /// Weight of the shared-counter workload in the traffic mix.
    pub shared_counter_weight: u64,
    /// Weight of the transfer-object workload in the traffic mix.
    pub transfer_object_weight: u64,
    /// Give each workload type its own full QPS budget instead of one shared
    /// budget.
    pub disjoint_mode: bool,
    /// How long the benchmark runs.
    pub run_duration: RunInterval,
    /// Seconds between statistics snapshots.
    pub stat_collection_interval: u64,
    /// Also collect the secondary system-stress statistics.
    pub stress_stat_collection: bool,
    /// Path of a persisted stats document to compare the new run against;
    /// empty means no comparison.
    pub compare_with: String,
    /// Path the new stats document is written to; empty means no persistence.
    pub benchmark_stats_path: String,
}

} // verus!
