//! The orchestrator's decisions: which target environment to use, which
//! workload-mix policy, whether to show live progress, and which follow-up
//! steps (comparison, persistence) the run asks for. The surrounding program
//! performs setup, spawns the client execution context, and reports; every
//! decision here is fixed before the run starts and never changes mid-run.

use vstd::prelude::*;
use crate::interval::{derive_show_progress, spec_show_progress};
use crate::options::StressOptions;
use crate::workload::WorkloadConfiguration;

verus! {

/// Whether the harness spins up a local cluster or connects to a remote
/// deployment. Fixed for the process lifetime.
#[derive(Clone, Copy, PartialEq, Eq, Structural, Debug)]
pub enum RunTarget {
    Local,
    Remote,
}

/// The orchestrator's resolved decisions for one run.
#[derive(Clone, Copy, PartialEq, Eq, Structural, Debug)]
pub struct RunPlan {
    pub target: RunTarget,
    pub workload_configuration: WorkloadConfiguration,
    /// Continuous progress goes to the diagnostic stream only for unbounded
    /// runs; bounded runs publish a summarized report at the end.
    pub show_progress: bool,
    pub stress_stat_collection: bool,
    /// A previous stats document is compared against.
    pub compare_requested: bool,
    /// The new stats document is persisted.
    pub persist_requested: bool,
}

/// Why the environment cannot be set up. Connection failures themselves are
/// reported by the surrounding program; what can be decided from the options
/// alone is decided here, before any traffic is sent.
#[derive(Clone, Copy, PartialEq, Eq, Structural, Debug)]
pub enum SetupError {
    /// A remote target needs the primary gas object's identifier.
    MissingPrimaryGasId,
    /// A remote target needs the genesis blob's path.
    MissingGenesisBlobPath,
    /// A remote target needs the keystore's path.
    MissingKeystorePath,
}

/// Validates the inputs a remote target needs before connecting: the primary
/// gas identifier, the genesis blob path, and the keystore path must all be
/// given. A local target needs none of them.
pub fn validate_setup_inputs(target: &RunTarget, opts: &StressOptions) -> (r: Result<
    (),
    SetupError,
>)
    ensures
        *target is Local ==> r is Ok,
        *target is Remote ==> {
            &&& (r == Err::<(), SetupError>(SetupError::MissingPrimaryGasId) <==> opts.primary_gas_id@.len() == 0)
            &&& (r == Err::<(), SetupError>(SetupError::MissingGenesisBlobPath) <==> (
            opts.primary_gas_id@.len() > 0 && opts.genesis_blob_path@.len() == 0))
            &&& (r == Err::<(), SetupError>(SetupError::MissingKeystorePath) <==> (
            opts.primary_gas_id@.len() > 0 && opts.genesis_blob_path@.len() > 0
                && opts.keystore_path@.len() == 0))
            &&& (r is Ok <==> (opts.primary_gas_id@.len() > 0 && opts.genesis_blob_path@.len() > 0
                && opts.keystore_path@.len() > 0))
        },
{
    match target {
        RunTarget::Local => Ok(()),
        RunTarget::Remote => {
            if opts.primary_gas_id.as_str().is_empty() {
                Err(SetupError::MissingPrimaryGasId)
            } else if opts.genesis_blob_path.as_str().is_empty() {
                Err(SetupError::MissingGenesisBlobPath)
            } else if opts.keystore_path.as_str().is_empty() {
                Err(SetupError::MissingKeystorePath)
            } else {
                Ok(())
            }
        },
    }
}

/// Resolves the run plan from the options.
pub fn plan_run(opts: &StressOptions) -> (r: RunPlan)
    ensures
        (r.target is Local) <==> opts.local,
        (r.workload_configuration is Disjoint) <==> opts.disjoint_mode,
        r.show_progress == spec_show_progress(opts.run_duration),
        r.stress_stat_collection == opts.stress_stat_collection,
        r.compare_requested <==> opts.compare_with@.len() > 0,
        r.persist_requested <==> opts.benchmark_stats_path@.len() > 0,
{
    RunPlan {
        target: if opts.local {
            RunTarget::Local
        } else {
            RunTarget::Remote
        },
        workload_configuration: if opts.disjoint_mode {
            WorkloadConfiguration::Disjoint
        } else {
            WorkloadConfiguration::Combined
        },
        show_progress: derive_show_progress(&opts.run_duration),
        stress_stat_collection: opts.stress_stat_collection,
        compare_requested: !opts.compare_with.as_str().is_empty(),
        persist_requested: !opts.benchmark_stats_path.as_str().is_empty(),
    }
}

} // verus!
