//! Run-duration policy: a benchmark runs either for a bounded number of
//! seconds or unboundedly until an external cancellation signal. Live
//! progress reporting is reserved for unbounded runs; bounded runs publish a
//! summarized report at the end instead.

use vstd::prelude::*;

verus! {

/// How long the benchmark runs: a bounded duration in seconds, or unboundedly
/// until cancelled from outside.
#[derive(Clone, Copy, PartialEq, Eq, Structural, Debug)]
pub enum RunInterval {
    /// Stop issuing new requests once this many seconds have elapsed.
    Bounded(u64),
    /// Run until an external cancellation signal arrives.
    Unbounded,
}

/// Whether the orchestrator shows a live progress line for a run with this
/// interval: exactly the unbounded runs do.
pub open spec fn spec_show_progress(interval: RunInterval) -> bool {
    interval is Unbounded
}

impl RunInterval {
    /// Whether this interval is the unbounded sentinel.
    pub fn is_unbounded(&self) -> (r: bool)
        ensures
            r == (*self is Unbounded),
    {
        match self {
            RunInterval::Bounded(_) => false,
            RunInterval::Unbounded => true,
        }
    }
}

/// The orchestrator's progress policy: continuous progress goes to the
/// diagnostic stream only when the benchmark runs in unbounded mode.
pub fn derive_show_progress(interval: &RunInterval) -> (r: bool)
    ensures
        r == spec_show_progress(*interval),
{
    interval.is_unbounded()
}

/// Progress is shown for an interval exactly when the interval is unbounded.
pub proof fn lemma_show_progress_iff_unbounded(interval: RunInterval)
    ensures
        spec_show_progress(interval) <==> interval is Unbounded,
{
}

} // verus!
