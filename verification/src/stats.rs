//! Per-run performance statistics: the immutable summary of a completed
//! benchmark run, the optional secondary stress indicators, and their tabular
//! rendering for human reports.

use vstd::prelude::*;
use vstd::string::StringExecFns;

verus! {

/// Committed/failed transaction counts of one workload type.
#[derive(Clone, Copy, PartialEq, Eq, Structural, Debug)]
pub struct GroupStats {
    pub committed: u64,
    pub failed: u64,
}

/// Immutable summary of a completed run: overall counters, effective
/// throughput, latency percentiles, and per-workload-type counters. A
/// per-workload entry is absent when that workload type was not part of the
/// run's mix.
#[derive(Clone, Copy, PartialEq, Eq, Structural, Debug)]
pub struct BenchmarkStats {
    /// Wall-clock length of the measured run, in seconds.
    pub duration_secs: u64,
    /// Transactions committed over the whole run.
    pub num_committed: u64,
    /// Transactions that exhausted their retries and failed.
    pub num_failed: u64,
    /// Effective committed transactions per second.
    pub qps: u64,
    /// Median commit latency, in milliseconds.
    pub latency_p50_ms: u64,
    /// 95th-percentile commit latency, in milliseconds.
    pub latency_p95_ms: u64,
    /// 99th-percentile commit latency, in milliseconds.
    pub latency_p99_ms: u64,
    /// Counters of the shared-counter workload, when it ran.
    pub shared_counter: Option<GroupStats>,
    /// Counters of the transfer-object workload, when it ran.
    pub transfer_object: Option<GroupStats>,
}

/// Secondary system-stress indicators, collected only when stress-stat
/// collection is enabled; otherwise left at their empty default.
#[derive(Clone, Copy, PartialEq, Eq, Structural, Debug)]
pub struct StressStats {
    /// Submissions that were retried after a transient rejection.
    pub num_retries: u64,
    /// Transient submission errors absorbed by the workloads' own retries.
    pub num_errors: u64,
}

impl Default for StressStats {
    /// The empty stress report: nothing was collected.
    fn default() -> (r: Self)
        ensures
            r.num_retries == 0,
            r.num_errors == 0,
    {
        StressStats { num_retries: 0, num_errors: 0 }
    }
}

/// The decimal digits of `n`, most significant first, as characters.
pub open spec fn dec_chars(n: u64) -> Seq<char>
    decreases n,
{
    if n < 10 {
        seq![(48 + n) as char]
    } else {
        dec_chars((n / 10) as u64).push((48 + n % 10) as char)
    }
}

/// The textual form of one decimal digit.
pub fn digit_str(d: u64) -> (r: &'static str)
    requires
        d < 10,
    ensures
        r@ == seq![(48 + d) as char],
{
    proof {
        reveal_strlit("0");
        reveal_strlit("1");
        reveal_strlit("2");
        reveal_strlit("3");
        reveal_strlit("4");
        reveal_strlit("5");
        reveal_strlit("6");
        reveal_strlit("7");
        reveal_strlit("8");
        reveal_strlit("9");
    }
    let r = match d {
        0 => "0",
        1 => "1",
        2 => "2",
        3 => "3",
        4 => "4",
        5 => "5",
        6 => "6",
        7 => "7",
        8 => "8",
        _ => "9",
    };
    proof {
        assert(r@ =~= seq![(48 + d) as char]);
    }
    r
}

/// Appends the decimal rendering of `n` to `out`.
pub fn push_dec_chars(out: &mut String, n: u64)
    ensures
        final(out)@ == old(out)@ + dec_chars(n),
    decreases n,
{
    if n < 10 {
        out.append(digit_str(n));
    } else {
        push_dec_chars(out, n / 10);
        out.append(digit_str(n % 10));
        proof {
            assert(old(out)@ + dec_chars(n / 10) + seq![(48 + n % 10) as char] =~= old(out)@
                + dec_chars(n));
        }
    }
}

/// One `label: value` line of a report table.
pub open spec fn spec_line(label: Seq<char>, value: u64) -> Seq<char> {
    label + ": "@ + dec_chars(value) + "\n"@
}

/// Appends one `label: value` line to `out`.
pub fn push_line(out: &mut String, label: &str, value: u64)
    ensures
        final(out)@ == old(out)@ + spec_line(label@, value),
{
    out.append(label);
    out.append(": ");
    push_dec_chars(out, value);
    out.append("\n");
    proof {
        assert(old(out)@ + label@ + ": "@ + dec_chars(value) + "\n"@ =~= old(out)@ + spec_line(
            label@,
            value,
        ));
    }
}

/// The canonical benchmark report table.
pub open spec fn spec_benchmark_table(s: BenchmarkStats) -> Seq<char> {
    spec_line("duration-secs"@, s.duration_secs) + spec_line("num-committed"@, s.num_committed)
        + spec_line("num-failed"@, s.num_failed) + spec_line("qps"@, s.qps) + spec_line(
        "latency-p50-ms"@,
        s.latency_p50_ms,
    ) + spec_line("latency-p95-ms"@, s.latency_p95_ms) + spec_line(
        "latency-p99-ms"@,
        s.latency_p99_ms,
    ) + spec_group_lines("shared-counter"@, s.shared_counter) + spec_group_lines(
        "transfer-object"@,
        s.transfer_object,
    )
}

/// The lines of one per-workload group, empty when the group is absent.
pub open spec fn spec_group_lines(label: Seq<char>, g: Option<GroupStats>) -> Seq<char> {
    match g {
        Option::Some(gs) => spec_line(label + "-committed"@, gs.committed) + spec_line(
            label + "-failed"@,
            gs.failed,
        ),
        Option::None => Seq::empty(),
    }
}

impl BenchmarkStats {
    /// The canonical tabular rendering used for human reporting, one
    /// `label: value` line per metric, independent of the persisted form.
    pub fn to_table(&self) -> (r: String)
        ensures
            r@ == spec_benchmark_table(*self),
    {
        let mut out = String::new();
        push_line(&mut out, "duration-secs", self.duration_secs);
        push_line(&mut out, "num-committed", self.num_committed);
        push_line(&mut out, "num-failed", self.num_failed);
        push_line(&mut out, "qps", self.qps);
        push_line(&mut out, "latency-p50-ms", self.latency_p50_ms);
        push_line(&mut out, "latency-p95-ms", self.latency_p95_ms);
        push_line(&mut out, "latency-p99-ms", self.latency_p99_ms);
        push_group_lines(&mut out, "shared-counter-committed", "shared-counter-failed", self.shared_counter);
        proof {
            reveal_strlit("shared-counter-committed");
            reveal_strlit("shared-counter-failed");
            reveal_strlit("shared-counter");
            reveal_strlit("-committed");
            reveal_strlit("-failed");
            assert("shared-counter-committed"@ =~= "shared-counter"@ + "-committed"@);
            assert("shared-counter-failed"@ =~= "shared-counter"@ + "-failed"@);
        }
        push_group_lines(&mut out, "transfer-object-committed", "transfer-object-failed", self.transfer_object);
        proof {
            reveal_strlit("transfer-object-committed");
            reveal_strlit("transfer-object-failed");
            reveal_strlit("transfer-object");
            reveal_strlit("-committed");
            reveal_strlit("-failed");
            assert("transfer-object-committed"@ =~= "transfer-object"@ + "-committed"@);
            assert("transfer-object-failed"@ =~= "transfer-object"@ + "-failed"@);
        }
        proof {
            assert(out@ =~= spec_benchmark_table(*self));
        }
        out
    }
}

/// Appends the two lines of a per-workload group, or nothing when absent.
fn push_group_lines(
    out: &mut String,
    committed_label: &str,
    failed_label: &str,
    g: Option<GroupStats>,
)
    ensures
        final(out)@ == old(out)@ + (match g {
            Option::Some(gs) => spec_line(committed_label@, gs.committed) + spec_line(
                failed_label@,
                gs.failed,
            ),
            Option::None => Seq::<char>::empty(),
        }),
{
    match g {
        Some(gs) => {
            push_line(out, committed_label, gs.committed);
            push_line(out, failed_label, gs.failed);
            proof {
                assert(old(out)@ + spec_line(committed_label@, gs.committed) + spec_line(
                    failed_label@,
                    gs.failed,
                ) =~= old(out)@ + (spec_line(committed_label@, gs.committed) + spec_line(
                    failed_label@,
                    gs.failed,
                )));
            }
        },
        None => {
            proof {
                assert(old(out)@ + Seq::<char>::empty() =~= old(out)@);
            }
        },
    }
}

impl StressStats {
    /// The canonical tabular rendering of the stress report.
    pub fn to_table(&self) -> (r: String)
        ensures
            r@ == spec_line("num-retries"@, self.num_retries) + spec_line(
                "num-errors"@,
                self.num_errors,
            ),
    {
        let mut out = String::new();
        push_line(&mut out, "num-retries", self.num_retries);
        push_line(&mut out, "num-errors", self.num_errors);
        proof {
            assert(out@ =~= spec_line("num-retries"@, self.num_retries) + spec_line(
                "num-errors"@,
                self.num_errors,
            ));
        }
        out
    }
}

} // verus!
