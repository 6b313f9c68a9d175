//! Delta report between two benchmark runs. For every metric present in both
//! runs the report carries the absolute and relative delta; a metric present
//! in only one run is reported with an explicit absent marker rather than
//! treated as zero. Comparison is read-only: neither input is changed.

use vstd::prelude::*;
use vstd::string::StringExecFns;
use crate::stats::{BenchmarkStats, GroupStats, dec_chars, push_dec_chars};

verus! {

/// The metrics a benchmark report can carry.
#[derive(Clone, Copy, PartialEq, Eq, Structural, Debug)]
pub enum MetricName {
    DurationSecs,
    NumCommitted,
    NumFailed,
    Qps,
    LatencyP50Ms,
    LatencyP95Ms,
    LatencyP99Ms,
    SharedCounterCommitted,
    SharedCounterFailed,
    TransferObjectCommitted,
    TransferObjectFailed,
}

/// The deltas of one metric present in both runs.
#[derive(Clone, Copy, PartialEq, Eq, Structural, Debug)]
pub struct MetricDelta {
    pub name: MetricName,
    pub old_value: u64,
    pub new_value: u64,
    /// The magnitude of the change.
    pub abs_delta: u64,
    /// Whether the metric shrank.
    pub delta_negative: bool,
    /// The magnitude of the change in percent of the old value, rounded
    /// down; absent when the old value is zero.
    pub rel_delta_pct: Option<u128>,
}

/// One row of the comparison report.
#[derive(Clone, Copy, PartialEq, Eq, Structural, Debug)]
pub enum ComparisonRow {
    /// The metric is present in both runs.
    Shared(MetricDelta),
    /// The metric is present only in the old run.
    OldOnly { name: MetricName, value: u64 },
    /// The metric is present only in the new run.
    NewOnly { name: MetricName, value: u64 },
}

/// The comparison report: one row per metric of either run.
#[derive(Clone, Debug)]
pub struct ComparisonTable {
    pub rows: Vec<ComparisonRow>,
}

/// The deltas of a metric with the given old and new values.
pub open spec fn spec_delta(name: MetricName, o: u64, n: u64) -> MetricDelta {
    let abs: u64 = if n >= o {
        (n - o) as u64
    } else {
        (o - n) as u64
    };
    MetricDelta {
        name,
        old_value: o,
        new_value: n,
        abs_delta: abs,
        delta_negative: n < o,
        rel_delta_pct: if o > 0 {
            Some((((abs * 100) as int / o as int) as u128))
        } else {
            None
        },
    }
}

/// The rows of one per-workload metric pair.
pub open spec fn spec_group_rows(
    committed_name: MetricName,
    failed_name: MetricName,
    og: Option<GroupStats>,
    ng: Option<GroupStats>,
) -> Seq<ComparisonRow> {
    match (og, ng) {
        (Option::Some(o), Option::Some(n)) => seq![
            ComparisonRow::Shared(spec_delta(committed_name, o.committed, n.committed)),
            ComparisonRow::Shared(spec_delta(failed_name, o.failed, n.failed)),
        ],
        (Option::Some(o), Option::None) => seq![
            ComparisonRow::OldOnly { name: committed_name, value: o.committed },
            ComparisonRow::OldOnly { name: failed_name, value: o.failed },
        ],
        (Option::None, Option::Some(n)) => seq![
            ComparisonRow::NewOnly { name: committed_name, value: n.committed },
            ComparisonRow::NewOnly { name: failed_name, value: n.failed },
        ],
        (Option::None, Option::None) => Seq::empty(),
    }
}

/// The whole comparison report, in metric declaration order.
pub open spec fn spec_compare(old: BenchmarkStats, new: BenchmarkStats) -> Seq<ComparisonRow> {
    seq![
        ComparisonRow::Shared(
            spec_delta(MetricName::DurationSecs, old.duration_secs, new.duration_secs),
        ),
        ComparisonRow::Shared(
            spec_delta(MetricName::NumCommitted, old.num_committed, new.num_committed),
        ),
        ComparisonRow::Shared(spec_delta(MetricName::NumFailed, old.num_failed, new.num_failed)),
        ComparisonRow::Shared(spec_delta(MetricName::Qps, old.qps, new.qps)),
        ComparisonRow::Shared(
            spec_delta(MetricName::LatencyP50Ms, old.latency_p50_ms, new.latency_p50_ms),
        ),
        ComparisonRow::Shared(
            spec_delta(MetricName::LatencyP95Ms, old.latency_p95_ms, new.latency_p95_ms),
        ),
        ComparisonRow::Shared(
            spec_delta(MetricName::LatencyP99Ms, old.latency_p99_ms, new.latency_p99_ms),
        ),
    ] + spec_group_rows(
        MetricName::SharedCounterCommitted,
        MetricName::SharedCounterFailed,
        old.shared_counter,
        new.shared_counter,
    ) + spec_group_rows(
        MetricName::TransferObjectCommitted,
        MetricName::TransferObjectFailed,
        old.transfer_object,
        new.transfer_object,
    )
}

/// Computes the deltas of one shared metric.
fn make_delta(name: MetricName, o: u64, n: u64) -> (r: MetricDelta)
    ensures
        r == spec_delta(name, o, n),
{
    let abs: u64 = if n >= o {
        n - o
    } else {
        o - n
    };
    let rel: Option<u128> = if o > 0 {
        Some((abs as u128) * 100 / (o as u128))
    } else {
        None
    };
    MetricDelta {
        name,
        old_value: o,
        new_value: n,
        abs_delta: abs,
        delta_negative: n < o,
        rel_delta_pct: rel,
    }
}

/// Appends the rows of one per-workload metric pair.
fn push_group_rows(
    rows: &mut Vec<ComparisonRow>,
    committed_name: MetricName,
    failed_name: MetricName,
    og: Option<GroupStats>,
    ng: Option<GroupStats>,
)
    ensures
        final(rows)@ == old(rows)@ + spec_group_rows(committed_name, failed_name, og, ng),
{
    match (og, ng) {
        (Some(o), Some(n)) => {
            rows.push(ComparisonRow::Shared(make_delta(committed_name, o.committed, n.committed)));
            rows.push(ComparisonRow::Shared(make_delta(failed_name, o.failed, n.failed)));
        },
        (Some(o), None) => {
            rows.push(ComparisonRow::OldOnly { name: committed_name, value: o.committed });
            rows.push(ComparisonRow::OldOnly { name: failed_name, value: o.failed });
        },
        (None, Some(n)) => {
            rows.push(ComparisonRow::NewOnly { name: committed_name, value: n.committed });
            rows.push(ComparisonRow::NewOnly { name: failed_name, value: n.failed });
        },
        (None, None) => {},
    }
    proof {
        assert(final(rows)@ =~= old(rows)@ + spec_group_rows(committed_name, failed_name, og, ng));
    }
}

/// Computes the delta report between two runs' stats. Both inputs are read
/// only; the report lists every metric of either run, shared metrics with
/// their absolute and relative delta and one-sided metrics with an absent
/// marker.
pub fn compare(old_stats: &BenchmarkStats, new_stats: &BenchmarkStats) -> (t: ComparisonTable)
    ensures
        t.rows@ == spec_compare(*old_stats, *new_stats),
{
    let mut rows: Vec<ComparisonRow> = Vec::new();
    rows.push(
        ComparisonRow::Shared(
            make_delta(MetricName::DurationSecs, old_stats.duration_secs, new_stats.duration_secs),
        ),
    );
    rows.push(
        ComparisonRow::Shared(
            make_delta(MetricName::NumCommitted, old_stats.num_committed, new_stats.num_committed),
        ),
    );
    rows.push(
        ComparisonRow::Shared(
            make_delta(MetricName::NumFailed, old_stats.num_failed, new_stats.num_failed),
        ),
    );
    rows.push(ComparisonRow::Shared(make_delta(MetricName::Qps, old_stats.qps, new_stats.qps)));
    rows.push(
        ComparisonRow::Shared(
            make_delta(
                MetricName::LatencyP50Ms,
                old_stats.latency_p50_ms,
                new_stats.latency_p50_ms,
            ),
        ),
    );
    rows.push(
        ComparisonRow::Shared(
            make_delta(
                MetricName::LatencyP95Ms,
                old_stats.latency_p95_ms,
                new_stats.latency_p95_ms,
            ),
        ),
    );
    rows.push(
        ComparisonRow::Shared(
            make_delta(
                MetricName::LatencyP99Ms,
                old_stats.latency_p99_ms,
                new_stats.latency_p99_ms,
            ),
        ),
    );
    push_group_rows(
        &mut rows,
        MetricName::SharedCounterCommitted,
        MetricName::SharedCounterFailed,
        old_stats.shared_counter,
        new_stats.shared_counter,
    );
    push_group_rows(
        &mut rows,
        MetricName::TransferObjectCommitted,
        MetricName::TransferObjectFailed,
        old_stats.transfer_object,
        new_stats.transfer_object,
    );
    proof {
        assert(rows@ =~= spec_compare(*old_stats, *new_stats));
    }
    ComparisonTable { rows }
}

/// Comparing a run with itself yields a report of shared rows only, each
/// with a zero delta.
pub proof fn lemma_compare_idempotent(s: BenchmarkStats)
    ensures
        forall|i: int|
            0 <= i < spec_compare(s, s).len() ==> {
                &&& (#[trigger] spec_compare(s, s)[i]) matches ComparisonRow::Shared(d)
                &&& spec_compare(s, s)[i]->Shared_0.abs_delta == 0
                &&& !spec_compare(s, s)[i]->Shared_0.delta_negative
                &&& spec_compare(s, s)[i]->Shared_0.old_value == spec_compare(
                    s,
                    s,
                )[i]->Shared_0.new_value
            },
{
    let rows = spec_compare(s, s);
    assert forall|i: int| 0 <= i < rows.len() implies {
        &&& (#[trigger] rows[i]) matches ComparisonRow::Shared(d)
        &&& rows[i]->Shared_0.abs_delta == 0
        &&& !rows[i]->Shared_0.delta_negative
        &&& rows[i]->Shared_0.old_value == rows[i]->Shared_0.new_value
    } by {
        match (s.shared_counter, s.transfer_object) {
            (Option::Some(_), Option::Some(_)) => {},
            (Option::Some(_), Option::None) => {},
            (Option::None, Option::Some(_)) => {},
            (Option::None, Option::None) => {},
        }
    }
}

/// The textual name of a metric.
pub open spec fn spec_metric_name(name: MetricName) -> Seq<char> {
    match name {
        MetricName::DurationSecs => "duration-secs"@,
        MetricName::NumCommitted => "num-committed"@,
        MetricName::NumFailed => "num-failed"@,
        MetricName::Qps => "qps"@,
        MetricName::LatencyP50Ms => "latency-p50-ms"@,
        MetricName::LatencyP95Ms => "latency-p95-ms"@,
        MetricName::LatencyP99Ms => "latency-p99-ms"@,
        MetricName::SharedCounterCommitted => "shared-counter-committed"@,
        MetricName::SharedCounterFailed => "shared-counter-failed"@,
        MetricName::TransferObjectCommitted => "transfer-object-committed"@,
        MetricName::TransferObjectFailed => "transfer-object-failed"@,
    }
}

fn metric_name_str(name: MetricName) -> (r: &'static str)
    ensures
        r@ == spec_metric_name(name),
{
    match name {
        MetricName::DurationSecs => "duration-secs",
        MetricName::NumCommitted => "num-committed",
        MetricName::NumFailed => "num-failed",
        MetricName::Qps => "qps",
        MetricName::LatencyP50Ms => "latency-p50-ms",
        MetricName::LatencyP95Ms => "latency-p95-ms",
        MetricName::LatencyP99Ms => "latency-p99-ms",
        MetricName::SharedCounterCommitted => "shared-counter-committed",
        MetricName::SharedCounterFailed => "shared-counter-failed",
        MetricName::TransferObjectCommitted => "transfer-object-committed",
        MetricName::TransferObjectFailed => "transfer-object-failed",
    }
}

/// The decimal digits of a relative delta.
pub open spec fn dec_chars_wide(n: u128) -> Seq<char>
    decreases n,
{
    if n < 10 {
        seq![(48 + n) as char]
    } else {
        dec_chars_wide((n / 10) as u128).push((48 + n % 10) as char)
    }
}

fn push_dec_chars_wide(out: &mut String, n: u128)
    ensures
        final(out)@ == old(out)@ + dec_chars_wide(n),
    decreases n,
{
    if n < 10 {
        out.append(crate::stats::digit_str(n as u64));
        proof {
            assert(old(out)@ + seq![(48 + n as u64) as char] =~= old(out)@ + dec_chars_wide(n));
        }
    } else {
        push_dec_chars_wide(out, n / 10);
        out.append(crate::stats::digit_str((n % 10) as u64));
        proof {
            assert(old(out)@ + dec_chars_wide(n / 10) + seq![(48 + (n % 10) as u64) as char]
                =~= old(out)@ + dec_chars_wide(n));
        }
    }
}

/// One rendered row of the comparison report.
pub open spec fn spec_row_render(row: ComparisonRow) -> Seq<char> {
    match row {
        ComparisonRow::Shared(d) => spec_metric_name(d.name) + " old: "@ + dec_chars(d.old_value)
            + " new: "@ + dec_chars(d.new_value) + " delta: "@ + (if d.delta_negative {
            "-"@
        } else {
            "+"@
        }) + dec_chars(d.abs_delta) + (match d.rel_delta_pct {
            Option::Some(p) => " rel-pct: "@ + dec_chars_wide(p),
            Option::None => Seq::empty(),
        }) + "\n"@,
        ComparisonRow::OldOnly { name, value } => spec_metric_name(name) + " old: "@ + dec_chars(
            value,
        ) + " new: absent"@ + "\n"@,
        ComparisonRow::NewOnly { name, value } => spec_metric_name(name) + " old: absent new: "@
            + dec_chars(value) + "\n"@,
    }
}

/// The rendered comparison report.
pub open spec fn spec_cmp_table(rows: Seq<ComparisonRow>) -> Seq<char>
    decreases rows.len(),
{
    if rows.len() == 0 {
        Seq::empty()
    } else {
        spec_cmp_table(rows.drop_last()) + spec_row_render(rows.last())
    }
}

#[verifier::rlimit(60)]
fn push_row(out: &mut String, row: &ComparisonRow)
    ensures
        final(out)@ == old(out)@ + spec_row_render(*row),
{
    match row {
        ComparisonRow::Shared(d) => {
            out.append(metric_name_str(d.name));
            out.append(" old: ");
            push_dec_chars(out, d.old_value);
            out.append(" new: ");
            push_dec_chars(out, d.new_value);
            out.append(" delta: ");
            if d.delta_negative {
                out.append("-");
            } else {
                out.append("+");
            }
            push_dec_chars(out, d.abs_delta);
            match d.rel_delta_pct {
                Some(p) => {
                    out.append(" rel-pct: ");
                    push_dec_chars_wide(out, p);
                },
                None => {},
            }
            out.append("\n");
            proof {
                assert(final(out)@ =~= old(out)@ + spec_row_render(*row));
            }
        },
        ComparisonRow::OldOnly { name, value } => {
            out.append(metric_name_str(*name));
            out.append(" old: ");
            push_dec_chars(out, *value);
            out.append(" new: absent");
            out.append("\n");
            proof {
                assert(final(out)@ =~= old(out)@ + spec_row_render(*row));
            }
        },
        ComparisonRow::NewOnly { name, value } => {
            out.append(metric_name_str(*name));
            out.append(" old: absent new: ");
            push_dec_chars(out, *value);
            out.append("\n");
            proof {
                assert(final(out)@ =~= old(out)@ + spec_row_render(*row));
            }
        },
    }
}

impl ComparisonTable {
    /// The canonical tabular rendering of the comparison report, one line
    /// per metric.
    pub fn to_table(&self) -> (r: String)
        ensures
            r@ == spec_cmp_table(self.rows@),
    {
        let mut out = String::new();
        let n = self.rows.len();
        let mut i: usize = 0;
        while i < n
            invariant
                n == self.rows@.len(),
                0 <= i <= n,
                out@ == spec_cmp_table(self.rows@.take(i as int)),
            decreases n - i,
        {
            push_row(&mut out, &self.rows[i]);
            proof {
                assert(self.rows@.take(i + 1).drop_last() =~= self.rows@.take(i as int));
                assert(self.rows@.take(i + 1).last() == self.rows@[i as int]);
            }
            i = i + 1;
        }
        proof {
            assert(self.rows@.take(n as int) =~= self.rows@);
        }
        out
    }
}

} // verus!
