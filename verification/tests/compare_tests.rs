use stress_bench::codec::{deserialize_stats, serialize_stats};
use stress_bench::compare::{compare, ComparisonRow, MetricName};
use stress_bench::stats::{BenchmarkStats, GroupStats};

fn stats_with_committed(num_committed: u64) -> BenchmarkStats {
    BenchmarkStats {
        duration_secs: 10,
        num_committed,
        num_failed: 0,
        qps: num_committed / 10,
        latency_p50_ms: 20,
        latency_p95_ms: 60,
        latency_p99_ms: 90,
        shared_counter: Some(GroupStats { committed: num_committed, failed: 0 }),
        transfer_object: None,
    }
}

#[test]
fn compare_with_self_yields_all_zero_deltas() {
    let s = stats_with_committed(1000);
    let table = compare(&s, &s);
    assert!(!table.rows.is_empty());
    for row in &table.rows {
        match row {
            ComparisonRow::Shared(d) => {
                assert_eq!(d.abs_delta, 0);
                assert!(!d.delta_negative);
                assert_eq!(d.old_value, d.new_value);
                if d.old_value > 0 {
                    assert_eq!(d.rel_delta_pct, Some(0));
                } else {
                    assert_eq!(d.rel_delta_pct, None);
                }
            },
            _ => panic!("a self-comparison has no one-sided metric"),
        }
    }
}

#[test]
fn compare_against_persisted_run_reports_delta() {
    // A previous run was persisted with committed-count 1000; the fresh run
    // committed 1200.
    let previous = stats_with_committed(1000);
    let persisted = serialize_stats(&previous);
    let loaded = deserialize_stats(&persisted).expect("the persisted document parses");
    let fresh = stats_with_committed(1200);
    let table = compare(&loaded, &fresh);
    let row = table
        .rows
        .iter()
        .find_map(|r| match r {
            ComparisonRow::Shared(d) if d.name == MetricName::NumCommitted => Some(d),
            _ => None,
        })
        .expect("num-committed is present in both runs");
    assert_eq!(d_abs(row.abs_delta, row.delta_negative), 200);
    assert_eq!(row.old_value, 1000);
    assert_eq!(row.new_value, 1200);
    assert_eq!(row.rel_delta_pct, Some(20));
}

fn d_abs(abs: u64, negative: bool) -> i128 {
    if negative { -(abs as i128) } else { abs as i128 }
}

#[test]
fn one_sided_metrics_are_marked_absent() {
    let mut old_stats = stats_with_committed(100);
    old_stats.transfer_object = Some(GroupStats { committed: 5, failed: 1 });
    let mut new_stats = stats_with_committed(100);
    new_stats.shared_counter = None;
    let table = compare(&old_stats, &new_stats);
    let mut saw_old_only = false;
    let mut saw_new_only = false;
    for row in &table.rows {
        match row {
            ComparisonRow::OldOnly { name, value } => {
                if *name == MetricName::SharedCounterCommitted {
                    saw_old_only = true;
                    assert_eq!(*value, 100);
                }
            },
            ComparisonRow::NewOnly { name, value } => {
                if *name == MetricName::TransferObjectCommitted {
                    saw_new_only = true;
                    assert_eq!(*value, 100);
                }
            },
            _ => {},
        }
    }
    assert!(saw_old_only);
    // The old run had transfer-object stats, the new one has them too.
    assert!(!saw_new_only);
}

#[test]
fn comparison_table_renders_deltas() {
    let old_stats = stats_with_committed(1000);
    let new_stats = stats_with_committed(1200);
    let table = compare(&old_stats, &new_stats).to_table();
    assert!(table.contains("num-committed old: 1000 new: 1200 delta: +200 rel-pct: 20\n"));
    assert!(table.contains("duration-secs old: 10 new: 10 delta: +0 rel-pct: 0\n"));
}

#[test]
fn negative_delta_is_rendered_with_sign() {
    let old_stats = stats_with_committed(1000);
    let new_stats = stats_with_committed(800);
    let table = compare(&old_stats, &new_stats);
    let row = table
        .rows
        .iter()
        .find_map(|r| match r {
            ComparisonRow::Shared(d) if d.name == MetricName::NumCommitted => Some(d),
            _ => None,
        })
        .unwrap();
    assert!(row.delta_negative);
    assert_eq!(row.abs_delta, 200);
    assert_eq!(row.rel_delta_pct, Some(20));
    assert!(table.to_table().contains("num-committed old: 1000 new: 800 delta: -200 rel-pct: 20\n"));
}
