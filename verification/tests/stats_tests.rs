use stress_bench::codec::{deserialize_stats, serialize_stats};
use stress_bench::stats::{BenchmarkStats, GroupStats, StressStats};

fn sample_stats() -> BenchmarkStats {
    BenchmarkStats {
        duration_secs: 10,
        num_committed: 1200,
        num_failed: 3,
        qps: 120,
        latency_p50_ms: 25,
        latency_p95_ms: 80,
        latency_p99_ms: 140,
        shared_counter: Some(GroupStats { committed: 600, failed: 1 }),
        transfer_object: Some(GroupStats { committed: 600, failed: 2 }),
    }
}

#[test]
fn round_trip_full_stats() {
    let s = sample_stats();
    let bytes = serialize_stats(&s);
    assert_eq!(deserialize_stats(&bytes), Some(s));
}

#[test]
fn round_trip_without_groups() {
    let mut s = sample_stats();
    s.shared_counter = None;
    s.transfer_object = None;
    let bytes = serialize_stats(&s);
    assert_eq!(deserialize_stats(&bytes), Some(s));
}

#[test]
fn round_trip_one_group_absent() {
    let mut s = sample_stats();
    s.transfer_object = None;
    let bytes = serialize_stats(&s);
    assert_eq!(deserialize_stats(&bytes), Some(s));

    let mut s2 = sample_stats();
    s2.shared_counter = None;
    let bytes2 = serialize_stats(&s2);
    assert_eq!(deserialize_stats(&bytes2), Some(s2));
}

#[test]
fn round_trip_extreme_values() {
    let s = BenchmarkStats {
        duration_secs: u64::MAX,
        num_committed: 0,
        num_failed: u64::MAX,
        qps: 1,
        latency_p50_ms: 0,
        latency_p95_ms: u64::MAX,
        latency_p99_ms: 9_999_999_999,
        shared_counter: Some(GroupStats { committed: u64::MAX, failed: 0 }),
        transfer_object: None,
    };
    let bytes = serialize_stats(&s);
    assert_eq!(deserialize_stats(&bytes), Some(s));
}

#[test]
fn serialized_form_is_a_json_array() {
    let s = sample_stats();
    let bytes = serialize_stats(&s);
    let text = String::from_utf8(bytes).unwrap();
    assert!(text.starts_with('['));
    assert!(text.ends_with(']'));
    assert!(text.contains("\"00000000000000001200\""));
}

#[test]
fn parse_rejects_garbage() {
    assert_eq!(deserialize_stats(&vec![]), None);
    assert_eq!(deserialize_stats(&b"not a document".to_vec()), None);
    let s = sample_stats();
    let mut bytes = serialize_stats(&s);
    bytes.push(b' ');
    assert_eq!(deserialize_stats(&bytes), None);
    let mut truncated = serialize_stats(&s);
    truncated.pop();
    assert_eq!(deserialize_stats(&truncated), None);
}

#[test]
fn benchmark_table_lists_every_metric() {
    let s = sample_stats();
    let table = s.to_table();
    let expected = "duration-secs: 10\nnum-committed: 1200\nnum-failed: 3\nqps: 120\n\
                    latency-p50-ms: 25\nlatency-p95-ms: 80\nlatency-p99-ms: 140\n\
                    shared-counter-committed: 600\nshared-counter-failed: 1\n\
                    transfer-object-committed: 600\ntransfer-object-failed: 2\n";
    assert_eq!(table, expected);
}

#[test]
fn benchmark_table_skips_absent_groups() {
    let mut s = sample_stats();
    s.shared_counter = None;
    s.transfer_object = None;
    let table = s.to_table();
    assert!(!table.contains("shared-counter"));
    assert!(!table.contains("transfer-object"));
}

#[test]
fn stress_table_and_default() {
    let d = StressStats::default();
    assert_eq!(d.num_retries, 0);
    assert_eq!(d.num_errors, 0);
    let s = StressStats { num_retries: 4, num_errors: 2 };
    assert_eq!(s.to_table(), "num-retries: 4\nnum-errors: 2\n");
}
