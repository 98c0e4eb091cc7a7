use std::collections::HashSet;
use std::time::{SystemTime, UNIX_EPOCH};

use lastuuid::{unix_ts_ms, uuid7, uuid7_to_datetime};

fn now_ms() -> u64 {
    SystemTime::now().duration_since(UNIX_EPOCH).unwrap().as_millis() as u64
}

#[test]
fn generated_value_has_v7_layout() {
    for _ in 0..100 {
        let v = uuid7();
        assert_eq!(v[6] >> 4, 7);
        assert_eq!(v[8] >> 6, 0b10);
    }
}

#[test]
fn generated_timestamp_matches_clock() {
    let before = now_ms();
    let v = uuid7();
    let after = now_ms();
    let ts = uuid7_to_datetime(7, &v, None, 0).unwrap();
    assert_eq!(ts.unix_ms, unix_ts_ms(&v));
    assert!(ts.unix_ms + 5 >= before, "{} before {}", ts.unix_ms, before);
    assert!(ts.unix_ms <= after + 5, "{} after {}", ts.unix_ms, after);
}

#[test]
fn generated_values_sort_by_call_order() {
    let a = uuid7();
    let start = now_ms();
    while now_ms() < start + 3 {}
    let b = uuid7();
    assert!(unix_ts_ms(&a) < unix_ts_ms(&b));
}

#[test]
fn generated_values_are_unique() {
    let mut seen = HashSet::new();
    for _ in 0..10_000 {
        assert!(seen.insert(uuid7()));
    }
}
