use incidentbench::clock::{
    event_stamp, record_stamp, run_stamp, seconds_between, seconds_since, Instant,
};
use incidentbench::configmaps::prepared_table;
use incidentbench::lifecycle::results_are_due;
use incidentbench::seeds::{
    query_generator, query_seed, run_seed, session_generator, session_seed, worker_index,
};
use rand::{RngCore, SeedableRng};
use rand_chacha::ChaCha8Rng;
use std::hash::{Hash, Hasher};

fn at(seconds: i64, nanos: u32) -> Instant {
    Instant { seconds, nanos }
}

#[test]
fn times_are_written() {
    let t = at(1_431_648_000, 26_000_000);
    assert_eq!(event_stamp(t).unwrap(), "2015-05-15T00:00:00.026Z");
    assert_eq!(run_stamp(t).unwrap(), "20150515-000000");
    assert_eq!(record_stamp(t).unwrap(), "2015-05-15T00:00:00.026+00:00");
    assert_eq!(event_stamp(at(0, 0)).unwrap(), "1970-01-01T00:00:00.000Z");
    assert_eq!(event_stamp(at(i64::MAX, 0)), None);
    assert_eq!(record_stamp(at(0, 2_000_000_000)), None);
}

#[test]
fn what_is_recorded_is_read_again() {
    for t in [at(0, 0), at(1_700_000_000, 123_456_789), at(253_402_300_799, 999_999_999)] {
        let text = record_stamp(t);
        assert_eq!(seconds_since(&text, t), 0);
        assert_eq!(seconds_since(&text, at(t.seconds + 7, t.nanos)), 7);
    }
}

#[test]
fn spans_go_towards_zero() {
    assert_eq!(seconds_between(at(10, 500_000_000), at(12, 0)), 1);
    assert_eq!(seconds_between(at(12, 0), at(10, 500_000_000)), -1);
    assert_eq!(seconds_between(at(5, 5), at(5, 5)), 0);
    assert_eq!(seconds_between(at(i64::MIN, 0), at(i64::MAX, 0)), i64::MAX);
    assert_eq!(seconds_between(at(i64::MAX, 0), at(i64::MIN, 0)), i64::MIN);
    assert_eq!(seconds_since(&None, at(100, 0)), 0);
    assert_eq!(seconds_since(&Some("yesterday".to_string()), at(100, 0)), 0);
    let since = Some("1970-01-01T02:00:40+02:00".to_string());
    assert_eq!(seconds_since(&since, at(100, 0)), 60);
}

#[test]
fn aggregating_ends() {
    let since = record_stamp(at(1_000, 0));
    assert!(!results_are_due("collecting", &since, at(1_120, 999_999_999)));
    assert!(results_are_due("collecting", &since, at(1_121, 0)));
    assert!(results_are_due("complete", &since, at(1_000, 0)));
    assert!(!results_are_due("collecting", &None, at(1_000_000, 0)));
}

#[test]
fn prepared_tables_are_read() {
    let data = vec![
        ("consumer_groups".to_string(), "{\"logs\":\"cg\",\"a\":\"\\u0062\"}".to_string()),
        ("query_endpoints".to_string(), "[1]".to_string()),
    ];
    assert_eq!(
        prepared_table(&data, "consumer_groups"),
        vec![("a".to_string(), "b".to_string()), ("logs".to_string(), "cg".to_string())]
    );
    assert!(prepared_table(&data, "query_endpoints").is_empty());
    assert!(prepared_table(&data, "other").is_empty());
}

#[test]
fn run_seeds_are_hashes_of_names() {
    let mut h = std::collections::hash_map::DefaultHasher::new();
    "run-1".hash(&mut h);
    assert_eq!(run_seed("run-1"), h.finish());
    assert_eq!(worker_index("run-1") as u64, h.finish() % 10_000);
}

#[test]
fn workers_draw_by_their_seeds() {
    let mut a = query_generator(7, "pod-1");
    assert_eq!(a.next_u64(), ChaCha8Rng::seed_from_u64(query_seed(7, "pod-1")).next_u64());
    let mut b = session_generator(7, "query-pod-1");
    let mut c = ChaCha8Rng::seed_from_u64(session_seed(7, "query-pod-1"));
    assert_eq!(b.next_u64(), c.next_u64());
}
