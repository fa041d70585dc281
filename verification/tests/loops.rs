use incidentbench::adapter::QueryResult;
use incidentbench::barrier::PhaseEvent;
use incidentbench::docs::ToDoc;
use incidentbench::events::render;
use incidentbench::failures::WorkerIdentity;
use incidentbench::generator::DataGenerator;
use incidentbench::ingest_loop;
use incidentbench::ingest_loop::{IngestAction, IngestEvent, IngestLoop};
use incidentbench::json::Json;
use incidentbench::mix::{resolve_mixes, weights_for, PhaseMix};
use incidentbench::rate_loop;
use incidentbench::rate_loop::{RateAction, RateEvent, RateLoop};
use incidentbench::scenario::{
    FieldDef, FieldType, IterationMode, PhaseDef, QueryCategory, QueryConfig, QueryDef, QueryMix,
    QuerySession, Schema, WorkerPhaseRate, WorkerRateTable,
};
use incidentbench::session::{can_run, Assignment, Load, QueryWorkerConfig};
use incidentbench::session_loop;
use incidentbench::session_loop::{SessionAction, SessionEvent, SessionLoop};
use rand::SeedableRng;
use rand_chacha::ChaCha8Rng;

const LOAD: Load = Load { timestamp_ns: 5, cpu_ppm: 6, memory_bytes: 7 };

fn worker() -> WorkerIdentity {
    WorkerIdentity {
        worker_id: "w".to_string(),
        worker_index: 1,
        query_group: String::new(),
    }
}

fn query(name: &str) -> QueryDef {
    QueryDef {
        name: name.to_string(),
        query_type: "sql".to_string(),
        weight_ppb: None,
        template: String::new(),
        index: String::new(),
        sort: None,
        limit: None,
        timeout_ms: 7000,
        sql: None,
        sql_file: None,
        category: None,
        description: String::new(),
        variables: vec![],
    }
}

fn config() -> QueryWorkerConfig {
    QueryWorkerConfig {
        worker_index: 0,
        run_seed: 1,
        query_mix: QueryMix { queries: vec![query("only")] },
        phase_mixes: vec![],
        rate_table: table(),
        query_endpoint: String::new(),
        query_group: String::new(),
        target_adapter: "mach5".to_string(),
        target_config: Json::object(),
        phase_controller_addr: String::new(),
        aggregator_addr: String::new(),
        query_session: None,
        default_timeout_ms: 10_000,
    }
}

fn rate(phase: &str, ingest_eps: u64) -> WorkerPhaseRate {
    WorkerPhaseRate {
        phase_name: phase.to_string(),
        duration_seconds: 30,
        ingest_eps,
        query_mqps: 0,
    }
}

fn table() -> WorkerRateTable {
    WorkerRateTable {
        worker_index: 0,
        total_workers: 1,
        phases: vec![rate("baseline", 1), rate("overlap", 4)],
    }
}

fn transition(to: &str, rate: i64) -> Option<Option<PhaseEvent>> {
    Some(Some(PhaseEvent::Transition {
        from_phase: "baseline".to_string(),
        to_phase: to.to_string(),
        transition_time_ns: 1_000,
        new_target_rate: rate,
    }))
}

fn answer() -> Result<QueryResult, String> {
    Ok(QueryResult {
        hit_count: 0,
        row_count: None,
        error: None,
        duration_ns: 1_000_000,
        timed_out: false,
    })
}

fn baseline(rate: u64) -> Assignment {
    Assignment { phase: "baseline".to_string(), rate }
}

fn session(think_time_ms: u64, queries: Vec<QueryDef>) -> QuerySession {
    QuerySession {
        categories: vec![QueryCategory {
            name: "c".to_string(),
            queries,
            iteration: IterationMode::Sequential,
            parallelism: 2,
        }],
        think_time_ms,
    }
}

#[test]
fn a_session_goes_round_and_loses_nothing() {
    let c = config();
    let s = session(30, vec![query("a"), query("b"), query("c")]);
    assert!(can_run(&s));
    assert!(!can_run(&session(0, vec![])));
    let mut l = SessionLoop::new(baseline(0), &s, ChaCha8Rng::seed_from_u64(1));
    let w = worker();
    assert!(matches!(l.step(&c, &s, &w, SessionEvent::Elapsed(5)), SessionAction::Listen));
    let quiet = || SessionEvent::Heard { said: None, now_ns: 77_000_000 };
    assert!(matches!(l.step(&c, &s, &w, quiet()), SessionAction::Ask));
    let names: Vec<&str> = l.asked.iter().map(|x| x.query.name.as_str()).collect();
    assert_eq!(names, vec!["a", "b"]);
    let both = SessionEvent::Answered(vec![answer(), Err("boom".to_string())]);
    assert!(matches!(l.step(&c, &s, &w, both), SessionAction::Rest(30)));
    assert!(matches!(l.step(&c, &s, &w, SessionEvent::Rested), SessionAction::Measure));
    let late = SessionEvent::Elapsed(1_000_000_000);
    assert!(matches!(l.step(&c, &s, &w, late), SessionAction::Sample));
    match l.step(&c, &s, &w, SessionEvent::Sampled(LOAD)) {
        SessionAction::Report(r) => {
            assert_eq!(r.queries_executed, 2);
            assert_eq!(r.query_errors, 1);
            assert_eq!(r.concurrent_sessions, 1);
            assert_eq!(r.phase, "baseline");
            assert_eq!(r.query_error_records[0].timestamp_ms, 77);
        }
        _ => panic!("no report"),
    }
    let moved = SessionEvent::Heard { said: transition("overlap", 9), now_ns: 78_000_000 };
    assert!(matches!(l.step(&c, &s, &w, moved), SessionAction::Ask));
    let names: Vec<&str> = l.asked.iter().map(|x| x.query.name.as_str()).collect();
    assert_eq!(names, vec!["c", "a"]);
    let both = SessionEvent::Answered(vec![answer(), answer()]);
    let _ = l.step(&c, &s, &w, both);
    let _ = l.step(&c, &s, &w, SessionEvent::Rested);
    let _ = l.step(&c, &s, &w, SessionEvent::Elapsed(0));
    let over = SessionEvent::Heard { said: Some(Some(PhaseEvent::RunComplete)), now_ns: 79_000_000 };
    assert!(matches!(l.step(&c, &s, &w, over), SessionAction::Sample));
    match l.step(&c, &s, &w, SessionEvent::Sampled(LOAD)) {
        SessionAction::Finish(Some(r)) => {
            assert_eq!(r.queries_executed, 2);
            assert_eq!(r.concurrent_sessions, 2);
            assert_eq!(r.phase, "overlap");
        }
        _ => panic!("nothing was flushed"),
    }
    assert_eq!(l.stage, session_loop::Stage::Done);
    assert!(!l.tally.counted_something());
}

#[test]
fn a_rate_worker_waits_for_its_tokens() {
    let c = config();
    let w = worker();
    let mut l = RateLoop::new(baseline(1000), ChaCha8Rng::seed_from_u64(1));
    assert!(matches!(l.step(&c, &w, RateEvent::Elapsed(0)), RateAction::Listen));
    assert!(matches!(l.step(&c, &w, RateEvent::Heard { said: None, now_ns: 0 }), RateAction::Draw));
    // The bucket starts with one token.
    match l.step(&c, &w, RateEvent::Refilled(0)) {
        RateAction::Ask { query, timeout_ms } => {
            assert_eq!(query, 0);
            assert_eq!(timeout_ms, 7000);
        }
        _ => panic!("no query"),
    }
    let done = RateEvent::Answered { timestamp_ms: 3, elapsed_ns: 4, result: answer() };
    assert!(matches!(l.step(&c, &w, done), RateAction::Measure));
    assert!(matches!(l.step(&c, &w, RateEvent::Elapsed(0)), RateAction::Listen));
    // The phase begins at its moment, not before.
    let early = RateEvent::Heard { said: transition("overlap", 2000), now_ns: 400 };
    assert!(matches!(l.step(&c, &w, early), RateAction::Hold(600)));
    assert_eq!(l.now.rate, 1000);
    assert!(matches!(l.step(&c, &w, RateEvent::Held), RateAction::Draw));
    assert_eq!(l.now.rate, 2000);
    match l.step(&c, &w, RateEvent::Refilled(0)) {
        RateAction::Wait(ns) => assert_eq!(ns, 500_000_000),
        _ => panic!("no token to wait for"),
    }
    assert!(matches!(l.step(&c, &w, RateEvent::Refilled(500_000_000)), RateAction::Ask { .. }));
    assert_eq!(l.bucket.tokens, 0);
    let failed = RateEvent::Answered { timestamp_ms: 3, elapsed_ns: 4, result: Err("x".to_string()) };
    let _ = l.step(&c, &w, failed);
    assert!(matches!(l.step(&c, &w, RateEvent::Elapsed(2_000_000_000)), RateAction::Sample));
    match l.step(&c, &w, RateEvent::Sampled(LOAD)) {
        RateAction::Report(r) => {
            assert_eq!(r.queries_executed, 2);
            assert_eq!(r.query_errors, 1);
            assert_eq!(r.target_rate, 2000);
        }
        _ => panic!("no report"),
    }
    let moved = RateEvent::Heard { said: transition("idle", 0), now_ns: 1_000 };
    assert!(matches!(l.step(&c, &w, moved), RateAction::Draw));
    assert!(matches!(l.step(&c, &w, RateEvent::Refilled(9)), RateAction::Idle));
    // Without a rate nothing is asked; the worker looks at the clock and listens again.
    assert!(matches!(l.step(&c, &w, RateEvent::Idled), RateAction::Measure));
    assert!(matches!(l.step(&c, &w, RateEvent::Elapsed(0)), RateAction::Listen));
    assert!(matches!(l.step(&c, &w, RateEvent::Heard { said: None, now_ns: 0 }), RateAction::Draw));
    assert!(matches!(l.step(&c, &w, RateEvent::Refilled(1_000_000_000)), RateAction::Idle));
    assert!(matches!(l.step(&c, &w, RateEvent::Idled), RateAction::Measure));
    assert_eq!(l.bucket.missed_ops, 2);
    let _ = l.step(&c, &w, RateEvent::Elapsed(0));
    let gone = RateEvent::Heard { said: Some(None), now_ns: 0 };
    assert!(matches!(l.step(&c, &w, gone), RateAction::Sample));
    let sampled = RateEvent::Sampled(LOAD);
    // All was reported before.
    assert!(matches!(l.step(&c, &w, sampled), RateAction::Finish(None)));
    assert_eq!(l.stage, rate_loop::Stage::Done);
}

#[test]
fn queries_are_asked_by_the_weights_of_the_phase() {
    let mut c = config();
    c.query_mix.queries = vec![query("a"), query("b"), query("c")];
    c.phase_mixes = vec![
        PhaseMix { phase_name: "baseline".to_string(), weights: None },
        PhaseMix {
            phase_name: "overlap".to_string(),
            weights: Some(vec![("c".to_string(), 250_000_000), ("b".to_string(), 750_000_000)]),
        },
    ];
    assert_eq!(weights_for(&c.query_mix.queries, &c.phase_mixes, "baseline"), vec![1, 1, 1]);
    assert_eq!(weights_for(&c.query_mix.queries, &c.phase_mixes, "recovery"), vec![1, 1, 1]);
    assert_eq!(
        weights_for(&c.query_mix.queries, &c.phase_mixes, "overlap"),
        vec![0, 750_000_000, 250_000_000]
    );
    // Where no mix holds, the queries' own weights do.
    let mut own = vec![query("a"), query("b"), query("c")];
    own[0].weight_ppb = Some(400_000_000);
    own[2].weight_ppb = Some(600_000_000);
    assert_eq!(weights_for(&own, &c.phase_mixes, "baseline"), vec![400_000_000, 0, 600_000_000]);
    assert_eq!(weights_for(&own, &c.phase_mixes, "overlap"), vec![0, 750_000_000, 250_000_000]);
    own[0].weight_ppb = Some(-1);
    own[2].weight_ppb = None;
    assert_eq!(weights_for(&own, &c.phase_mixes, "baseline"), vec![1, 1, 1]);
    let count = |phase: &str| {
        let now = Assignment { phase: phase.to_string(), rate: 1_000_000 };
        let mut l = RateLoop::new(now, ChaCha8Rng::seed_from_u64(3));
        let w = worker();
        let mut seen = [0; 3];
        for _ in 0..400 {
            let _ = l.step(&c, &w, RateEvent::Elapsed(0));
            let _ = l.step(&c, &w, RateEvent::Heard { said: None, now_ns: 0 });
            match l.step(&c, &w, RateEvent::Refilled(0)) {
                RateAction::Ask { query, .. } => seen[query] += 1,
                _ => panic!("no query"),
            }
            let done = RateEvent::Answered { timestamp_ms: 3, elapsed_ns: 4, result: answer() };
            let _ = l.step(&c, &w, done);
        }
        seen
    };
    let calm = count("baseline");
    assert!(calm.iter().all(|n| *n > 80));
    let busy = count("overlap");
    assert_eq!(busy[0], 0);
    assert!(busy[1] > 2 * busy[2] && busy[2] > 50);
}

#[test]
fn a_group_keeps_its_own_mix() {
    let phase = |name: &str, mix: Option<Vec<(String, i64)>>| PhaseDef {
        name: name.to_string(),
        display_name: name.to_string(),
        duration_seconds: 30,
        query: QueryConfig { mix_override: mix, ..QueryConfig::default() },
        description: String::new(),
    };
    let weights = |q: &str| Some(vec![(q.to_string(), 1_000_000_000)]);
    let phases = vec![phase("baseline", None), phase("overlap", weights("a"))];
    let own = resolve_mixes(&weights("b"), &phases);
    assert!(own.iter().all(|m| m.weights == weights("b")));
    let shared = resolve_mixes(&None, &phases);
    assert_eq!(shared[0].weights, None);
    assert_eq!(shared[1].weights, weights("a"));
    assert_eq!(
        render(&shared[1].to_json()),
        "{\"phase_name\":\"overlap\",\"weights\":{\"a\":1}}"
    );
}

fn schema(names: &[&str]) -> Schema {
    Schema {
        index_name: "i".to_string(),
        timestamp_field: "t".to_string(),
        fields: names
            .iter()
            .map(|n| FieldDef {
                name: n.to_string(),
                field_type: FieldType::Timestamp,
                generator: "now".to_string(),
                config: Json::Null,
            })
            .collect(),
    }
}

#[test]
fn an_ingest_worker_tries_three_times() {
    let t = table();
    let w = worker();
    let g = DataGenerator::new(&schema(&["t"]), 1, 2).unwrap();
    let mut l = IngestLoop::new(baseline(1), g);
    let _ = l.step(&t, &w, IngestEvent::Elapsed(0));
    let early = IngestEvent::Heard { said: transition("overlap", 99), now_ns: 999 };
    assert!(matches!(l.step(&t, &w, early), IngestAction::Hold(1)));
    assert_eq!(l.now.rate, 1);
    assert!(matches!(l.step(&t, &w, IngestEvent::Held), IngestAction::Draw));
    assert_eq!(l.now.rate, 4);
    assert_eq!(l.bucket.rate, 4000);
    assert!(matches!(l.step(&t, &w, IngestEvent::Refilled(0)), IngestAction::Stamp));
    match l.step(&t, &w, IngestEvent::Stamped("noon".to_string())) {
        IngestAction::Send(e) => assert_eq!(render(&e), "{\"t\":\"noon\"}"),
        _ => panic!("no event"),
    }
    let lost = || IngestEvent::Sent { acknowledged: false, elapsed_ns: 1 };
    assert!(matches!(l.step(&t, &w, lost()), IngestAction::Pause(50)));
    assert!(matches!(l.step(&t, &w, IngestEvent::Paused), IngestAction::Resend));
    assert!(matches!(l.step(&t, &w, lost()), IngestAction::Pause(100)));
    assert!(matches!(l.step(&t, &w, IngestEvent::Paused), IngestAction::Resend));
    assert!(matches!(l.step(&t, &w, lost()), IngestAction::Measure));
    assert_eq!((l.tally.produced, l.tally.failed, l.tally.acknowledged), (1, 1, 0));
    let _ = l.step(&t, &w, IngestEvent::Elapsed(0));
    let _ = l.step(&t, &w, IngestEvent::Heard { said: None, now_ns: 0 });
    match l.step(&t, &w, IngestEvent::Refilled(0)) {
        IngestAction::Wait(ns) => assert_eq!(ns, 250_000_000),
        _ => panic!("no token to wait for"),
    }
    assert!(matches!(l.step(&t, &w, IngestEvent::Refilled(250_000_000)), IngestAction::Stamp));
    let _ = l.step(&t, &w, IngestEvent::Stamped("one".to_string()));
    let kept = IngestEvent::Sent { acknowledged: true, elapsed_ns: 6 };
    assert!(matches!(l.step(&t, &w, kept), IngestAction::Measure));
    let _ = l.step(&t, &w, IngestEvent::Elapsed(1_000_000_000));
    match l.step(&t, &w, IngestEvent::Sampled(LOAD)) {
        IngestAction::Report(r) => {
            assert_eq!((r.events_produced, r.events_acknowledged, r.events_failed), (2, 1, 1));
            assert_eq!(r.target_rate, 4);
        }
        _ => panic!("no report"),
    }
    let _ = l.step(&t, &w, IngestEvent::Heard { said: None, now_ns: 0 });
    let _ = l.step(&t, &w, IngestEvent::Refilled(250_000_000));
    let _ = l.step(&t, &w, IngestEvent::Stamped("two".to_string()));
    let _ = l.step(&t, &w, IngestEvent::Sent { acknowledged: true, elapsed_ns: 6 });
    let _ = l.step(&t, &w, IngestEvent::Elapsed(0));
    let gone = IngestEvent::Heard { said: Some(Some(PhaseEvent::RunComplete)), now_ns: 0 };
    assert!(matches!(l.step(&t, &w, gone), IngestAction::Sample));
    // The rest of the last second is reported too.
    match l.step(&t, &w, IngestEvent::Sampled(LOAD)) {
        IngestAction::Finish(Some(r)) => {
            assert_eq!((r.events_produced, r.events_acknowledged), (1, 1));
            assert_eq!(r.phase, "overlap");
        }
        _ => panic!("nothing was flushed"),
    }
    assert_eq!(l.stage, ingest_loop::Stage::Done);
    assert!(!l.tally.counted_something());
}

#[test]
fn a_rate_worker_reports_the_rest_of_its_last_second() {
    let c = config();
    let w = worker();
    let mut l = RateLoop::new(baseline(1000), ChaCha8Rng::seed_from_u64(1));
    let _ = l.step(&c, &w, RateEvent::Elapsed(0));
    let _ = l.step(&c, &w, RateEvent::Heard { said: None, now_ns: 0 });
    let _ = l.step(&c, &w, RateEvent::Refilled(0));
    let done = RateEvent::Answered { timestamp_ms: 3, elapsed_ns: 4, result: answer() };
    let _ = l.step(&c, &w, done);
    let _ = l.step(&c, &w, RateEvent::Elapsed(0));
    let over = RateEvent::Heard { said: Some(Some(PhaseEvent::RunComplete)), now_ns: 0 };
    assert!(matches!(l.step(&c, &w, over), RateAction::Sample));
    match l.step(&c, &w, RateEvent::Sampled(LOAD)) {
        RateAction::Finish(Some(r)) => assert_eq!(r.queries_executed, 1),
        _ => panic!("nothing was flushed"),
    }
    assert_eq!(l.stage, rate_loop::Stage::Done);
}

#[test]
fn a_session_holds_until_its_moment_and_reports_its_timeouts() {
    let c = config();
    let s = session(0, vec![query("a"), query("b")]);
    let mut l = SessionLoop::new(baseline(0), &s, ChaCha8Rng::seed_from_u64(1));
    let w = worker();
    let _ = l.step(&c, &s, &w, SessionEvent::Elapsed(0));
    let early = SessionEvent::Heard { said: transition("overlap", 9), now_ns: 300 };
    assert!(matches!(l.step(&c, &s, &w, early), SessionAction::Hold(700)));
    assert_eq!(l.now.phase, "baseline");
    let held = SessionEvent::Held { now_ns: 1_000 };
    assert!(matches!(l.step(&c, &s, &w, held), SessionAction::Ask));
    assert_eq!(l.now.phase, "overlap");
    let late = Ok(QueryResult { timed_out: true, ..answer().unwrap() });
    let _ = l.step(&c, &s, &w, SessionEvent::Answered(vec![answer(), late]));
    let _ = l.step(&c, &s, &w, SessionEvent::Elapsed(0));
    let over = SessionEvent::Heard { said: Some(None), now_ns: 2_000 };
    assert!(matches!(l.step(&c, &s, &w, over), SessionAction::Sample));
    match l.step(&c, &s, &w, SessionEvent::Sampled(LOAD)) {
        SessionAction::Finish(Some(r)) => assert_eq!(r.timed_out_queries.len(), 1),
        _ => panic!("nothing was flushed"),
    }
}

#[test]
fn an_event_that_cannot_be_made_ends_the_worker() {
    let t = table();
    let w = worker();
    let g = DataGenerator::new(&schema(&["a", "a.b"]), 1, 2).unwrap();
    let mut l = IngestLoop::new(baseline(0), g);
    let _ = l.step(&t, &w, IngestEvent::Elapsed(0));
    let _ = l.step(&t, &w, IngestEvent::Heard { said: None, now_ns: 0 });
    assert!(matches!(l.step(&t, &w, IngestEvent::Refilled(0)), IngestAction::Stamp));
    let stamped = IngestEvent::Stamped("noon".to_string());
    assert!(matches!(l.step(&t, &w, stamped), IngestAction::Fail));
}
