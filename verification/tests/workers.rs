use incidentbench::adapter::QueryResult;
use incidentbench::barrier::{
    aggregator_unreachable, controller_unreachable, streaming_failed, wait_for_transition,
    BarrierClient, PhaseEvent, Retries, WaitStep, WorkerPayload, MAX_RETRIES,
};
use incidentbench::conductor;
use incidentbench::conductor::{Conductor, ConductorAction, ConductorEvent};
use incidentbench::failures::{
    classify_query_error, is_timeout_error, truncate_error_message, WorkerIdentity,
};
use incidentbench::ingest;
use incidentbench::ingest::{ingest_rate_in, is_incident_phase, retry_after, IngestTally};
use incidentbench::json::Json;
use incidentbench::phase_controller::{
    checkpoint_text, default_worker_timeout, resume_phase, transition_time,
    PhaseControllerConfig, PhaseControllerService, PhaseSpec,
};
use incidentbench::proc_metrics::{
    read_cpu_ticks, read_rss_bytes, split_whitespace, ProcMetrics,
};
use incidentbench::ratelimit::{Acquire, TokenBucketRateLimiter, ONE_TOKEN};
use incidentbench::scenario::{
    IterationMode, QueryCategory, QueryDef, QueryMix, QuerySession, VariableDef, WorkerPhaseRate,
    WorkerRateTable,
};
use incidentbench::session;
use incidentbench::session::{
    configured_sessions, generate_query_variables, hex_text, last_session_snapshot, next_round,
    query_rate_in, session_categories, take_rate_snapshot, take_session_snapshot, worker_id,
    Assignment, Load, QueryWorkerConfig, SessionCategory,
};
use incidentbench::tally::{
    session_timeout_ms, timed_out_message, worker_timeout_ms, Tally,
};
use rand::SeedableRng;
use rand_chacha::ChaCha8Rng;

fn query(name: &str, timeout_ms: u64) -> QueryDef {
    QueryDef {
        name: name.to_string(),
        query_type: "sql".to_string(),
        weight_ppb: None,
        template: String::new(),
        index: String::new(),
        sort: None,
        limit: None,
        timeout_ms,
        sql: None,
        sql_file: None,
        category: Some("cat".to_string()),
        description: String::new(),
        variables: vec![],
    }
}

fn worker() -> WorkerIdentity {
    WorkerIdentity {
        worker_id: "query-pod-1".to_string(),
        worker_index: 17,
        query_group: "heavy".to_string(),
    }
}

fn answer(ms: u64, error: Option<&str>, timed_out: bool) -> Result<QueryResult, String> {
    Ok(QueryResult {
        hit_count: 0,
        row_count: None,
        error: error.map(|e| e.to_string()),
        duration_ns: ms * 1_000_000,
        timed_out,
    })
}

const LOAD: Load = Load { timestamp_ns: 5, cpu_ppm: 6, memory_bytes: 7 };

#[test]
fn errors_fall_into_classes() {
    assert_eq!(classify_query_error("anything", true), "timeout");
    assert_eq!(classify_query_error("Deadline exceeded", false), "timeout");
    assert_eq!(classify_query_error("Query CANCELLED by user", false), "cancelled");
    assert_eq!(classify_query_error("OOM killed", false), "resource");
    assert_eq!(classify_query_error("h2 ENHANCE_YOUR_CALM", false), "resource");
    assert_eq!(classify_query_error("no such column x", false), "sql");
    assert_eq!(classify_query_error("Broken pipe", false), "connection");
    assert_eq!(classify_query_error("HTTP 502", false), "target_internal");
    assert_eq!(classify_query_error("???", false), "unknown");
    assert!(is_timeout_error("Request Timed Out"));
    assert!(!is_timeout_error("time flies"));
}

#[test]
fn long_messages_are_cut() {
    let exact = "x".repeat(1024);
    assert_eq!(truncate_error_message(&exact), exact);
    let long = "x".repeat(1025);
    assert_eq!(truncate_error_message(&long), format!("{}…", exact));
    let wide = "é".repeat(600);
    assert_eq!(truncate_error_message(&wide), format!("{}…", "é".repeat(512)));
    let mixed = format!("{}€€", "x".repeat(1022));
    assert_eq!(truncate_error_message(&mixed), format!("{}…", "x".repeat(1022)));
}

#[test]
fn a_rate_worker_counts() {
    let mut t = Tally::new();
    let q = query("q", 100);
    t.record_query(&q, &worker(), "overlap", 9, 0, &answer(10, None, false));
    t.record_query(&q, &worker(), "overlap", 9, 0, &answer(30, Some("syntax"), false));
    t.record_query(&q, &worker(), "overlap", 9, 5_000_000, &Err("Query timed out".to_string()));
    assert!(t.counted_something());
    let now = Assignment { phase: "overlap".to_string(), rate: 2500 };
    let s = take_rate_snapshot(&mut t, &worker(), &now, LOAD);
    assert_eq!(s.worker_mode, "query");
    assert_eq!(s.queries_executed, 3);
    assert_eq!(s.query_errors, 2);
    assert_eq!(s.target_rate, 2500);
    assert_eq!(s.concurrent_sessions, 0);
    assert_eq!(s.query_latency.as_ref().unwrap().count, 2);
    assert_eq!(s.query_latency_by_type.len(), 1);
    assert_eq!(s.query_latency_by_type[0].executed, 3);
    assert_eq!(s.query_latency_by_type[0].errors, 2);
    assert_eq!(s.query_error_records.len(), 2);
    assert_eq!(s.query_error_records[0].error_class, "sql");
    assert_eq!(s.query_error_records[0].category, "cat");
    assert_eq!(s.query_error_records[1].error_class, "timeout");
    assert_eq!(s.query_error_records[1].duration_ns, 5_000_000);
    assert!(s.query_error_records[1].timed_out);
    assert!(s.timed_out_queries.is_empty());
    assert!(!t.counted_something());
}

#[test]
fn a_session_counts() {
    let mut t = Tally::new();
    t.record_session_query("q", "c", 250, &worker(), "overlap", 42, &answer(10, None, true));
    t.record_session_query("q", "c", 250, &worker(), "overlap", 42, &answer(5, Some("x"), false));
    t.record_session_query("r", "c", 250, &worker(), "overlap", 42, &Err("boom".to_string()));
    let s = take_session_snapshot(&mut t, &worker(), "overlap", LOAD, 1);
    assert_eq!(s.worker_mode, "query-session");
    assert_eq!(s.queries_executed, 3);
    assert_eq!(s.query_errors, 3);
    assert_eq!(s.target_rate, 1);
    assert_eq!(s.concurrent_sessions, 1);
    assert_eq!(s.timed_out_queries.len(), 1);
    assert_eq!(s.timed_out_queries[0].timeout_ms, 250);
    assert_eq!(s.query_error_records[0].message, "query timed out");
    assert_eq!(s.query_error_records[2].duration_ns, 0);
    // A query without a latency has no entry of its own.
    assert_eq!(s.query_latency_by_type.len(), 1);
}

fn session_of(parallelism: usize, iteration: IterationMode) -> QuerySession {
    QuerySession {
        categories: vec![
            QueryCategory {
                name: "a".to_string(),
                queries: vec![query("a0", 0), query("a1", 7), query("a2", 0)],
                iteration,
                parallelism,
            },
            QueryCategory {
                name: "b".to_string(),
                queries: vec![query("b0", 0)],
                iteration: IterationMode::Sequential,
                parallelism: 1,
            },
        ],
        think_time_ms: 0,
    }
}

#[test]
fn the_last_part_of_a_second_is_flushed() {
    let session = session_of(2, IterationMode::Sequential);
    let mut t = Tally::new();
    assert!(last_session_snapshot(&mut t, &worker(), "p", LOAD, &session).is_none());
    t.record_session_query("q", "c", 1, &worker(), "p", 0, &answer(1, None, false));
    let s = last_session_snapshot(&mut t, &worker(), "p", LOAD, &session).unwrap();
    assert_eq!(s.concurrent_sessions, 3);
    assert_eq!(s.queries_executed, 1);
    assert_eq!(configured_sessions(&session), 3);
}

#[test]
fn sessions_take_queries_in_turn() {
    let session = session_of(2, IterationMode::Sequential);
    let mut cats = session_categories(&session);
    let mut rng = ChaCha8Rng::seed_from_u64(1);
    let mut names = Vec::new();
    for _ in 0..3 {
        let work = next_round(&mut cats, &mut rng, 10_000);
        assert_eq!(work.len(), 3);
        assert_eq!(work[2].query.name, "b0");
        assert_eq!(work[2].category, "b");
        for w in &work[..2] {
            assert_eq!(w.category, "a");
            assert_eq!(w.timeout_ms, if w.query.name == "a1" { 7 } else { 10_000 });
            names.push(w.query.name.clone());
        }
    }
    assert_eq!(names, vec!["a0", "a1", "a2", "a0", "a1", "a2"]);
}

#[test]
fn sessions_at_random_stay_in_range_and_repeat_with_the_seed() {
    let session = session_of(50, IterationMode::WeightedRandom);
    let mut one = SessionCategory::from_query_category(&session.categories[0]);
    let mut other = SessionCategory::from_query_category(&session.categories[0]);
    let a = one.next_batch_indices(&mut ChaCha8Rng::seed_from_u64(5));
    let b = other.next_batch_indices(&mut ChaCha8Rng::seed_from_u64(5));
    assert_eq!(a, b);
    assert_eq!(a.len(), 50);
    assert!(a.iter().all(|i| *i < 3));
    assert!((0..3).all(|q| a.contains(&q)));
    assert_eq!(one.cursor, 0);
}

#[test]
fn variables_of_a_query() {
    let mut q = query("q", 0);
    q.variables = vec![
        ("trace".to_string(), VariableDef { source: "recently_ingested".to_string() }),
        ("user".to_string(), VariableDef { source: "static".to_string() }),
    ];
    let mut rng = ChaCha8Rng::seed_from_u64(3);
    let v = generate_query_variables(&q, &mut rng);
    assert_eq!(v[0].0, "trace");
    assert_eq!(v[0].1.len(), 32);
    assert!(v[0].1.chars().all(|c| "0123456789abcdef".contains(c)));
    assert_eq!(v[1], ("user".to_string(), "var_user".to_string()));
    let w = generate_query_variables(&q, &mut rng);
    assert_ne!(v[0].1, w[0].1);
    assert_eq!(hex_text(&vec![0, 9, 10, 15]), "09af");
}

#[test]
fn time_limits() {
    assert_eq!(worker_timeout_ms(&query("q", 100)), 5000);
    assert_eq!(worker_timeout_ms(&query("q", 9000)), 9000);
    assert_eq!(timed_out_message(&query("q", 100)), "Query timed out after 5000ms");
    assert_eq!(session_timeout_ms(&query("q", 0), 10_000), 10_000);
    assert_eq!(session_timeout_ms(&query("q", 3), 10_000), 3);
}

fn table() -> WorkerRateTable {
    WorkerRateTable {
        worker_index: 0,
        total_workers: 2,
        phases: vec![WorkerPhaseRate {
            phase_name: "overlap".to_string(),
            duration_seconds: 30,
            ingest_eps: 250,
            query_mqps: 1250,
        }],
    }
}

fn config(group: &str) -> QueryWorkerConfig {
    QueryWorkerConfig {
        worker_index: 0,
        run_seed: 1,
        query_mix: QueryMix { queries: vec![] },
        phase_mixes: vec![],
        rate_table: table(),
        query_endpoint: String::new(),
        query_group: group.to_string(),
        target_adapter: "mach5".to_string(),
        target_config: Json::object(),
        phase_controller_addr: String::new(),
        aggregator_addr: String::new(),
        query_session: None,
        default_timeout_ms: 10_000,
    }
}

fn transition(to: &str, rate: i64) -> Option<PhaseEvent> {
    Some(PhaseEvent::Transition {
        from_phase: "baseline".to_string(),
        to_phase: to.to_string(),
        transition_time_ns: 1_000,
        new_target_rate: rate,
    })
}

#[test]
fn workers_follow_the_phases() {
    let now = Assignment { phase: "baseline".to_string(), rate: 1 };
    let a = session::follow(&config(""), &now, &transition("overlap", 777)).unwrap();
    assert_eq!((a.phase.as_str(), a.rate), ("overlap", 777));
    let b = session::follow(&config("heavy"), &now, &transition("overlap", 777)).unwrap();
    assert_eq!(b.rate, 1250);
    assert_eq!(query_rate_in(&config("heavy"), "nowhere", 5), 0);
    // A rate that was announced by its bits is read by them.
    assert_eq!(query_rate_in(&config(""), "baseline", -5), u64::MAX - 4);
    assert_eq!(query_rate_in(&config(""), "baseline", 5), 5);
    let c = ingest::follow(&table(), &now, &transition("overlap", 777)).unwrap();
    assert_eq!(c.rate, 250);
    assert_eq!(ingest_rate_in(&table(), "recovery"), 0);
    assert!(session::follow(&config(""), &now, &None).is_none());
    assert!(ingest::follow(&table(), &now, &Some(PhaseEvent::RunComplete)).is_none());
    let prepare = Some(PhaseEvent::PrepareTransition {
        from_phase: "baseline".to_string(),
        to_phase: "overlap".to_string(),
    });
    assert_eq!(ingest::follow(&table(), &now, &prepare).unwrap().phase, "baseline");
    assert!(is_incident_phase("overlap"));
    assert!(!is_incident_phase("recovery"));
    assert_eq!(worker_id("ingest", "pod-3"), "ingest-pod-3");
}

#[test]
fn an_ingest_worker_counts() {
    let mut t = IngestTally::new();
    t.record(true, 1_000_000);
    t.record(true, 3_000_000);
    t.record(false, 9_000_000);
    let now = Assignment { phase: "overlap".to_string(), rate: 250 };
    let s = t.take_snapshot(&worker(), &now, LOAD);
    assert_eq!(s.worker_mode, "ingest");
    assert_eq!((s.events_produced, s.events_acknowledged, s.events_failed), (3, 2, 1));
    assert_eq!(s.kafka_produce_latency.unwrap().max_ns, 3_000_000);
    assert_eq!(s.query_group, "");
    assert_eq!(s.target_rate, 250);
    assert_eq!(t.produced, 0);
    assert_eq!(retry_after(1), Some(50));
    assert_eq!(retry_after(2), Some(100));
    assert_eq!(retry_after(3), None);
}

#[test]
fn a_bucket_keeps_the_rate() {
    let mut b = TokenBucketRateLimiter::new(2000);
    assert_eq!(b.rate(), 2000);
    assert_eq!(b.acquire(0), Acquire::Granted { missed: 0 });
    assert_eq!(b.acquire(0), Acquire::Granted { missed: 0 });
    // Half a second until the next.
    assert_eq!(b.acquire(0), Acquire::Wait { wait_ns: 500_000_000 });
    assert_eq!(b.acquire(499_999_999), Acquire::Wait { wait_ns: 1 });
    assert_eq!(b.acquire(1), Acquire::Granted { missed: 0 });
    assert_eq!(b.tokens, 0);
    // However long the pause, no more than a second's worth.
    assert_eq!(b.try_acquire_batch(10, 60_000_000_000), 2);
    b.set_rate(0);
    assert_eq!(b.acquire(1_000_000_000), Acquire::Idle);
    b.after_idle();
    assert_eq!(b.acquire(1_000_000_000), Acquire::Idle);
    b.after_idle();
    assert_eq!(b.tokens, 0);
    b.set_rate(1000);
    assert_eq!(b.acquire(1_000_000_000), Acquire::Granted { missed: 2 });
    assert_eq!(b.take_missed_ops(), 0);
    b.set_rate(0);
    assert_eq!(b.max_tokens, ONE_TOKEN);
}

#[test]
fn slow_rates_wait_long() {
    let mut b = TokenBucketRateLimiter::new(250);
    assert_eq!(b.acquire(0), Acquire::Granted { missed: 0 });
    assert_eq!(b.acquire(1_000_000_000), Acquire::Wait { wait_ns: 3_000_000_000 });
}

#[test]
fn the_accounts_of_a_process() {
    let stat = "42 (a) b) S 1 2 3 4 5 6 7 8 9 10 150 30 0 0";
    assert_eq!(read_cpu_ticks(stat), Some(180));
    assert_eq!(read_cpu_ticks("42 (a)"), None);
    assert_eq!(read_cpu_ticks("42 (a) S 1 2"), None);
    assert_eq!(read_cpu_ticks("no name"), None);
    let status = "Name:\tx\nVmRSS:\t  2048 kB\nThreads:\t1\n";
    assert_eq!(read_rss_bytes(status), Some(2_097_152));
    assert_eq!(read_rss_bytes("VmRSS: 12 MB\n"), None);
    assert_eq!(read_rss_bytes("Name: x\n"), None);
    let mut p = ProcMetrics::new(Some(100), 0);
    // 50 ticks of 10 ms in a second: half a processor.
    assert_eq!(p.sample(Some(150), Some(9), 1_000_000_000), (500_000, 9));
    assert_eq!(p.sample(None, None, 2_000_000_000), (0, 0));
    assert_eq!(p.cpu_utilization(Some(250), 2_000_000_000), 1_000_000);
    assert_eq!(p.cpu_utilization(Some(251), 2_000_000_000), 0);
    assert_eq!(split_whitespace("  a\tb  c\n"), vec!["a", "b", "c"]);
}

#[test]
fn a_worker_answers_the_controller() {
    let client = BarrierClient {
        worker_id: "w".to_string(),
        worker_mode: "query".to_string(),
        worker_index: 3,
    };
    assert!(matches!(client.ready().payload, WorkerPayload::Ready));
    assert!(matches!(client.done().payload, WorkerPayload::Done));
    let event = PhaseEvent::PrepareTransition {
        from_phase: "baseline".to_string(),
        to_phase: "overlap".to_string(),
    };
    match client.answer(&event) {
        Some(m) => match m.payload {
            WorkerPayload::PrepareAck { phase } => assert_eq!(phase, "baseline"),
            _ => panic!("no acknowledgement"),
        },
        None => panic!("no answer"),
    }
    assert!(client.answer(&PhaseEvent::RunComplete).is_none());
    match wait_for_transition(&transition("overlap", 9), 400) {
        WaitStep::Enter { wait_ns, phase, rate } => {
            assert_eq!((wait_ns, phase.as_str(), rate), (600, "overlap", 9));
        }
        _ => panic!("no phase"),
    }
    match wait_for_transition(&transition("overlap", 9), 4000) {
        WaitStep::Enter { wait_ns, .. } => assert_eq!(wait_ns, 0),
        _ => panic!("no phase"),
    }
    assert!(matches!(wait_for_transition(&None, 0), WaitStep::Stop));
}

#[test]
fn tries_are_spaced_and_end() {
    let mut r = Retries::new();
    let mut waits = Vec::new();
    while let Some(s) = r.after_failure() {
        waits.push(s);
    }
    assert_eq!(waits.len() as u32, MAX_RETRIES - 1);
    assert_eq!(&waits[..5], &[1, 2, 4, 8, 10]);
    assert!(waits.iter().all(|s| *s <= 10));
    assert_eq!(
        controller_unreachable("x"),
        "Failed to connect to PhaseController after 30 attempts: x"
    );
    assert_eq!(aggregator_unreachable("x"), "Failed to connect to aggregator after 30 retries: x");
    assert_eq!(streaming_failed("x"), "Metrics streaming failed after 30 retries: x");
}

fn controller() -> PhaseControllerService {
    let phase = |name: &str, eps: u64| PhaseSpec {
        name: name.to_string(),
        duration_seconds: 30,
        per_worker_ingest_eps: eps,
        per_worker_query_mqps: eps * 10,
    };
    PhaseControllerService::new(PhaseControllerConfig {
        phases: vec![phase("baseline", 100), phase("overlap", 500), phase("recovery", 200)],
        expected_ingest_workers: 1,
        expected_query_workers: 1,
        worker_connect_timeout_s: default_worker_timeout(),
        checkpoint_path: None,
    })
}

#[test]
fn the_controller_waits_for_all_workers() {
    let mut c = controller();
    assert_eq!(c.get_status(None, None).state, "waiting");
    assert!(!c.worker_ready("i", "ingest"));
    assert!(c.worker_ready("q", "query"));
    let s = c.get_status(None, None);
    assert_eq!((s.connected_ingest_workers, s.connected_query_workers), (1, 1));
    assert_eq!(s.total_duration_seconds, 90);
    c.start();
    c.enter_phase(1);
    assert_eq!(c.get_status(Some(40), Some(10)).current_phase, "overlap");
    assert!(!c.all_prepared());
    assert!(!c.goes_on(1999) && c.goes_on(2000));
    // An answer counts once, and for the phase that is being left.
    c.worker_prepared("i", "baseline");
    c.worker_prepared("i", "baseline");
    c.worker_prepared("q", "overlap");
    assert!(!c.all_prepared() && !c.goes_on(100));
    c.worker_prepared("q", "baseline");
    assert!(c.all_prepared() && c.goes_on(100) && !c.goes_on(99));
    c.finish();
    assert_eq!(c.get_status(Some(90), None).state, "complete");
    let _ = c.worker_disconnected("i");
    assert_eq!(c.get_status(Some(90), None).connected_ingest_workers, 0);
    assert!(c.timeout_message(600).starts_with("Timed out waiting for workers after 600s. Connected: 0 ingest (expected 1), "));
}

#[test]
fn a_transition_waits_for_everyone() {
    let mut c = controller();
    let _ = c.worker_ready("a", "ingest");
    let _ = c.worker_ready("b", "query");
    c.enter_phase(1);
    c.worker_prepared("a", "baseline");
    assert!(c.worker_disconnected("a"));
    assert!(!c.goes_on(100) && !c.goes_on(1999) && c.goes_on(2000));
    assert!(c.worker_disconnected("b"));
    assert!(c.goes_on(100));
}

#[test]
fn a_timeline_resumes_where_it_stopped() {
    let c = controller();
    let all = c.plan_timeline(0);
    assert_eq!(all.len(), 3);
    assert_eq!(all[1].from_phase, "baseline");
    assert_eq!(all[1].to_phase, "overlap");
    assert_eq!((all[1].ingest_rate, all[1].query_rate), (500, 5000));
    let rest = c.plan_timeline(2);
    assert_eq!(rest.len(), 1);
    assert_eq!(rest[0].to_phase, "recovery");
    assert_eq!(resume_phase(&Some(checkpoint_text(2))), 2);
    assert_eq!(resume_phase(&Some("rubbish".to_string())), 0);
    assert_eq!(resume_phase(&None), 0);
    assert!(transition_time(0) > 0);
}

#[test]
fn a_run_is_conducted_phase_by_phase() {
    let mut c = controller();
    let _ = c.worker_ready("i", "ingest");
    let _ = c.worker_ready("q", "query");
    let mut r = Conductor::new(c.plan_timeline(1));
    assert!(matches!(r.step(&mut c, ConductorEvent::Done), ConductorAction::Note(1)));
    match r.step(&mut c, ConductorEvent::Done) {
        ConductorAction::Prepare { from_phase, to_phase } => {
            assert_eq!((from_phase.as_str(), to_phase.as_str()), ("baseline", "overlap"));
        }
        _ => panic!("nobody was asked to prepare"),
    }
    assert_eq!(c.current_phase_index, 1);
    c.worker_prepared("i", "baseline");
    assert!(matches!(r.step(&mut c, ConductorEvent::Waited(100)), ConductorAction::Wait));
    c.worker_prepared("q", "baseline");
    assert!(matches!(r.step(&mut c, ConductorEvent::Waited(200)), ConductorAction::Look));
    match r.step(&mut c, ConductorEvent::Moment(7)) {
        ConductorAction::Announce(all) => {
            assert_eq!(all.len(), 2);
            assert_eq!((all[0].worker_id.as_str(), all[0].new_target_rate), ("i", 500));
            assert_eq!((all[1].worker_id.as_str(), all[1].new_target_rate), ("q", 5000));
            assert_eq!(all[1].transition_time_ns, 50_000_007);
            assert_eq!(all[1].to_phase, "overlap");
        }
        _ => panic!("nothing was announced"),
    }
    assert!(matches!(r.step(&mut c, ConductorEvent::Done), ConductorAction::Run(30)));
    assert!(matches!(r.step(&mut c, ConductorEvent::Done), ConductorAction::Note(2)));
    assert!(matches!(r.step(&mut c, ConductorEvent::Done), ConductorAction::Prepare { .. }));
    // Nobody answers: the transition goes on when the time is over.
    assert!(matches!(r.step(&mut c, ConductorEvent::Waited(1999)), ConductorAction::Wait));
    assert!(matches!(r.step(&mut c, ConductorEvent::Waited(2000)), ConductorAction::Look));
    assert!(matches!(r.step(&mut c, ConductorEvent::Moment(9)), ConductorAction::Announce(_)));
    assert!(matches!(r.step(&mut c, ConductorEvent::Done), ConductorAction::Run(30)));
    assert!(matches!(r.step(&mut c, ConductorEvent::Done), ConductorAction::Complete));
    assert_eq!(c.get_status(None, None).state, "complete");
    assert!(matches!(r.step(&mut c, ConductorEvent::Done), ConductorAction::Finish));
    assert!(r.stage == conductor::Stage::Done);
}

#[test]
fn the_first_phase_begins_without_a_question() {
    let mut c = controller();
    let mut r = Conductor::new(c.plan_timeline(0));
    assert!(matches!(r.step(&mut c, ConductorEvent::Done), ConductorAction::Note(0)));
    assert!(matches!(r.step(&mut c, ConductorEvent::Done), ConductorAction::Look));
    match r.step(&mut c, ConductorEvent::Moment(0)) {
        ConductorAction::Announce(all) => assert!(all.is_empty()),
        _ => panic!("nothing was announced"),
    }
    let mut over = Conductor::new(c.plan_timeline(3));
    assert!(matches!(over.step(&mut c, ConductorEvent::Done), ConductorAction::Complete));
}

#[test]
fn a_rate_is_announced_by_its_bits() {
    let mut c = controller();
    c.phases[0].per_worker_query_mqps = u64::MAX - 4;
    let _ = c.worker_ready("q", "query");
    let mut r = Conductor::new(c.plan_timeline(0));
    let _ = r.step(&mut c, ConductorEvent::Done);
    let _ = r.step(&mut c, ConductorEvent::Done);
    match r.step(&mut c, ConductorEvent::Moment(0)) {
        ConductorAction::Announce(all) => assert_eq!(all[0].new_target_rate, -5),
        _ => panic!("nothing was announced"),
    }
}
