use incidentbench::events::{
    evaluate_expression, get_field_str, get_field_value, render, set_nested_field,
};
use incidentbench::fields::{
    build_field_generator, extract_weighted_values, parse_condition, FieldGenerator, Spread,
};
use incidentbench::generator::{
    distributed, enum_value, pattern_text, replacement_for, substitute_template, DataGenerator,
};
use incidentbench::json::Json;
use incidentbench::scenario::{FieldDef, FieldType, Schema};
use incidentbench::seeds::{
    derive_worker_seed, hex_of, query_seed, run_seed, session_seed, worker_index,
};
use rand::rngs::StdRng;
use rand::SeedableRng;
use siphasher::sip::SipHasher13;
use std::collections::hash_map::DefaultHasher;
use std::hash::{Hash, Hasher};

fn number(t: &str) -> Json {
    Json::Number(t.to_string())
}

fn field(name: &str, generator: &str, config: Json) -> FieldDef {
    FieldDef {
        name: name.to_string(),
        field_type: FieldType::Keyword,
        generator: generator.to_string(),
        config,
    }
}

fn schema(fields: Vec<FieldDef>) -> Schema {
    Schema {
        index_name: "logs".to_string(),
        timestamp_field: "@timestamp".to_string(),
        fields,
    }
}

fn rich_schema() -> Schema {
    schema(vec![
        field("@timestamp", "now", Json::Null),
        field(
            "level",
            "weighted_enum",
            Json::object()
                .with("baseline", Json::object().with("INFO", Json::Uint(1)))
                .with("incident", Json::object().with("ERROR", Json::Uint(1))),
        ),
        field(
            "service",
            "enum",
            Json::object().with("values", Json::array().item(Json::text("api")).item(Json::Uint(3))),
        ),
        field(
            "host",
            "pattern",
            Json::object().with("pattern", Json::text("{service}-pod-{pod_id}")).with(
                "pod_id",
                Json::object().with("min", Json::Uint(7)).with("max", Json::Uint(7)),
            ),
        ),
        field("trace_id", "hex", Json::object().with("length", Json::Uint(32))),
        field(
            "response.time_ms",
            "distribution",
            Json::object()
                .with(
                    "baseline",
                    Json::object().with("mean", Json::Uint(50)).with("stddev", Json::Uint(10)),
                )
                .with(
                    "incident",
                    Json::object().with("mean", number("1e6")).with("stddev", Json::Uint(0)),
                ),
        ),
        field(
            "response.time_us",
            "derived",
            Json::object().with("expression", Json::text("response.time_ms * 1000")),
        ),
        field(
            "error_code",
            "conditional",
            Json::object()
                .with("condition", Json::text("level in [ERROR, FATAL]"))
                .with("values", Json::object().with("500", Json::Uint(1))),
        ),
        field(
            "message",
            "template",
            Json::object().with(
                "templates",
                Json::object().with(
                    "ERROR",
                    Json::array().item(Json::text("{service} failed with {error_code} on {nope}")),
                ),
            ),
        ),
    ])
}

#[test]
fn a_generator_makes_events() {
    let mut g = DataGenerator::new(&rich_schema(), 42, 3).unwrap();
    let calm = g.generate_event("2025-01-01T00:00:00.000Z").unwrap();
    assert_eq!(get_field_str(&calm, "@timestamp"), Some("2025-01-01T00:00:00.000Z"));
    assert_eq!(get_field_str(&calm, "level"), Some("INFO"));
    assert_eq!(get_field_str(&calm, "service"), Some("api"));
    assert_eq!(get_field_str(&calm, "host"), Some("api-pod-7"));
    assert_eq!(get_field_str(&calm, "trace_id").unwrap().len(), 32);
    assert!(get_field_value(&calm, "error_code").is_none());
    assert_eq!(get_field_str(&calm, "message"), Some("Log message"));
    match get_field_value(&calm, "response.time_ms") {
        Some(Json::Int(n)) => {
            assert!(*n >= 50 && *n < 60);
            match get_field_value(&calm, "response.time_us") {
                Some(Json::Int(us)) => assert_eq!(*us, *n * 1000),
                _ => panic!("no derived value"),
            }
        }
        _ => panic!("no value"),
    }
    g.set_incident_mode(true);
    let storm = g.generate_event("now").unwrap();
    assert_eq!(get_field_str(&storm, "level"), Some("ERROR"));
    assert_eq!(get_field_str(&storm, "message"), Some("api failed with 500 on nope"));
    match get_field_value(&storm, "response.time_ms") {
        Some(Json::Int(n)) => assert_eq!(*n, 30000),
        _ => panic!("no value"),
    }
}

#[test]
fn the_same_seed_gives_the_same_events() {
    let times: Vec<String> = (0..5).map(|i| format!("t{}", i)).collect();
    let batch = |seed: u64, index: u32| -> Vec<String> {
        let mut g = DataGenerator::new(&rich_schema(), seed, index).unwrap();
        g.generate_batch(&times).unwrap().iter().map(render).collect()
    };
    assert_eq!(batch(42, 3), batch(42, 3));
    assert_ne!(batch(42, 3), batch(42, 4));
    assert_ne!(batch(42, 3), batch(43, 3));
    let one = batch(42, 3);
    assert_ne!(one[0], one[1]);
}

#[test]
fn a_field_in_the_way_stops_an_event() {
    let s = schema(vec![field("a", "other", Json::Null), field("a.b", "other", Json::Null)]);
    let mut g = DataGenerator::new(&s, 1, 1).unwrap();
    assert!(g.generate_event("now").is_none());
    assert!(g.generate_batch(&vec!["now".to_string()]).is_none());
    let t = schema(vec![field("a.b", "other", Json::Null), field("a.c", "other", Json::Null)]);
    let mut h = DataGenerator::new(&t, 1, 1).unwrap();
    assert_eq!(
        render(&h.generate_event("now").unwrap()),
        "{\"a\":{\"b\":\"unknown\",\"c\":\"unknown\"}}"
    );
}

#[test]
fn nothing_to_choose_from_makes_no_generator() {
    let zero = Json::object().with("values", Json::object().with("x", Json::Uint(0)));
    assert!(build_field_generator(&field("f", "weighted_enum", zero)).is_none());
    let negative = Json::object().with("values", Json::object().with("x", Json::Int(-1)));
    assert!(build_field_generator(&field("f", "conditional", negative)).is_none());
    let range = Json::object()
        .with("pod_id", Json::object().with("min", Json::Uint(9)).with("max", Json::Uint(8)));
    assert!(build_field_generator(&field("f", "pattern", range)).is_none());
    let bounds = Json::object().with("min", Json::Uint(9)).with("max", Json::Uint(8));
    assert!(build_field_generator(&field("f", "distribution", bounds)).is_none());
    let s = schema(vec![field(
        "f",
        "weighted_enum",
        Json::object().with("values", Json::object().with("x", Json::Uint(0))),
    )]);
    assert!(DataGenerator::new(&s, 1, 1).is_none());
}

#[test]
fn values_of_no_weight_never_occur() {
    let config = Json::object().with(
        "values",
        Json::object().with("never", Json::Uint(0)).with("ever", number("0.25")).with(
            "also",
            Json::text("heavy"),
        ),
    );
    let s = schema(vec![field("f", "weighted_enum", config)]);
    let mut g = DataGenerator::new(&s, 7, 7).unwrap();
    let mut seen = Vec::new();
    for _ in 0..100 {
        let e = g.generate_event("now").unwrap();
        seen.push(get_field_str(&e, "f").unwrap().to_string());
    }
    assert!(!seen.contains(&"never".to_string()));
    assert!(seen.contains(&"ever".to_string()));
    assert!(seen.contains(&"also".to_string()));
}

#[test]
fn defaults_of_generators() {
    match build_field_generator(&field("f", "hex", Json::Null)) {
        Some(FieldGenerator::Hex { length }) => assert_eq!(length, 16),
        _ => panic!("no digits"),
    }
    match build_field_generator(&field("f", "pattern", Json::Null)) {
        Some(FieldGenerator::Pattern { pattern, range_min, range_max }) => {
            assert_eq!(pattern, "{service}-{id}");
            assert_eq!((range_min, range_max), (1, 20));
        }
        _ => panic!("no pattern"),
    }
    match build_field_generator(&field("f", "distribution", Json::Null)) {
        Some(FieldGenerator::Distribution { spread }) => assert_eq!(
            spread,
            Spread {
                baseline_mean: 50_000_000_000_000_000_000,
                baseline_stddev: 30_000_000_000_000_000_000,
                incident_mean: 500_000_000_000_000_000_000,
                incident_stddev: 400_000_000_000_000_000_000,
                min: 1_000_000_000_000_000_000,
                max: 30_000_000_000_000_000_000_000,
                incident_min: 1_000_000_000_000_000_000,
                incident_max: 30_000_000_000_000_000_000_000,
            }
        ),
        _ => panic!("no distribution"),
    }
    let w = extract_weighted_values(&Json::Null).unwrap();
    assert_eq!(w.values, vec!["unknown".to_string()]);
    assert!(matches!(
        build_field_generator(&field("f", "no-such", Json::Null)),
        Some(FieldGenerator::Fallback)
    ));
}

#[test]
fn conditions_are_read() {
    let (f, v) = parse_condition("level in [ERROR, FATAL]");
    assert_eq!(f, "level");
    assert_eq!(v, vec!["ERROR".to_string(), "FATAL".to_string()]);
    let (f, v) = parse_condition("nothing");
    assert_eq!(f, "");
    assert!(v.is_empty());
    let (_, v) = parse_condition("a.b in []");
    assert_eq!(v, vec!["".to_string()]);
}

#[test]
fn numbers_of_a_distribution() {
    let s = Spread {
        baseline_mean: 10_000_000_000_000_000_000,
        baseline_stddev: 4_000_000_000_000_000_000,
        incident_mean: -5_000_000_000_000_000_000,
        incident_stddev: 0,
        min: -2_500_000_000_000_000_000,
        max: 12_000_000_000_000_000_000,
        incident_min: -3_500_000_000_000_000_000,
        incident_max: -3_000_000_000_000_000_000,
    };
    assert_eq!(distributed(&s, false, 0), 10);
    assert_eq!(distributed(&s, false, u64::MAX / 2), 11);
    assert_eq!(distributed(&s, false, u64::MAX), 12);
    assert_eq!(distributed(&s, true, 0), -3);
    let wide = Spread {
        baseline_mean: -1_000_000_000_000_000_000,
        baseline_stddev: 1,
        incident_mean: 9_000_000_000_000_000_000_000_000_000_000_000_000,
        incident_stddev: 100_000_000_000_000_000_000_000_000_000_000_000,
        min: -2_000_000_000_000_000_000,
        max: 0,
        incident_min: 0,
        incident_max: 9_223_372_036_854_775_808_000_000_000_000_000_000,
    };
    // A little above -1 there is no whole part left.
    assert_eq!(distributed(&wide, false, 0), -1);
    assert_eq!(distributed(&wide, false, u64::MAX / 2), 0);
    assert_eq!(distributed(&wide, true, 0), 9_000_000_000_000_000_000);
    assert_eq!(distributed(&wide, true, u64::MAX / 2 + 1), 9_050_000_000_000_000_000);
}

#[test]
fn an_incident_has_bounds_of_its_own() {
    let part = |mean: u64, max: u64| {
        Json::object()
            .with("mean", Json::Uint(mean))
            .with("stddev", Json::Uint(0))
            .with("min", Json::Uint(1))
            .with("max", Json::Uint(max))
    };
    let config = Json::object().with("baseline", part(50, 2000)).with("incident", part(5000, 30000));
    let mut g = DataGenerator::new(&schema(vec![field("rt", "distribution", config)]), 42, 0).unwrap();
    assert_eq!(render(&g.generate_event("now").unwrap()), "{\"rt\":50}");
    g.set_incident_mode(true);
    assert_eq!(render(&g.generate_event("now").unwrap()), "{\"rt\":5000}");
}

#[test]
fn small_weights_count() {
    let tiny = Json::object()
        .with("a", Json::Number("0.0000001".to_string()))
        .with("b", Json::Number("2e-7".to_string()));
    let w = extract_weighted_values(&tiny).unwrap();
    assert_eq!(w.weights, vec![100_000_000_000, 200_000_000_000]);
    let seen: Vec<String> = (0..50)
        .map(|i| {
            let f = field("x", "weighted_enum", Json::object().with("values", tiny.copy()));
            let mut g = DataGenerator::new(&schema(vec![f]), i, 0).unwrap();
            render(&g.generate_event("now").unwrap())
        })
        .collect();
    assert!(seen.iter().any(|e| e.contains("\"a\"")) && seen.iter().any(|e| e.contains("\"b\"")));
}

#[test]
fn the_time_is_without_effect_where_no_field_tells_it() {
    let f = || field("x", "hex", Json::Null);
    let mut one = DataGenerator::new(&schema(vec![f()]), 7, 1).unwrap();
    let mut other = DataGenerator::new(&schema(vec![f()]), 7, 1).unwrap();
    for i in 0..6 {
        one.set_incident_mode(i % 2 == 0);
        other.set_incident_mode(i % 2 == 0);
        let a = one.generate_event("noon").unwrap();
        assert_eq!(render(&a), render(&other.generate_event("midnight").unwrap()));
    }
}

#[test]
fn texts_become_numbers_where_they_are_ones() {
    assert!(matches!(enum_value("404"), Json::Int(404)));
    assert!(matches!(enum_value("-7"), Json::Int(-7)));
    assert!(matches!(enum_value("4.5"), Json::Text(_)));
    assert!(matches!(enum_value("9223372036854775808"), Json::Text(_)));
    assert_eq!(pattern_text("{service}/{pod_id}/{pod_id}", "a", 4), "a/4/4");
}

#[test]
fn placeholders_are_filled() {
    let event = Json::object().with("n", Json::Int(-3)).with(
        "o",
        Json::object().with("k", Json::text("q\"\n")),
    );
    assert_eq!(replacement_for("client_id", &event, 12), "client-12");
    assert_eq!(replacement_for("retry_count", &event, 3), "3");
    assert_eq!(replacement_for("method", &event, 0), "processRequest");
    assert_eq!(replacement_for("args_summary", &event, 0), "...");
    assert_eq!(replacement_for("n", &event, 0), "-3");
    assert_eq!(replacement_for("o", &event, 0), "{\"k\":\"q\\\"\\n\"}");
    assert_eq!(replacement_for("missing", &event, 0), "missing");
    let mut rng = StdRng::seed_from_u64(1);
    assert_eq!(substitute_template("a {n} b {method} {open", &event, &mut rng), "a -3 b processRequest {open");
    let drawn = substitute_template("{pool_pct}", &event, &mut rng);
    let n: u32 = drawn.parse().unwrap();
    assert!((80..99).contains(&n));
}

#[test]
fn long_templates_are_filled() {
    let event = Json::object().with("x", Json::text("y"));
    let mut rng = StdRng::seed_from_u64(1);
    let filled = substitute_template(&"{x}".repeat(200), &event, &mut rng);
    assert_eq!(filled, "y".repeat(200));
}

#[test]
fn fields_by_path() {
    let e = set_nested_field(Json::object(), "a.b.c", Json::Uint(1)).unwrap();
    let e = set_nested_field(e, "a.d", Json::Uint(2)).unwrap();
    assert_eq!(render(&e), "{\"a\":{\"b\":{\"c\":1},\"d\":2}}");
    assert!(matches!(get_field_value(&e, "a.b.c"), Some(Json::Uint(1))));
    assert!(get_field_value(&e, "a.b.x").is_none());
    // Members stand in the order of their names, whenever they were set.
    let e = set_nested_field(e, "a.c", Json::Uint(3)).unwrap();
    let e = set_nested_field(e, "Z", Json::Uint(4)).unwrap();
    let e = set_nested_field(e, "a.d", Json::Uint(5)).unwrap();
    assert_eq!(render(&e), "{\"Z\":4,\"a\":{\"b\":{\"c\":1},\"c\":3,\"d\":5}}");
    let mut rng = StdRng::seed_from_u64(1);
    // What is filled in is filled in turn: the braces of an object go.
    let filled = substitute_template("{a}", &e, &mut rng);
    assert_eq!(filled, "\"b\":\"c\":1,\"c\":3,\"d\":5");
    assert!(set_nested_field(e, "a.d.e", Json::Null).is_none());
}

#[test]
fn expressions_multiply() {
    let e = Json::object().with("ms", Json::Int(15)).with("t", Json::text("x")).with(
        "f",
        number("2.5"),
    );
    assert_eq!(evaluate_expression("ms * 1000000", &e), Some(15_000_000));
    assert_eq!(evaluate_expression("ms * 0.5", &e), Some(7));
    assert_eq!(evaluate_expression("ms * -0.5", &e), Some(-7));
    assert_eq!(evaluate_expression("f * 2", &e), Some(5));
    assert_eq!(evaluate_expression("t * 2", &e), None);
    assert_eq!(evaluate_expression("ms * x", &e), None);
    assert_eq!(evaluate_expression("ms", &e), None);
    // The product is exact, however long the numbers are.
    let e = e.with("big", Json::Uint(10_000_000_000)).with("tiny", number("2.5e-300"));
    assert_eq!(evaluate_expression("big * 0.0000000003", &e), Some(3));
    assert_eq!(evaluate_expression("big * 0.00000000029999999999999999999999999", &e), Some(2));
    assert_eq!(evaluate_expression("tiny * 1e301", &e), Some(25));
    assert_eq!(evaluate_expression("tiny * -1e301", &e), Some(-25));
    assert_eq!(evaluate_expression("ms * 1e30", &e), Some(i64::MAX));
    assert_eq!(evaluate_expression("ms * -1e30", &e), Some(i64::MIN));
    assert_eq!(evaluate_expression("ms * 0e30", &e), Some(0));
    assert_eq!(evaluate_expression("ms * -Infinity", &e), Some(i64::MIN));
    assert_eq!(evaluate_expression("ms * inf", &e), Some(i64::MAX));
    assert_eq!(evaluate_expression("ms * NaN", &e), Some(0));
    assert_eq!(evaluate_expression("t * inf", &e), None);
    assert_eq!(evaluate_expression("big * 922337203.6854775807", &e), Some(i64::MAX));
    assert_eq!(evaluate_expression("big * 922337203.6854775806", &e), Some(i64::MAX - 1));
}

#[test]
fn distributions_are_read_to_eighteen_decimals() {
    let config = Json::object()
        .with("mean", number("1.5e-7"))
        .with("stddev", number("0.123456789012345678"))
        .with("min", number("-2.25"))
        .with("max", Json::Uint(3));
    match build_field_generator(&field("f", "distribution", config)) {
        Some(FieldGenerator::Distribution { spread }) => {
            assert_eq!(spread.baseline_mean, 150_000_000_000);
            assert_eq!(spread.baseline_stddev, 123_456_789_012_345_678);
            assert_eq!(spread.min, -2_250_000_000_000_000_000);
            assert_eq!(spread.max, 3_000_000_000_000_000_000);
        }
        _ => panic!("no distribution"),
    }
}

#[test]
fn seeds_are_sip_hashes() {
    let mut h = SipHasher13::new();
    42u64.hash(&mut h);
    3u32.hash(&mut h);
    assert_eq!(derive_worker_seed(42, 3), h.finish());
    let mut q = SipHasher13::new();
    42u64.hash(&mut q);
    "pod-ä".hash(&mut q);
    42u64.hash(&mut q);
    assert_eq!(query_seed(42, "pod-ä"), q.finish());
    let mut s = SipHasher13::new();
    42u64.hash(&mut s);
    "query-pod".to_string().hash(&mut s);
    99u64.hash(&mut s);
    assert_eq!(session_seed(42, "query-pod"), s.finish());
}

#[test]
fn names_give_indexes() {
    let mut h = DefaultHasher::new();
    "pod-1".hash(&mut h);
    assert_eq!(run_seed("pod-1"), h.finish());
    assert_eq!(worker_index("pod-1") as u64, h.finish() % 10000);
    assert_eq!(hex_of(&vec![0, 15, 255, 16]), "000fff10");
}
