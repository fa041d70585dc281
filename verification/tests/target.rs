use incidentbench::adapter::{stream_configs, unique_warehouses, QueryResult, WarehouseConfig};
use incidentbench::dsl::{
    build_aggregation_query, build_mappings, build_query_body, build_search_query,
    parse_query_clause, parse_aggregation, parse_single_agg, substitute_variables,
};
use incidentbench::events::render;
use incidentbench::execution::{record, Outcome, QueryPlan, SqlText};
use incidentbench::json::Json;
use incidentbench::mach5::{create_adapter, Mach5Adapter, PrepareStep, Reply};
use incidentbench::scenario::{
    DataGeneratorConfig, DataStream, FieldDef, FieldType, QueryDef, Schema,
};

fn adapter(namespace: Option<&str>) -> Mach5Adapter {
    let mut c = Json::object().with("endpoint", Json::text("http://m5"));
    if let Some(n) = namespace {
        c = c.with("namespace", Json::text(n));
    }
    match create_adapter("mach5", &c) {
        Ok(a) => a,
        Err(e) => panic!("{}", e),
    }
}

fn field(name: &str, field_type: FieldType) -> FieldDef {
    FieldDef {
        name: name.to_string(),
        field_type,
        generator: "now".to_string(),
        config: Json::Null,
    }
}

fn streams() -> Option<Vec<DataStream>> {
    Some(vec![DataStream {
        name: "logs".to_string(),
        schema: Schema {
            index_name: "logs-idx".to_string(),
            timestamp_field: "@timestamp".to_string(),
            fields: vec![field("@timestamp", FieldType::Timestamp), field("http.status", FieldType::Int)],
        },
        data_generator: DataGeneratorConfig {
            generator_type: "template".to_string(),
            config: Json::Null,
        },
        kafka_partitions: None,
        ingest_replicas: 1,
        ingest: vec![],
    }])
}

fn query(kind: &str, template: &str) -> QueryDef {
    QueryDef {
        name: "q".to_string(),
        query_type: kind.to_string(),
        weight_ppb: None,
        template: template.to_string(),
        index: "logs-idx".to_string(),
        sort: None,
        limit: None,
        timeout_ms: 1000,
        sql: None,
        sql_file: None,
        category: None,
        description: String::new(),
        variables: vec![],
    }
}

fn warehouse(name: &str) -> WarehouseConfig {
    WarehouseConfig { name: name.to_string(), num_mediators: 1, num_os: 2 }
}

fn fine() -> Reply {
    Reply { code: 200, status: "200 OK".to_string(), body: String::new() }
}

#[test]
fn adapters_are_configured() {
    assert_eq!(adapter(None).namespace, "default");
    assert_eq!(adapter(Some("ns")).namespace_url(), "http://m5/apis/namespaces/ns");
    assert_eq!(adapter(None).name(), "mach5");
    match create_adapter("elastic", &Json::object()) {
        Ok(_) => panic!("no such adapter"),
        Err(e) => assert_eq!(e, "Unknown adapter: elastic"),
    }
    match create_adapter("mach5", &Json::object()) {
        Ok(_) => panic!("no endpoint"),
        Err(e) => assert_eq!(e, "Mach5 adapter requires 'endpoint' in config"),
    }
}

#[test]
fn preparing_makes_everything_that_cleaning_removes() {
    let a = adapter(Some("ns"));
    let configs = stream_configs(&streams());
    let houses = vec![warehouse("w"), warehouse("w"), warehouse("v")];
    assert_eq!(unique_warehouses(&houses).len(), 2);
    let mut p = a.prepare(&configs, "kafka:9092", &houses);
    let mut made: Vec<String> = Vec::new();
    let mut polled = 0;
    loop {
        match p.step() {
            PrepareStep::Put(i) => {
                let replies: Vec<Reply> = p.batches[i].iter().map(|_| fine()).collect();
                for r in &p.batches[i] {
                    made.push(r.url.clone());
                }
                assert!(p.after_puts(&replies).is_ok());
            }
            PrepareStep::Poll(_) => {
                polled += 1;
                let body = Json::object().with(
                    "status",
                    Json::object().with("state", Json::text("Running")),
                );
                let _ = p.after_poll(Some(&body));
                if polled > 100 {
                    break;
                }
            }
            PrepareStep::Done => break,
        }
    }
    let removed: Vec<String> = a.cleanup(&configs, &houses).concat();
    for url in &made {
        assert!(removed.contains(url), "{} is left", url);
    }
    assert_eq!(p.result.consumer_groups[0].0, "logs");
    assert_eq!(p.result.consumer_groups[0].1, "logs-idx-cg");
    assert_eq!(p.result.query_endpoints.len(), 2);
}

#[test]
fn a_refusal_stops_the_preparation() {
    let a = adapter(Some("ns"));
    let mut p = a.prepare(&stream_configs(&streams()), "kafka:9092", &vec![warehouse("w")]);
    let n = p.batches[0].len();
    let mut replies: Vec<Reply> = (0..n).map(|_| fine()).collect();
    replies[0] = Reply {
        code: 500,
        status: "500 Internal Server Error".to_string(),
        body: "no".to_string(),
    };
    match p.after_puts(&replies) {
        Ok(()) => panic!("refused"),
        Err(e) => assert!(e.ends_with(" (500 Internal Server Error): no"), "{}", e),
    }
}

#[test]
fn what_is_there_already_counts_as_made_and_what_is_gone_as_removed() {
    let there = Reply { code: 409, status: "409 Conflict".to_string(), body: String::new() };
    assert!(there.created());
    let said = Reply { code: 500, status: String::new(), body: "AlreadyExists".to_string() };
    assert!(said.created());
    let gone = Reply { code: 404, status: String::new(), body: String::new() };
    assert!(gone.deleted());
    assert!(!gone.created());
    let broken = Reply { code: 500, status: String::new(), body: String::new() };
    assert!(!broken.deleted());
}

#[test]
fn the_default_namespace_is_spared() {
    let a = adapter(None);
    let removed = a.cleanup(&stream_configs(&streams()), &vec![warehouse("w")]).concat();
    assert!(!removed.contains(&a.namespace_url()));
    let b = adapter(Some("ns"));
    let removed = b.cleanup(&stream_configs(&streams()), &vec![warehouse("w")]).concat();
    assert!(removed.contains(&b.namespace_url()));
}

#[test]
fn templates_become_searches() {
    let vars = vec![("id".to_string(), "42".to_string())];
    assert_eq!(substitute_variables("trace:{{id}} {{id}} {{x}}", &vars), "trace:42 42 {{x}}");
    assert_eq!(render(&parse_query_clause("level:ERROR")), "{\"term\":{\"level\":\"ERROR\"}}");
    assert_eq!(render(&parse_query_clause("ms:>100")), "{\"range\":{\"ms\":{\"gt\":100}}}");
    assert_eq!(render(&parse_query_clause("m:*x*")), "{\"wildcard\":{\"m\":\"*x*\"}}");
    assert_eq!(
        render(&parse_query_clause("free text")),
        "{\"query_string\":{\"query\":\"free text\"}}"
    );
    let mut q = query("search", "a:1 AND b:2");
    q.sort = Some("@timestamp:desc".to_string());
    q.limit = Some(50);
    assert_eq!(
        render(&build_search_query("a:1 AND b:2", &q)),
        "{\"query\":{\"bool\":{\"must\":[{\"term\":{\"a\":\"1\"}},{\"term\":{\"b\":\"2\"}}]}},\
         \"sort\":[{\"@timestamp\":\"desc\"}],\"size\":50}"
    );
    assert_eq!(
        render(&parse_single_agg("terms(service)")),
        "{\"agg_result\":{\"terms\":{\"field\":\"service\"}}}"
    );
    assert_eq!(
        render(&parse_aggregation("terms(service) > terms(level)")),
        "{\"agg_result\":{\"terms\":{\"field\":\"service\"},\"aggs\":{\"agg_result\":\
         {\"terms\":{\"field\":\"level\"}}}}}"
    );
    assert_eq!(
        render(&parse_aggregation("date_histogram(@timestamp) > terms(a) > terms(b)")),
        "{\"timeline\":{\"date_histogram\":{\"field\":\"@timestamp\",\"fixed_interval\":\"1m\"},\
         \"aggs\":{\"agg_result\":{\"terms\":{\"field\":\"a\"},\"aggs\":{\"agg_result\":\
         {\"terms\":{\"field\":\"b\"}}}}}}}"
    );
    let body = build_aggregation_query("filter: level:ERROR\naggregate: date_histogram(@timestamp, interval=5m)");
    assert_eq!(
        render(&body),
        "{\"size\":0,\"query\":{\"term\":{\"level\":\"ERROR\"}},\"aggs\":{\"agg_result\":\
         {\"date_histogram\":{\"field\":\"@timestamp\",\"fixed_interval\":\"5m\"}}}}"
    );
    assert_eq!(
        render(&build_query_body(&query("search", "x:{{id}}"), &vars)),
        "{\"query\":{\"term\":{\"x\":\"42\"}}}"
    );
}

#[test]
fn schemas_become_mappings() {
    assert_eq!(
        render(&build_mappings(&streams().unwrap()[0].schema.fields)),
        "{\"properties\":{\"@timestamp\":{\"type\":\"date\"},\"http\":{\"properties\":\
         {\"status\":{\"type\":\"integer\"}}}}}"
    );
}

#[test]
fn queries_are_planned() {
    let a = adapter(Some("ns"));
    match a.plan_query(&query("search", "a:1"), "idx", "http://q", &vec![]) {
        Ok(QueryPlan::Search(p)) => {
            assert_eq!(p.url, "http://q/idx/_search");
            assert_eq!(p.timeout_ms, 1000);
        }
        _ => panic!("no search"),
    }
    match a.plan_query(&query("sql", ""), "", "", &vec![]) {
        Err(e) => assert_eq!(
            e,
            "SQL query requires pg_host/pg_user/pg_password/pg_dbname in adapter config"
        ),
        Ok(_) => panic!("no gateway"),
    }
    let c = Json::object()
        .with("endpoint", Json::text("http://m5"))
        .with("pg_host", Json::text("h"))
        .with("pg_user", Json::text("u"))
        .with("pg_password", Json::text("p"))
        .with("pg_dbname", Json::text("d"));
    let with_pg = match create_adapter("mach5", &c) {
        Ok(a) => a,
        Err(e) => panic!("{}", e),
    };
    let mut q = query("sql", "");
    q.sql_file = Some("dir/top.sql".to_string());
    match with_pg.plan_query(&q, "", "", &vec![]) {
        Ok(QueryPlan::Sql(p)) => {
            assert!(p.connection.starts_with("host=h port="));
            match p.sql {
                SqlText::File(f) => assert_eq!(f, "/queries/dir_top.sql"),
                SqlText::Given(_) => panic!("no file"),
            }
        }
        _ => panic!("no statement"),
    }
}

#[test]
fn outcomes_are_recorded() {
    let found = Json::object().with(
        "hits",
        Json::object().with("total", Json::object().with("value", Json::Uint(7))),
    );
    let r = record(&Outcome::Found(found), 5);
    assert_eq!((r.hit_count, r.duration_ns), (7, 5));
    assert!(r.error.is_none());
    let r = record(&Outcome::Rows(3), 5);
    assert_eq!(r.row_count, Some(3));
    let r = record(
        &Outcome::Refused { status: "503".to_string(), body: "busy".to_string() },
        5,
    );
    assert_eq!(r.error, Some("HTTP 503: busy".to_string()));
    let r = record(&Outcome::SqlTimeout, 5);
    assert!(r.timed_out);
    let r = record(
        &Outcome::Unanswered { message: "gone".to_string(), timed_out: false },
        5,
    );
    assert_eq!(r.error, Some("Request failed: gone".to_string()));
    let blank = QueryResult::default();
    assert_eq!((blank.hit_count, blank.row_count, blank.timed_out), (0, None, false));
}
