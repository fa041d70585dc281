//! What the workers of a run are told: the same topics, addresses and rates as all the others.
use vstd::prelude::*;
use vstd::string::*;
use crate::configmaps;
use crate::configmaps::{BodyView, CommonView};
use crate::crd::{QueryGroupSpec, WorkerSpec};
use crate::deployment_laws::{member, nth};
use crate::docs;
use crate::docs::ToDoc;
use crate::json;
use crate::json::Doc;
use crate::model;
use crate::rates;
use crate::resources::IdentityView;
use crate::scenario::{
    FieldDef, FieldType, IterationMode, PhaseView, QueryCategory, QueryDef, QuerySession, QueryView,
    RateTableView, ScenarioView, Schema, SchemaView, SessionView, StreamView, WorkerPhaseRate,
    WorkerRateTable,
};

verus! {

proof fn ingest_keys()
    ensures
        "worker_index"@ != "run_seed"@,
        "worker_index"@ != "schema"@,
        "run_seed"@ != "schema"@,
        "worker_index"@ != "rate_table"@,
        "run_seed"@ != "rate_table"@,
        "schema"@ != "rate_table"@,
        "worker_index"@ != "kafka_bootstrap_servers"@,
        "run_seed"@ != "kafka_bootstrap_servers"@,
        "schema"@ != "kafka_bootstrap_servers"@,
        "rate_table"@ != "kafka_bootstrap_servers"@,
        "worker_index"@ != "kafka_topic"@,
        "run_seed"@ != "kafka_topic"@,
        "schema"@ != "kafka_topic"@,
        "rate_table"@ != "kafka_topic"@,
        "kafka_bootstrap_servers"@ != "kafka_topic"@,
        "worker_index"@ != "phase_controller_addr"@,
        "run_seed"@ != "phase_controller_addr"@,
        "schema"@ != "phase_controller_addr"@,
        "rate_table"@ != "phase_controller_addr"@,
        "kafka_bootstrap_servers"@ != "phase_controller_addr"@,
        "kafka_topic"@ != "phase_controller_addr"@,
        "worker_index"@ != "aggregator_addr"@,
        "run_seed"@ != "aggregator_addr"@,
        "schema"@ != "aggregator_addr"@,
        "rate_table"@ != "aggregator_addr"@,
        "kafka_bootstrap_servers"@ != "aggregator_addr"@,
        "kafka_topic"@ != "aggregator_addr"@,
        "phase_controller_addr"@ != "aggregator_addr"@,
{
    reveal_strlit("worker_index");
    reveal_strlit("run_seed");
    reveal_strlit("schema");
    reveal_strlit("rate_table");
    reveal_strlit("kafka_bootstrap_servers");
    reveal_strlit("kafka_topic");
    reveal_strlit("phase_controller_addr");
    reveal_strlit("aggregator_addr");
    assert("worker_index"@.len() != "run_seed"@.len());
    assert("worker_index"@.len() != "schema"@.len());
    assert("run_seed"@.len() != "schema"@.len());
    assert("worker_index"@.len() != "rate_table"@.len());
    assert("run_seed"@.len() != "rate_table"@.len());
    assert("schema"@.len() != "rate_table"@.len());
    assert("worker_index"@.len() != "kafka_bootstrap_servers"@.len());
    assert("run_seed"@.len() != "kafka_bootstrap_servers"@.len());
    assert("schema"@.len() != "kafka_bootstrap_servers"@.len());
    assert("rate_table"@.len() != "kafka_bootstrap_servers"@.len());
    assert("worker_index"@.len() != "kafka_topic"@.len());
    assert("run_seed"@.len() != "kafka_topic"@.len());
    assert("schema"@.len() != "kafka_topic"@.len());
    assert("rate_table"@.len() != "kafka_topic"@.len());
    assert("kafka_bootstrap_servers"@.len() != "kafka_topic"@.len());
    assert("worker_index"@.len() != "phase_controller_addr"@.len());
    assert("run_seed"@.len() != "phase_controller_addr"@.len());
    assert("schema"@.len() != "phase_controller_addr"@.len());
    assert("rate_table"@.len() != "phase_controller_addr"@.len());
    assert("kafka_bootstrap_servers"@.len() != "phase_controller_addr"@.len());
    assert("kafka_topic"@.len() != "phase_controller_addr"@.len());
    assert("worker_index"@.len() != "aggregator_addr"@.len());
    assert("run_seed"@.len() != "aggregator_addr"@.len());
    assert("schema"@.len() != "aggregator_addr"@.len());
    assert("rate_table"@.len() != "aggregator_addr"@.len());
    assert("kafka_bootstrap_servers"@.len() != "aggregator_addr"@.len());
    assert("kafka_topic"@.len() != "aggregator_addr"@.len());
    assert("phase_controller_addr"@.len() != "aggregator_addr"@.len());
}

proof fn worker_keys()
    ensures
        "worker_index"@ != "run_seed"@,
        "worker_index"@ != "query_mix"@,
        "run_seed"@ != "query_mix"@,
        "worker_index"@ != "phase_mixes"@,
        "run_seed"@ != "phase_mixes"@,
        "query_mix"@ != "phase_mixes"@,
        "worker_index"@ != "rate_table"@,
        "run_seed"@ != "rate_table"@,
        "query_mix"@ != "rate_table"@,
        "phase_mixes"@ != "rate_table"@,
        "worker_index"@ != "query_endpoint"@,
        "run_seed"@ != "query_endpoint"@,
        "query_mix"@ != "query_endpoint"@,
        "phase_mixes"@ != "query_endpoint"@,
        "rate_table"@ != "query_endpoint"@,
        "worker_index"@ != "query_group"@,
        "run_seed"@ != "query_group"@,
        "query_mix"@ != "query_group"@,
        "phase_mixes"@ != "query_group"@,
        "rate_table"@ != "query_group"@,
        "query_endpoint"@ != "query_group"@,
        "worker_index"@ != "target_adapter"@,
        "run_seed"@ != "target_adapter"@,
        "query_mix"@ != "target_adapter"@,
        "phase_mixes"@ != "target_adapter"@,
        "rate_table"@ != "target_adapter"@,
        "query_endpoint"@ != "target_adapter"@,
        "query_group"@ != "target_adapter"@,
        "worker_index"@ != "target_config"@,
        "run_seed"@ != "target_config"@,
        "query_mix"@ != "target_config"@,
        "phase_mixes"@ != "target_config"@,
        "rate_table"@ != "target_config"@,
        "query_endpoint"@ != "target_config"@,
        "query_group"@ != "target_config"@,
        "target_adapter"@ != "target_config"@,
        "worker_index"@ != "phase_controller_addr"@,
        "run_seed"@ != "phase_controller_addr"@,
        "query_mix"@ != "phase_controller_addr"@,
        "phase_mixes"@ != "phase_controller_addr"@,
        "rate_table"@ != "phase_controller_addr"@,
        "query_endpoint"@ != "phase_controller_addr"@,
        "query_group"@ != "phase_controller_addr"@,
        "target_adapter"@ != "phase_controller_addr"@,
        "target_config"@ != "phase_controller_addr"@,
        "worker_index"@ != "aggregator_addr"@,
        "run_seed"@ != "aggregator_addr"@,
        "query_mix"@ != "aggregator_addr"@,
        "phase_mixes"@ != "aggregator_addr"@,
        "rate_table"@ != "aggregator_addr"@,
        "query_endpoint"@ != "aggregator_addr"@,
        "query_group"@ != "aggregator_addr"@,
        "target_adapter"@ != "aggregator_addr"@,
        "target_config"@ != "aggregator_addr"@,
        "phase_controller_addr"@ != "aggregator_addr"@,
        "worker_index"@ != "query_session"@,
        "run_seed"@ != "query_session"@,
        "query_mix"@ != "query_session"@,
        "phase_mixes"@ != "query_session"@,
        "rate_table"@ != "query_session"@,
        "query_endpoint"@ != "query_session"@,
        "query_group"@ != "query_session"@,
        "target_adapter"@ != "query_session"@,
        "target_config"@ != "query_session"@,
        "phase_controller_addr"@ != "query_session"@,
        "aggregator_addr"@ != "query_session"@,
        "worker_index"@ != "default_timeout_ms"@,
        "run_seed"@ != "default_timeout_ms"@,
        "query_mix"@ != "default_timeout_ms"@,
        "phase_mixes"@ != "default_timeout_ms"@,
        "rate_table"@ != "default_timeout_ms"@,
        "query_endpoint"@ != "default_timeout_ms"@,
        "query_group"@ != "default_timeout_ms"@,
        "target_adapter"@ != "default_timeout_ms"@,
        "target_config"@ != "default_timeout_ms"@,
        "phase_controller_addr"@ != "default_timeout_ms"@,
        "aggregator_addr"@ != "default_timeout_ms"@,
        "query_session"@ != "default_timeout_ms"@,
{
    reveal_strlit("worker_index");
    reveal_strlit("run_seed");
    reveal_strlit("query_mix");
    reveal_strlit("phase_mixes");
    reveal_strlit("rate_table");
    reveal_strlit("query_endpoint");
    reveal_strlit("query_group");
    reveal_strlit("target_adapter");
    reveal_strlit("target_config");
    reveal_strlit("phase_controller_addr");
    reveal_strlit("aggregator_addr");
    reveal_strlit("query_session");
    reveal_strlit("default_timeout_ms");
    assert("worker_index"@.len() != "run_seed"@.len());
    assert("worker_index"@.len() != "query_mix"@.len());
    assert("run_seed"@.len() != "query_mix"@.len());
    assert("worker_index"@.len() != "phase_mixes"@.len());
    assert("run_seed"@.len() != "phase_mixes"@.len());
    assert("query_mix"@.len() != "phase_mixes"@.len());
    assert("worker_index"@.len() != "rate_table"@.len());
    assert("run_seed"@.len() != "rate_table"@.len());
    assert("query_mix"@.len() != "rate_table"@.len());
    assert("phase_mixes"@.len() != "rate_table"@.len());
    assert("worker_index"@.len() != "query_endpoint"@.len());
    assert("run_seed"@.len() != "query_endpoint"@.len());
    assert("query_mix"@.len() != "query_endpoint"@.len());
    assert("phase_mixes"@.len() != "query_endpoint"@.len());
    assert("rate_table"@.len() != "query_endpoint"@.len());
    assert("worker_index"@.len() != "query_group"@.len());
    assert("run_seed"@.len() != "query_group"@.len());
    assert("query_mix"@.len() != "query_group"@.len());
    assert("phase_mixes"@[0] != "query_group"@[0]);
    assert("rate_table"@.len() != "query_group"@.len());
    assert("query_endpoint"@.len() != "query_group"@.len());
    assert("worker_index"@.len() != "target_adapter"@.len());
    assert("run_seed"@.len() != "target_adapter"@.len());
    assert("query_mix"@.len() != "target_adapter"@.len());
    assert("phase_mixes"@.len() != "target_adapter"@.len());
    assert("rate_table"@.len() != "target_adapter"@.len());
    assert("query_endpoint"@[0] != "target_adapter"@[0]);
    assert("query_group"@.len() != "target_adapter"@.len());
    assert("worker_index"@.len() != "target_config"@.len());
    assert("run_seed"@.len() != "target_config"@.len());
    assert("query_mix"@.len() != "target_config"@.len());
    assert("phase_mixes"@.len() != "target_config"@.len());
    assert("rate_table"@.len() != "target_config"@.len());
    assert("query_endpoint"@.len() != "target_config"@.len());
    assert("query_group"@.len() != "target_config"@.len());
    assert("target_adapter"@.len() != "target_config"@.len());
    assert("worker_index"@.len() != "phase_controller_addr"@.len());
    assert("run_seed"@.len() != "phase_controller_addr"@.len());
    assert("query_mix"@.len() != "phase_controller_addr"@.len());
    assert("phase_mixes"@.len() != "phase_controller_addr"@.len());
    assert("rate_table"@.len() != "phase_controller_addr"@.len());
    assert("query_endpoint"@.len() != "phase_controller_addr"@.len());
    assert("query_group"@.len() != "phase_controller_addr"@.len());
    assert("target_adapter"@.len() != "phase_controller_addr"@.len());
    assert("target_config"@.len() != "phase_controller_addr"@.len());
    assert("worker_index"@.len() != "aggregator_addr"@.len());
    assert("run_seed"@.len() != "aggregator_addr"@.len());
    assert("query_mix"@.len() != "aggregator_addr"@.len());
    assert("phase_mixes"@.len() != "aggregator_addr"@.len());
    assert("rate_table"@.len() != "aggregator_addr"@.len());
    assert("query_endpoint"@.len() != "aggregator_addr"@.len());
    assert("query_group"@.len() != "aggregator_addr"@.len());
    assert("target_adapter"@.len() != "aggregator_addr"@.len());
    assert("target_config"@.len() != "aggregator_addr"@.len());
    assert("phase_controller_addr"@.len() != "aggregator_addr"@.len());
    assert("worker_index"@.len() != "query_session"@.len());
    assert("run_seed"@.len() != "query_session"@.len());
    assert("query_mix"@.len() != "query_session"@.len());
    assert("phase_mixes"@.len() != "query_session"@.len());
    assert("rate_table"@.len() != "query_session"@.len());
    assert("query_endpoint"@.len() != "query_session"@.len());
    assert("query_group"@.len() != "query_session"@.len());
    assert("target_adapter"@.len() != "query_session"@.len());
    assert("target_config"@[0] != "query_session"@[0]);
    assert("phase_controller_addr"@.len() != "query_session"@.len());
    assert("aggregator_addr"@.len() != "query_session"@.len());
    assert("worker_index"@.len() != "default_timeout_ms"@.len());
    assert("run_seed"@.len() != "default_timeout_ms"@.len());
    assert("query_mix"@.len() != "default_timeout_ms"@.len());
    assert("phase_mixes"@.len() != "default_timeout_ms"@.len());
    assert("rate_table"@.len() != "default_timeout_ms"@.len());
    assert("query_endpoint"@.len() != "default_timeout_ms"@.len());
    assert("query_group"@.len() != "default_timeout_ms"@.len());
    assert("target_adapter"@.len() != "default_timeout_ms"@.len());
    assert("target_config"@.len() != "default_timeout_ms"@.len());
    assert("phase_controller_addr"@.len() != "default_timeout_ms"@.len());
    assert("aggregator_addr"@.len() != "default_timeout_ms"@.len());
    assert("query_session"@.len() != "default_timeout_ms"@.len());
}

proof fn controller_keys()
    ensures
        "expected_ingest_workers"@ != "expected_query_workers"@,
        "expected_ingest_workers"@ != "phases"@,
        "expected_query_workers"@ != "phases"@,
        "name"@ != "duration_seconds"@,
        "name"@ != "per_worker_ingest_eps"@,
        "duration_seconds"@ != "per_worker_ingest_eps"@,
        "name"@ != "per_worker_query_mqps"@,
        "duration_seconds"@ != "per_worker_query_mqps"@,
        "per_worker_ingest_eps"@ != "per_worker_query_mqps"@,
{
    reveal_strlit("expected_ingest_workers");
    reveal_strlit("expected_query_workers");
    reveal_strlit("phases");
    reveal_strlit("name");
    reveal_strlit("duration_seconds");
    reveal_strlit("per_worker_ingest_eps");
    reveal_strlit("per_worker_query_mqps");
    assert("expected_ingest_workers"@.len() != "expected_query_workers"@.len());
    assert("expected_ingest_workers"@.len() != "phases"@.len());
    assert("expected_query_workers"@.len() != "phases"@.len());
    assert("name"@.len() != "duration_seconds"@.len());
    assert("name"@.len() != "per_worker_ingest_eps"@.len());
    assert("duration_seconds"@.len() != "per_worker_ingest_eps"@.len());
    assert("name"@.len() != "per_worker_query_mqps"@.len());
    assert("duration_seconds"@.len() != "per_worker_query_mqps"@.len());
    assert("per_worker_ingest_eps"@[11] != "per_worker_query_mqps"@[11]);
}

proof fn aggregator_keys()
    ensures
        "kafka_bootstrap_servers"@ != "streams"@,
        "kafka_bootstrap_servers"@ != "results_path"@,
        "streams"@ != "results_path"@,
        "name"@ != "kafka_topic"@,
        "name"@ != "consumer_group"@,
        "kafka_topic"@ != "consumer_group"@,
{
    reveal_strlit("kafka_bootstrap_servers");
    reveal_strlit("streams");
    reveal_strlit("results_path");
    reveal_strlit("name");
    reveal_strlit("kafka_topic");
    reveal_strlit("consumer_group");
    assert("kafka_bootstrap_servers"@.len() != "streams"@.len());
    assert("kafka_bootstrap_servers"@.len() != "results_path"@.len());
    assert("streams"@.len() != "results_path"@.len());
    assert("name"@.len() != "kafka_topic"@.len());
    assert("name"@.len() != "consumer_group"@.len());
    assert("kafka_topic"@.len() != "consumer_group"@.len());
}

proof fn schema_keys()
    ensures
        "index_name"@ != "timestamp_field"@,
        "index_name"@ != "fields"@,
        "timestamp_field"@ != "fields"@,
        "name"@ != "type"@,
        "name"@ != "generator"@,
        "type"@ != "generator"@,
        "name"@ != "config"@,
        "type"@ != "config"@,
        "generator"@ != "config"@,
{
    reveal_strlit("index_name");
    reveal_strlit("timestamp_field");
    reveal_strlit("fields");
    reveal_strlit("name");
    reveal_strlit("type");
    reveal_strlit("generator");
    reveal_strlit("config");
    assert("index_name"@.len() != "timestamp_field"@.len());
    assert("index_name"@.len() != "fields"@.len());
    assert("timestamp_field"@.len() != "fields"@.len());
    assert("name"@[0] != "type"@[0]);
    assert("name"@.len() != "generator"@.len());
    assert("type"@.len() != "generator"@.len());
    assert("name"@.len() != "config"@.len());
    assert("type"@.len() != "config"@.len());
    assert("generator"@.len() != "config"@.len());
}

proof fn rate_keys()
    ensures
        "worker_index"@ != "total_workers"@,
        "worker_index"@ != "phases"@,
        "total_workers"@ != "phases"@,
        "phase_name"@ != "duration_seconds"@,
        "phase_name"@ != "ingest_eps"@,
        "duration_seconds"@ != "ingest_eps"@,
        "phase_name"@ != "query_mqps"@,
        "duration_seconds"@ != "query_mqps"@,
        "ingest_eps"@ != "query_mqps"@,
{
    reveal_strlit("worker_index");
    reveal_strlit("total_workers");
    reveal_strlit("phases");
    reveal_strlit("phase_name");
    reveal_strlit("duration_seconds");
    reveal_strlit("ingest_eps");
    reveal_strlit("query_mqps");
    assert("worker_index"@.len() != "total_workers"@.len());
    assert("worker_index"@.len() != "phases"@.len());
    assert("total_workers"@.len() != "phases"@.len());
    assert("phase_name"@.len() != "duration_seconds"@.len());
    assert("phase_name"@[0] != "ingest_eps"@[0]);
    assert("duration_seconds"@.len() != "ingest_eps"@.len());
    assert("phase_name"@[0] != "query_mqps"@[0]);
    assert("duration_seconds"@.len() != "query_mqps"@.len());
    assert("ingest_eps"@[0] != "query_mqps"@[0]);
}

proof fn query_keys()
    ensures
        "name"@ != "type"@,
        "name"@ != "weight"@,
        "type"@ != "weight"@,
        "name"@ != "template"@,
        "type"@ != "template"@,
        "weight"@ != "template"@,
        "name"@ != "index"@,
        "type"@ != "index"@,
        "weight"@ != "index"@,
        "template"@ != "index"@,
        "name"@ != "sort"@,
        "type"@ != "sort"@,
        "weight"@ != "sort"@,
        "template"@ != "sort"@,
        "index"@ != "sort"@,
        "name"@ != "limit"@,
        "type"@ != "limit"@,
        "weight"@ != "limit"@,
        "template"@ != "limit"@,
        "index"@ != "limit"@,
        "sort"@ != "limit"@,
        "name"@ != "timeout_ms"@,
        "type"@ != "timeout_ms"@,
        "weight"@ != "timeout_ms"@,
        "template"@ != "timeout_ms"@,
        "index"@ != "timeout_ms"@,
        "sort"@ != "timeout_ms"@,
        "limit"@ != "timeout_ms"@,
        "name"@ != "sql"@,
        "type"@ != "sql"@,
        "weight"@ != "sql"@,
        "template"@ != "sql"@,
        "index"@ != "sql"@,
        "sort"@ != "sql"@,
        "limit"@ != "sql"@,
        "timeout_ms"@ != "sql"@,
        "name"@ != "sql_file"@,
        "type"@ != "sql_file"@,
        "weight"@ != "sql_file"@,
        "template"@ != "sql_file"@,
        "index"@ != "sql_file"@,
        "sort"@ != "sql_file"@,
        "limit"@ != "sql_file"@,
        "timeout_ms"@ != "sql_file"@,
        "sql"@ != "sql_file"@,
        "name"@ != "category"@,
        "type"@ != "category"@,
        "weight"@ != "category"@,
        "template"@ != "category"@,
        "index"@ != "category"@,
        "sort"@ != "category"@,
        "limit"@ != "category"@,
        "timeout_ms"@ != "category"@,
        "sql"@ != "category"@,
        "sql_file"@ != "category"@,
        "name"@ != "description"@,
        "type"@ != "description"@,
        "weight"@ != "description"@,
        "template"@ != "description"@,
        "index"@ != "description"@,
        "sort"@ != "description"@,
        "limit"@ != "description"@,
        "timeout_ms"@ != "description"@,
        "sql"@ != "description"@,
        "sql_file"@ != "description"@,
        "category"@ != "description"@,
        "name"@ != "variables"@,
        "type"@ != "variables"@,
        "weight"@ != "variables"@,
        "template"@ != "variables"@,
        "index"@ != "variables"@,
        "sort"@ != "variables"@,
        "limit"@ != "variables"@,
        "timeout_ms"@ != "variables"@,
        "sql"@ != "variables"@,
        "sql_file"@ != "variables"@,
        "category"@ != "variables"@,
        "description"@ != "variables"@,
{
    reveal_strlit("name");
    reveal_strlit("type");
    reveal_strlit("weight");
    reveal_strlit("template");
    reveal_strlit("index");
    reveal_strlit("sort");
    reveal_strlit("limit");
    reveal_strlit("timeout_ms");
    reveal_strlit("sql");
    reveal_strlit("sql_file");
    reveal_strlit("category");
    reveal_strlit("description");
    reveal_strlit("variables");
    assert("name"@[0] != "type"@[0]);
    assert("name"@.len() != "weight"@.len());
    assert("type"@.len() != "weight"@.len());
    assert("name"@.len() != "template"@.len());
    assert("type"@.len() != "template"@.len());
    assert("weight"@.len() != "template"@.len());
    assert("name"@.len() != "index"@.len());
    assert("type"@.len() != "index"@.len());
    assert("weight"@.len() != "index"@.len());
    assert("template"@.len() != "index"@.len());
    assert("name"@[0] != "sort"@[0]);
    assert("type"@[0] != "sort"@[0]);
    assert("weight"@.len() != "sort"@.len());
    assert("template"@.len() != "sort"@.len());
    assert("index"@.len() != "sort"@.len());
    assert("name"@.len() != "limit"@.len());
    assert("type"@.len() != "limit"@.len());
    assert("weight"@.len() != "limit"@.len());
    assert("template"@.len() != "limit"@.len());
    assert("index"@[0] != "limit"@[0]);
    assert("sort"@.len() != "limit"@.len());
    assert("name"@.len() != "timeout_ms"@.len());
    assert("type"@.len() != "timeout_ms"@.len());
    assert("weight"@.len() != "timeout_ms"@.len());
    assert("template"@.len() != "timeout_ms"@.len());
    assert("index"@.len() != "timeout_ms"@.len());
    assert("sort"@.len() != "timeout_ms"@.len());
    assert("limit"@.len() != "timeout_ms"@.len());
    assert("name"@.len() != "sql"@.len());
    assert("type"@.len() != "sql"@.len());
    assert("weight"@.len() != "sql"@.len());
    assert("template"@.len() != "sql"@.len());
    assert("index"@.len() != "sql"@.len());
    assert("sort"@.len() != "sql"@.len());
    assert("limit"@.len() != "sql"@.len());
    assert("timeout_ms"@.len() != "sql"@.len());
    assert("name"@.len() != "sql_file"@.len());
    assert("type"@.len() != "sql_file"@.len());
    assert("weight"@.len() != "sql_file"@.len());
    assert("template"@[0] != "sql_file"@[0]);
    assert("index"@.len() != "sql_file"@.len());
    assert("sort"@.len() != "sql_file"@.len());
    assert("limit"@.len() != "sql_file"@.len());
    assert("timeout_ms"@.len() != "sql_file"@.len());
    assert("sql"@.len() != "sql_file"@.len());
    assert("name"@.len() != "category"@.len());
    assert("type"@.len() != "category"@.len());
    assert("weight"@.len() != "category"@.len());
    assert("template"@[0] != "category"@[0]);
    assert("index"@.len() != "category"@.len());
    assert("sort"@.len() != "category"@.len());
    assert("limit"@.len() != "category"@.len());
    assert("timeout_ms"@.len() != "category"@.len());
    assert("sql"@.len() != "category"@.len());
    assert("sql_file"@[0] != "category"@[0]);
    assert("name"@.len() != "description"@.len());
    assert("type"@.len() != "description"@.len());
    assert("weight"@.len() != "description"@.len());
    assert("template"@.len() != "description"@.len());
    assert("index"@.len() != "description"@.len());
    assert("sort"@.len() != "description"@.len());
    assert("limit"@.len() != "description"@.len());
    assert("timeout_ms"@.len() != "description"@.len());
    assert("sql"@.len() != "description"@.len());
    assert("sql_file"@.len() != "description"@.len());
    assert("category"@.len() != "description"@.len());
    assert("name"@.len() != "variables"@.len());
    assert("type"@.len() != "variables"@.len());
    assert("weight"@.len() != "variables"@.len());
    assert("template"@.len() != "variables"@.len());
    assert("index"@.len() != "variables"@.len());
    assert("sort"@.len() != "variables"@.len());
    assert("limit"@.len() != "variables"@.len());
    assert("timeout_ms"@.len() != "variables"@.len());
    assert("sql"@.len() != "variables"@.len());
    assert("sql_file"@.len() != "variables"@.len());
    assert("category"@.len() != "variables"@.len());
    assert("description"@.len() != "variables"@.len());
}

proof fn session_keys()
    ensures
        "categories"@ != "think_time_ms"@,
        "name"@ != "queries"@,
        "name"@ != "iteration"@,
        "queries"@ != "iteration"@,
        "name"@ != "parallelism"@,
        "queries"@ != "parallelism"@,
        "iteration"@ != "parallelism"@,
{
    reveal_strlit("categories");
    reveal_strlit("think_time_ms");
    reveal_strlit("name");
    reveal_strlit("queries");
    reveal_strlit("iteration");
    reveal_strlit("parallelism");
    assert("categories"@.len() != "think_time_ms"@.len());
    assert("name"@.len() != "queries"@.len());
    assert("name"@.len() != "iteration"@.len());
    assert("queries"@.len() != "iteration"@.len());
    assert("name"@.len() != "parallelism"@.len());
    assert("queries"@.len() != "parallelism"@.len());
    assert("iteration"@.len() != "parallelism"@.len());
}

// ---------------------------------------------------------------------------
// Documents
// ---------------------------------------------------------------------------

/// The document tells a table of rates: for each phase its name, how long it takes, and what
/// the worker does in it.
pub open spec fn tells_rates(d: Doc, t: RateTableView) -> bool {
    &&& member(d, "worker_index"@) == Doc::Uint(t.worker_index as nat)
    &&& member(d, "total_workers"@) == Doc::Uint(t.total_workers)
    &&& member(d, "phases"@) matches Doc::Array(v) && v.len() == t.phases.len()
    &&& forall|i: int|
        0 <= i < t.phases.len() ==> {
            let p = nth(member(d, "phases"@), i);
            let r = #[trigger] t.phases[i];
            &&& member(p, "phase_name"@) == Doc::Text(r.phase_name)
            &&& member(p, "duration_seconds"@) == Doc::Uint(r.duration_seconds as nat)
            &&& member(p, "ingest_eps"@) == Doc::Uint(r.ingest_eps)
            &&& member(p, "query_mqps"@) == Doc::Uint(r.query_mqps)
        }
}

proof fn rates_are_told(t: RateTableView)
    ensures
        tells_rates(WorkerRateTable::doc_of(t), t),
{
    broadcast use json::with_then_get;

    rate_keys();
    let d = WorkerRateTable::doc_of(t);
    assert forall|i: int| 0 <= i < t.phases.len() implies {
        let p = nth(member(d, "phases"@), i);
        let r = #[trigger] t.phases[i];
        &&& member(p, "phase_name"@) == Doc::Text(r.phase_name)
        &&& member(p, "duration_seconds"@) == Doc::Uint(r.duration_seconds as nat)
        &&& member(p, "ingest_eps"@) == Doc::Uint(r.ingest_eps)
        &&& member(p, "query_mqps"@) == Doc::Uint(r.query_mqps)
    } by {
        assert(nth(member(d, "phases"@), i) == WorkerPhaseRate::doc_of(t.phases[i]));
    }
}

/// The document tells a schema: the index, and each field with its type and how it is made.
pub open spec fn tells_schema(d: Doc, s: SchemaView) -> bool {
    &&& member(d, "index_name"@) == Doc::Text(s.index_name)
    &&& member(d, "timestamp_field"@) == Doc::Text(s.timestamp_field)
    &&& member(d, "fields"@) matches Doc::Array(v) && v.len() == s.fields.len()
    &&& forall|i: int|
        0 <= i < s.fields.len() ==> {
            let f = nth(member(d, "fields"@), i);
            let x = #[trigger] s.fields[i];
            &&& member(f, "name"@) == Doc::Text(x.name)
            &&& member(f, "generator"@) == Doc::Text(x.generator)
            &&& member(f, "config"@) == x.config
            &&& member(f, "type"@) == Doc::Text(
                match x.field_type {
                    FieldType::Timestamp => "timestamp"@,
                    FieldType::Keyword => "keyword"@,
                    FieldType::Text => "text"@,
                    FieldType::Int => "int"@,
                    FieldType::Long => "long"@,
                    FieldType::Float => "float"@,
                    FieldType::Ip => "ip"@,
                },
            )
        }
}

proof fn schemas_are_told(s: SchemaView)
    ensures
        tells_schema(Schema::doc_of(s), s),
{
    broadcast use json::with_then_get;

    schema_keys();
    let d = Schema::doc_of(s);
    assert forall|i: int| 0 <= i < s.fields.len() implies {
        let f = nth(member(d, "fields"@), i);
        let x = #[trigger] s.fields[i];
        &&& member(f, "name"@) == Doc::Text(x.name)
        &&& member(f, "generator"@) == Doc::Text(x.generator)
        &&& member(f, "config"@) == x.config
        &&& member(f, "type"@) == Doc::Text(x.field_type.type_label())
    } by {
        assert(nth(member(d, "fields"@), i) == FieldDef::doc_of(s.fields[i]));
    }
}

/// The document tells a query.
pub open spec fn tells_query(d: Doc, q: QueryView) -> bool {
    &&& member(d, "name"@) == Doc::Text(q.name)
    &&& member(d, "type"@) == Doc::Text(q.query_type)
    &&& member(d, "template"@) == Doc::Text(q.template)
    &&& member(d, "index"@) == Doc::Text(q.index)
    &&& member(d, "timeout_ms"@) == Doc::Uint(q.timeout_ms as nat)
    &&& member(d, "sort"@) == match q.sort {
        Some(t) => Doc::Text(t),
        None => Doc::Null,
    }
    &&& member(d, "sql"@) == match q.sql {
        Some(t) => Doc::Text(t),
        None => Doc::Null,
    }
    &&& member(d, "sql_file"@) == match q.sql_file {
        Some(t) => Doc::Text(t),
        None => Doc::Null,
    }
    &&& member(d, "category"@) == match q.category {
        Some(t) => Doc::Text(t),
        None => Doc::Null,
    }
    &&& member(d, "limit"@) == match q.limit {
        Some(n) => Doc::Uint(n as nat),
        None => Doc::Null,
    }
}

proof fn queries_are_told(q: QueryView)
    ensures
        tells_query(QueryDef::doc_of(q), q),
{
    broadcast use json::with_then_get;

    query_keys();
}

/// The document tells some queries, in order.
pub open spec fn tells_queries(d: Doc, all: Seq<QueryView>) -> bool {
    &&& d matches Doc::Array(v) && v.len() == all.len()
    &&& forall|i: int| 0 <= i < all.len() ==> tells_query(nth(d, i), #[trigger] all[i])
}

proof fn lists_are_told(all: Seq<QueryView>)
    ensures
        tells_queries(docs::list_doc::<QueryDef>(all), all),
{
    let d = docs::list_doc::<QueryDef>(all);
    assert forall|i: int| 0 <= i < all.len() implies tells_query(nth(d, i), #[trigger] all[i]) by {
        queries_are_told(all[i]);
        assert(nth(d, i) == QueryDef::doc_of(all[i]));
    }
}

/// The document tells a session: its categories with their queries and in which order, and the
/// time to think.
pub open spec fn tells_session(d: Doc, s: SessionView) -> bool {
    &&& member(d, "think_time_ms"@) == Doc::Uint(s.think_time_ms as nat)
    &&& member(d, "categories"@) matches Doc::Array(v) && v.len() == s.categories.len()
    &&& forall|i: int|
        0 <= i < s.categories.len() ==> {
            let c = nth(member(d, "categories"@), i);
            let x = #[trigger] s.categories[i];
            &&& member(c, "name"@) == Doc::Text(x.name)
            &&& member(c, "parallelism"@) == Doc::Uint(x.parallelism as nat)
            &&& member(c, "iteration"@) == Doc::Text(
                match x.iteration {
                    IterationMode::Sequential => "sequential"@,
                    IterationMode::WeightedRandom => "weighted_random"@,
                },
            )
            &&& tells_queries(member(c, "queries"@), x.queries)
        }
}

/// A session is told as it is.
pub proof fn sessions_are_told(s: SessionView)
    ensures
        tells_session(docs::opt_session_doc(Some(s)), s),
{
    broadcast use json::with_then_get;

    session_keys();
    let d = QuerySession::doc_of(s);
    assert forall|i: int| 0 <= i < s.categories.len() implies {
        let c = nth(member(d, "categories"@), i);
        let x = #[trigger] s.categories[i];
        &&& member(c, "name"@) == Doc::Text(x.name)
        &&& member(c, "parallelism"@) == Doc::Uint(x.parallelism as nat)
        &&& member(c, "iteration"@) == Doc::Text(x.iteration.mode_name())
        &&& tells_queries(member(c, "queries"@), x.queries)
    } by {
        assert(nth(member(d, "categories"@), i) == QueryCategory::doc_of(s.categories[i]));
        lists_are_told(s.categories[i].queries);
    }
}

// ---------------------------------------------------------------------------
// Workers
// ---------------------------------------------------------------------------

/// Ingest workers are told the run's seed, their stream's schema and rates, the topic of the
/// stream's index, and where to reach Kafka, the phase controller and the aggregator.
pub proof fn ingest_workers_are_told(c: CommonView, s: StreamView, phases: Seq<PhaseView>)
    ensures
        ({
            let d = configmaps::ingest_doc(c, s, phases);
            &&& member(d, "run_seed"@) == Doc::Uint(c.run_seed as nat)
            &&& tells_schema(member(d, "schema"@), s.schema)
            &&& tells_rates(member(d, "rate_table"@), rates::ingest_table(phases, s, 0))
            &&& member(d, "kafka_topic"@) == Doc::Text(s.schema.index_name)
            &&& member(d, "kafka_bootstrap_servers"@) == Doc::Text(c.kafka)
            &&& member(d, "phase_controller_addr"@) == Doc::Text(c.phase_controller)
            &&& member(d, "aggregator_addr"@) == Doc::Text(c.aggregator)
        }),
{
    broadcast use json::with_then_get;

    ingest_keys();
    schemas_are_told(s.schema);
    rates_are_told(rates::ingest_table(phases, s, 0));
}

/// Query workers are told the run's seed, their queries and rates, where to ask them, and where
/// to reach the phase controller and the aggregator.
pub proof fn query_workers_are_told(
    c: CommonView,
    mix: Seq<QueryView>,
    own: Option<Seq<(Seq<char>, i64)>>,
    phases: Seq<PhaseView>,
    part: int,
    workers: int,
    endpoint: Seq<char>,
    group: Seq<char>,
)
    ensures
        ({
            let d = configmaps::query_doc(c, mix, own, phases, part, workers, endpoint, group);
            &&& member(d, "run_seed"@) == Doc::Uint(c.run_seed as nat)
            &&& tells_queries(member(member(d, "query_mix"@), "queries"@), mix)
            &&& tells_rates(
                member(d, "rate_table"@),
                rates::query_table(phases, part, workers, 0),
            )
            &&& member(d, "query_endpoint"@) == Doc::Text(endpoint)
            &&& member(d, "query_group"@) == Doc::Text(group)
            &&& member(d, "target_adapter"@) == Doc::Text(c.adapter)
            &&& member(d, "target_config"@) == c.target_config
            &&& member(d, "phase_controller_addr"@) == Doc::Text(c.phase_controller)
            &&& member(d, "aggregator_addr"@) == Doc::Text(c.aggregator)
            &&& member(d, "query_session"@) == c.session
            &&& member(d, "default_timeout_ms"@) == Doc::Uint(c.default_timeout_ms as nat)
        }),
{
    broadcast use json::with_then_get;

    worker_keys();
    lists_are_told(mix);
    rates_are_told(rates::query_table(phases, part, workers, 0));
}

/// The query workers of a group are told the group's queries, its part of the rate, shared
/// among its workers, and the endpoint of its warehouse.
pub proof fn groups_are_told_their_own(
    c: CommonView,
    s: ScenarioView,
    g: QueryGroupSpec,
    endpoints: Seq<(Seq<char>, Seq<char>)>,
    k: int,
)
    requires
        s.groups matches Some(groups) && 0 <= k < groups.len() && groups[k].name == g.name@ && (
        forall|j: int| 0 <= j < k ==> (#[trigger] groups[j]).name != g.name@),
    ensures
        ({
            let d = configmaps::group_doc(c, s, g, endpoints);
            let known = s.groups->0[k];
            &&& tells_queries(
                member(member(d, "query_mix"@), "queries"@),
                rates::group_queries(s.queries, known),
            )
            &&& tells_rates(
                member(d, "rate_table"@),
                rates::query_table(s.phases, known.weight_ppb as int, g.replicas as int, 0),
            )
            &&& member(d, "query_group"@) == Doc::Text(g.name@)
            &&& model::find(endpoints, g.warehouse.name@) matches Some(e) ==> member(
                d,
                "query_endpoint"@,
            ) == Doc::Text(e)
            &&& member(d, "run_seed"@) == Doc::Uint(c.run_seed as nat)
            &&& member(d, "aggregator_addr"@) == Doc::Text(c.aggregator)
            &&& member(d, "phase_controller_addr"@) == Doc::Text(c.phase_controller)
        }),
{
    let groups = s.groups->0;
    let known = groups[k];
    group_is_known(groups, g.name@, k, 0);
    query_workers_are_told(
        c,
        rates::group_queries(s.queries, known),
        known.mix_override,
        s.phases,
        known.weight_ppb as int,
        g.replicas as int,
        configmaps::warehouse_endpoint(endpoints, g.warehouse.name@),
        g.name@,
    );
}

proof fn group_is_known(groups: Seq<crate::scenario::GroupView>, name: Seq<char>, k: int, i: int)
    requires
        0 <= i <= k < groups.len(),
        groups[k].name == name,
        forall|j: int| 0 <= j < k ==> (#[trigger] groups[j]).name != name,
    ensures
        configmaps::group_named(groups, name, i) == Some(groups[k]),
    decreases k - i,
{
    if i < k {
        assert(groups[i].name != name);
        group_is_known(groups, name, k, i + 1);
    }
}

/// The phase controller is told the phases by name and duration, in order, and of the rate of
/// each what one query worker does.
pub proof fn the_controller_is_told_the_phases(
    phases: Seq<PhaseView>,
    ingest: int,
    query: int,
    i: int,
)
    requires
        0 <= i < phases.len(),
        0 <= ingest,
        1 <= query,
        phases[i].target_pqps < 0x1_0000_0000_0000_0000 * 1_000_000_000,
    ensures
        ({
            let d = configmaps::phase_controller_doc(phases, ingest, query);
            let p = nth(member(d, "phases"@), i);
            &&& member(d, "expected_ingest_workers"@) == Doc::Uint(ingest as nat)
            &&& member(d, "expected_query_workers"@) == Doc::Uint(query as nat)
            &&& member(d, "phases"@) matches Doc::Array(v) && v.len() == phases.len()
            &&& member(p, "name"@) == Doc::Text(phases[i].name)
            &&& member(p, "duration_seconds"@) == Doc::Uint(phases[i].duration_seconds as nat)
            &&& member(p, "per_worker_query_mqps"@) matches Doc::Uint(each) && each * query
                * 1_000_000_000 <= phases[i].target_pqps < (each + 1) * query * 1_000_000_000
        }),
{
    broadcast use json::with_then_get;

    controller_keys();
    let d = configmaps::phase_controller_doc(phases, ingest, query);
    assert(nth(member(d, "phases"@), i) == configmaps::controller_phase_doc(phases[i], query));
    let t = phases[i].target_pqps as int;
    assert(t * 1_000_000_000 / 1_000_000_000 == t);
    let m = rates::part_mqps(t, 1_000_000_000);
    assert(m == t / 1_000_000_000);
    let each = m / query;
    vstd::arithmetic::div_mod::lemma_fundamental_div_mod(m, query);
    assert(each >= 0 && each * query <= m < (each + 1) * query) by (nonlinear_arith)
        requires
            m == query * each + m % query,
            0 <= m % query < query,
            m >= 0,
            query >= 1,
    ;
    let whole = each * query;
    let next = (each + 1) * query;
    assert(whole * 1_000_000_000 <= t < next * 1_000_000_000);
}

/// The aggregator is told to watch, for each stream, the topic to which its ingest workers
/// write, and the consumer group that was prepared for it.
pub proof fn the_aggregator_watches_what_is_written(
    c: CommonView,
    streams: Seq<StreamView>,
    phases: Seq<PhaseView>,
    groups: Seq<(Seq<char>, Seq<char>)>,
    i: int,
)
    requires
        0 <= i < streams.len(),
    ensures
        ({
            let d = configmaps::aggregator_doc(c.kafka, streams, groups);
            let s = nth(member(d, "streams"@), i);
            let writer = configmaps::ingest_doc(c, streams[i], phases);
            &&& member(d, "kafka_bootstrap_servers"@) == member(
                writer,
                "kafka_bootstrap_servers"@,
            )
            &&& member(d, "streams"@) matches Doc::Array(v) && v.len() == streams.len()
            &&& member(s, "name"@) == Doc::Text(streams[i].name)
            &&& member(s, "kafka_topic"@) == member(writer, "kafka_topic"@)
            &&& model::find(groups, streams[i].name) matches Some(g) ==> member(
                s,
                "consumer_group"@,
            ) == Doc::Text(g)
            &&& model::find(groups, streams[i].name) is None ==> member(s, "consumer_group"@)
                == Doc::Text(streams[i].schema.index_name + "-cg"@)
            &&& member(d, "results_path"@) == Doc::Text("/results"@)
        }),
{
    broadcast use json::with_then_get;

    aggregator_keys();
    ingest_keys();
    let d = configmaps::aggregator_doc(c.kafka, streams, groups);
    assert(nth(member(d, "streams"@), i) == configmaps::aggregator_stream_doc(streams[i], groups));
}

/// All parts of a run have their ConfigMap, under the name and with the entry that their
/// deployment looks for.
pub proof fn every_part_has_its_config_map(
    c: CommonView,
    s: ScenarioView,
    workers: WorkerSpec,
    consumer_groups: Seq<(Seq<char>, Seq<char>)>,
    endpoints: Seq<(Seq<char>, Seq<char>)>,
    run: IdentityView,
    i: int,
    j: int,
)
    requires
        0 <= i < s.stream_list().len(),
        workers.query_groups matches Some(groups) ==> 0 <= j < groups@.len(),
    ensures
        ({
            let maps = configmaps::worker_maps(c, s, workers, consumer_groups, endpoints, run);
            let n = s.stream_list().len() as int;
            &&& maps[0].name == c.run_name + "-scenario"@
            &&& maps[0].data == seq![("scenario.yaml"@, BodyView::Scenario)]
            &&& maps[1].name == c.run_name + "-phase-controller"@
            &&& maps[1].data[0].0 == "phase-controller.yaml"@
            &&& maps[2].name == c.run_name + "-aggregator"@
            &&& maps[2].data[0].0 == "aggregator.yaml"@
            &&& maps[3 + i] == configmaps::ingest_map(c, s.stream_list()[i], s.phases, run)
            &&& maps[3 + i].data[0].1 == BodyView::Yaml(
                configmaps::ingest_doc(c, s.stream_list()[i], s.phases),
            )
            &&& maps[3 + n].name == c.run_name + "-query"@
            &&& maps[3 + n].data[0].0 == "query.yaml"@
            &&& workers.query_groups matches Some(groups) ==> maps[4 + n + j]
                == configmaps::group_map(c, s, groups@[j], endpoints, run)
        }),
{
    reveal_strlit("-");
    reveal_strlit("scenario");
    reveal_strlit("-scenario");
    reveal_strlit("phase-controller");
    reveal_strlit("-phase-controller");
    reveal_strlit("aggregator");
    reveal_strlit("-aggregator");
    reveal_strlit("query");
    reveal_strlit("-query");
    let r = c.run_name;
    assert(r + "-"@ + "scenario"@ =~= r + "-scenario"@);
    assert(r + "-"@ + "phase-controller"@ =~= r + "-phase-controller"@);
    assert(r + "-"@ + "aggregator"@ =~= r + "-aggregator"@);
    assert(r + "-"@ + "query"@ =~= r + "-query"@);
}

/// A session made of the queries' categories holds every query in the category of its name, in
/// which the queries keep their order.
pub proof fn categories_hold_their_queries(queries: Seq<QueryView>, k: int, q: QueryView)
    requires
        0 <= k < configmaps::grouped_session(queries).categories.len(),
    ensures
        ({
            let c = configmaps::grouped_session(queries).categories[k];
            &&& forall|i: int|
                0 <= i < c.queries.len() ==> queries.contains(#[trigger] c.queries[i])
                    && configmaps::category_of(c.queries[i]) == c.name
            &&& c.parallelism == 1
            &&& c.iteration is Sequential
        }),
{
    let c = configmaps::grouped_session(queries).categories[k];
    all_kept(queries, |x: QueryView| configmaps::category_of(x) == c.name);
}

proof fn all_kept(s: Seq<QueryView>, f: spec_fn(QueryView) -> bool)
    ensures
        forall|i: int|
            0 <= i < s.filter(f).len() ==> s.contains(#[trigger] s.filter(f)[i]) && f(
                s.filter(f)[i],
            ),
    decreases s.len(),
{
    reveal(Seq::filter);
    if s.len() > 0 {
        let front = s.drop_last();
        all_kept(front, f);
        let all = s.filter(f);
        let before = front.filter(f);
        assert forall|i: int| 0 <= i < all.len() implies s.contains(#[trigger] all[i]) && f(
            all[i],
        ) by {
            if i < before.len() {
                assert(all[i] == before[i]);
                assert(front.contains(before[i]));
                let k = choose|k: int| 0 <= k < front.len() && front[k] == before[i];
                assert(s[k] == before[i]);
            } else {
                assert(all[i] == s.last());
                assert(s[s.len() - 1] == s.last());
            }
        }
    }
}

} // verus!
