//! What stands at the edges of documents: how pods find themselves, what a report says of the
//! run around it, and what the platform is given to work with.
use vstd::prelude::*;
use vstd::string::*;
use vstd::utf8::encode_utf8;
use crate::adapter::{StreamConfigView, WarehouseView};
use crate::configmaps;
use crate::configmaps::CommonView;
use crate::deployment_laws::{container, member, nth, pod, volume};
use crate::docs;
use crate::docs::ToDoc;
use crate::json;
use crate::json::Doc;
use crate::json_report;
use crate::json_report::{ReportContext, ReportTables};
use crate::lifecycle;
use crate::mach5;
use crate::mach5::AdapterView;
use crate::metrics;
use crate::metrics::{
    DerivedMetrics, Measure, PerQueryTimeSeries, PerQueryTimeSeriesPoint, PointView,
    QueryPointView, Scorecard,
};
use crate::mix;
use crate::mix::PhaseMix;
use crate::model;
use crate::resources;
use crate::resources::IdentityView;
use crate::scenario::{PhaseView, QueryDef, QueryView, ScenarioView};
use crate::seeds;

verus! {

/// Four texts.
type Four = (Seq<char>, Seq<char>, Seq<char>, Seq<char>);

/// The text is none of the four.
spec fn is_none_of(k: Seq<char>, g: Four) -> bool {
    k != g.0 && k != g.1 && k != g.2 && k != g.3
}

/// No two of the four are the same.
spec fn differ(g: Four) -> bool {
    is_none_of(g.0, (g.1, g.2, g.3, g.1)) && is_none_of(g.1, (g.2, g.3, g.2, g.3)) && g.2 != g.3
}

/// None of the one four is among the other.
spec fn differ_from(g: Four, h: Four) -> bool {
    is_none_of(g.0, h) && is_none_of(g.1, h) && is_none_of(g.2, h) && is_none_of(g.3, h)
}

proof fn pod_keys()
    ensures
        differ(("apiVersion"@, "kind"@, "metadata"@, "spec"@)),
        differ(("name"@, "namespace"@, "ownerReferences"@, "labels"@)),
        "replicas"@ != "selector"@,
        "replicas"@ != "template"@,
        "selector"@ != "template"@,
        "backoffLimit"@ != "ttlSecondsAfterFinished"@,
        "backoffLimit"@ != "template"@,
        "ttlSecondsAfterFinished"@ != "template"@,
        "restartPolicy"@ != "containers"@,
        "restartPolicy"@ != "volumes"@,
        "containers"@ != "volumes"@,
        "containers"@ != "initContainers"@,
        "initContainers"@ != "volumes"@,
        differ(("name"@, "image"@, "imagePullPolicy"@, "command"@)),
        differ(("env"@, "ports"@, "livenessProbe"@, "readinessProbe"@)),
        differ_from(
            ("name"@, "image"@, "imagePullPolicy"@, "command"@),
            ("env"@, "ports"@, "livenessProbe"@, "readinessProbe"@),
        ),
        is_none_of("volumeMounts"@, ("name"@, "image"@, "imagePullPolicy"@, "command"@)),
        is_none_of("volumeMounts"@, ("env"@, "ports"@, "livenessProbe"@, "readinessProbe"@)),
        is_none_of("resources"@, ("name"@, "image"@, "imagePullPolicy"@, "command"@)),
        is_none_of("resources"@, ("env"@, "ports"@, "livenessProbe"@, "readinessProbe"@)),
        "volumeMounts"@ != "resources"@,
        "name"@ != "valueFrom"@,
        "name"@ != "mountPath"@,
        "name"@ != "configMap"@,
        "name"@ != "persistentVolumeClaim"@,
        "httpGet"@ != "initialDelaySeconds"@,
        "httpGet"@ != "periodSeconds"@,
        "initialDelaySeconds"@ != "periodSeconds"@,
        "accessModes"@ != "resources"@,
{
    reveal_strlit("apiVersion");
    assert("apiVersion"@.len() == 10);
    reveal_strlit("kind");
    assert("kind"@.len() == 4);
    reveal_strlit("metadata");
    assert("metadata"@.len() == 8);
    reveal_strlit("spec");
    assert("spec"@.len() == 4);
    reveal_strlit("name");
    assert("name"@.len() == 4);
    reveal_strlit("namespace");
    assert("namespace"@.len() == 9);
    reveal_strlit("ownerReferences");
    assert("ownerReferences"@.len() == 15);
    reveal_strlit("labels");
    assert("labels"@.len() == 6);
    reveal_strlit("replicas");
    assert("replicas"@.len() == 8);
    reveal_strlit("selector");
    assert("selector"@.len() == 8);
    reveal_strlit("template");
    assert("template"@.len() == 8);
    reveal_strlit("backoffLimit");
    assert("backoffLimit"@.len() == 12);
    reveal_strlit("ttlSecondsAfterFinished");
    assert("ttlSecondsAfterFinished"@.len() == 23);
    reveal_strlit("restartPolicy");
    assert("restartPolicy"@.len() == 13);
    reveal_strlit("containers");
    assert("containers"@.len() == 10);
    reveal_strlit("volumes");
    assert("volumes"@.len() == 7);
    reveal_strlit("initContainers");
    assert("initContainers"@.len() == 14);
    reveal_strlit("image");
    assert("image"@.len() == 5);
    reveal_strlit("imagePullPolicy");
    assert("imagePullPolicy"@.len() == 15);
    reveal_strlit("command");
    assert("command"@.len() == 7);
    reveal_strlit("env");
    assert("env"@.len() == 3);
    reveal_strlit("ports");
    assert("ports"@.len() == 5);
    reveal_strlit("livenessProbe");
    assert("livenessProbe"@.len() == 13);
    reveal_strlit("readinessProbe");
    assert("readinessProbe"@.len() == 14);
    reveal_strlit("volumeMounts");
    assert("volumeMounts"@.len() == 12);
    reveal_strlit("resources");
    assert("resources"@.len() == 9);
    reveal_strlit("valueFrom");
    assert("valueFrom"@.len() == 9);
    reveal_strlit("mountPath");
    assert("mountPath"@.len() == 9);
    reveal_strlit("configMap");
    assert("configMap"@.len() == 9);
    reveal_strlit("persistentVolumeClaim");
    assert("persistentVolumeClaim"@.len() == 21);
    reveal_strlit("httpGet");
    assert("httpGet"@.len() == 7);
    reveal_strlit("initialDelaySeconds");
    assert("initialDelaySeconds"@.len() == 19);
    reveal_strlit("periodSeconds");
    assert("periodSeconds"@.len() == 13);
    reveal_strlit("accessModes");
    assert("accessModes"@.len() == 11);
    assert("kind"@[0] != "spec"@[0]);
    assert("replicas"@[0] != "selector"@[0]);
    assert("replicas"@[0] != "template"@[0]);
    assert("selector"@[0] != "template"@[0]);
    assert("image"@[0] != "ports"@[0]);
}

proof fn warehouse_keys()
    ensures
        differ(("num_mediators"@, "num_os"@, "num_replica"@, "os"@)),
        differ(("md"@, "mdx"@, "ir"@, "osd"@)),
        differ_from(
            ("num_mediators"@, "num_os"@, "num_replica"@, "os"@),
            ("md"@, "mdx"@, "ir"@, "osd"@),
        ),
        differ(("osd_enabled"@, "immutable"@, "segment_cache_capacity"@, "local_parallelism"@)),
        differ_from(
            ("num_mediators"@, "num_os"@, "num_replica"@, "os"@),
            ("osd_enabled"@, "immutable"@, "segment_cache_capacity"@, "local_parallelism"@),
        ),
        differ_from(
            ("md"@, "mdx"@, "ir"@, "osd"@),
            ("osd_enabled"@, "immutable"@, "segment_cache_capacity"@, "local_parallelism"@),
        ),
        differ(
            (
                "cache_warming_enabled"@,
                "cache_warming_query_history"@,
                "os_processors"@,
                "index_access_memory_limit"@,
            ),
        ),
        differ_from(
            ("num_mediators"@, "num_os"@, "num_replica"@, "os"@),
            (
                "cache_warming_enabled"@,
                "cache_warming_query_history"@,
                "os_processors"@,
                "index_access_memory_limit"@,
            ),
        ),
        differ_from(
            ("md"@, "mdx"@, "ir"@, "osd"@),
            (
                "cache_warming_enabled"@,
                "cache_warming_query_history"@,
                "os_processors"@,
                "index_access_memory_limit"@,
            ),
        ),
        differ_from(
            ("osd_enabled"@, "immutable"@, "segment_cache_capacity"@, "local_parallelism"@),
            (
                "cache_warming_enabled"@,
                "cache_warming_query_history"@,
                "os_processors"@,
                "index_access_memory_limit"@,
            ),
        ),
        is_none_of("read_cache_size_limit"@, ("num_mediators"@, "num_os"@, "num_replica"@, "os"@)),
        is_none_of("read_cache_size_limit"@, ("md"@, "mdx"@, "ir"@, "osd"@)),
        is_none_of(
            "read_cache_size_limit"@,
            ("osd_enabled"@, "immutable"@, "segment_cache_capacity"@, "local_parallelism"@),
        ),
        is_none_of(
            "read_cache_size_limit"@,
            (
                "cache_warming_enabled"@,
                "cache_warming_query_history"@,
                "os_processors"@,
                "index_access_memory_limit"@,
            ),
        ),
        is_none_of("inactive_mode"@, ("num_mediators"@, "num_os"@, "num_replica"@, "os"@)),
        is_none_of("inactive_mode"@, ("md"@, "mdx"@, "ir"@, "osd"@)),
        is_none_of(
            "inactive_mode"@,
            ("osd_enabled"@, "immutable"@, "segment_cache_capacity"@, "local_parallelism"@),
        ),
        is_none_of(
            "inactive_mode"@,
            (
                "cache_warming_enabled"@,
                "cache_warming_query_history"@,
                "os_processors"@,
                "index_access_memory_limit"@,
            ),
        ),
        "read_cache_size_limit"@ != "inactive_mode"@,
        "resource"@ != "enabled"@,
        "resource"@ != "memory_policy"@,
        "enabled"@ != "memory_policy"@,
        "type"@ != "idle_timeout_seconds"@,
{
    reveal_strlit("num_mediators");
    assert("num_mediators"@.len() == 13);
    reveal_strlit("num_os");
    assert("num_os"@.len() == 6);
    reveal_strlit("num_replica");
    assert("num_replica"@.len() == 11);
    reveal_strlit("os");
    assert("os"@.len() == 2);
    reveal_strlit("md");
    assert("md"@.len() == 2);
    reveal_strlit("mdx");
    assert("mdx"@.len() == 3);
    reveal_strlit("ir");
    assert("ir"@.len() == 2);
    reveal_strlit("osd");
    assert("osd"@.len() == 3);
    reveal_strlit("osd_enabled");
    assert("osd_enabled"@.len() == 11);
    reveal_strlit("immutable");
    assert("immutable"@.len() == 9);
    reveal_strlit("segment_cache_capacity");
    assert("segment_cache_capacity"@.len() == 22);
    reveal_strlit("local_parallelism");
    assert("local_parallelism"@.len() == 17);
    reveal_strlit("cache_warming_enabled");
    assert("cache_warming_enabled"@.len() == 21);
    reveal_strlit("cache_warming_query_history");
    assert("cache_warming_query_history"@.len() == 27);
    reveal_strlit("os_processors");
    assert("os_processors"@.len() == 13);
    reveal_strlit("index_access_memory_limit");
    assert("index_access_memory_limit"@.len() == 25);
    reveal_strlit("read_cache_size_limit");
    assert("read_cache_size_limit"@.len() == 21);
    reveal_strlit("inactive_mode");
    assert("inactive_mode"@.len() == 13);
    reveal_strlit("resource");
    assert("resource"@.len() == 8);
    reveal_strlit("enabled");
    assert("enabled"@.len() == 7);
    reveal_strlit("memory_policy");
    assert("memory_policy"@.len() == 13);
    reveal_strlit("type");
    assert("type"@.len() == 4);
    reveal_strlit("idle_timeout_seconds");
    assert("idle_timeout_seconds"@.len() == 20);
    assert("os"@[0] != "md"@[0]);
    assert("os"@[0] != "ir"@[0]);
    assert("md"@[0] != "ir"@[0]);
    assert("mdx"@[0] != "osd"@[0]);
    assert("num_replica"@[0] != "osd_enabled"@[0]);
    assert("num_mediators"@[0] != "os_processors"@[0]);
    assert("cache_warming_enabled"@[0] != "read_cache_size_limit"@[0]);
    assert("num_mediators"@[0] != "inactive_mode"@[0]);
    assert("os_processors"@[0] != "inactive_mode"@[0]);
}

proof fn pipeline_keys()
    ensures
        differ(("index"@, "source_config"@, "op_mode"@, "enabled"@)),
        is_none_of("poll_frequency_secs"@, ("index"@, "source_config"@, "op_mode"@, "enabled"@)),
        is_none_of(
            "max_ingest_workflows_limit"@,
            ("index"@, "source_config"@, "op_mode"@, "enabled"@),
        ),
        "poll_frequency_secs"@ != "max_ingest_workflows_limit"@,
        "settings"@ != "mappings"@,
        "settings"@ != "aliases"@,
        "mappings"@ != "aliases"@,
{
    reveal_strlit("index");
    assert("index"@.len() == 5);
    reveal_strlit("source_config");
    assert("source_config"@.len() == 13);
    reveal_strlit("op_mode");
    assert("op_mode"@.len() == 7);
    reveal_strlit("enabled");
    assert("enabled"@.len() == 7);
    reveal_strlit("poll_frequency_secs");
    assert("poll_frequency_secs"@.len() == 19);
    reveal_strlit("max_ingest_workflows_limit");
    assert("max_ingest_workflows_limit"@.len() == 26);
    reveal_strlit("settings");
    assert("settings"@.len() == 8);
    reveal_strlit("mappings");
    assert("mappings"@.len() == 8);
    reveal_strlit("aliases");
    assert("aliases"@.len() == 7);
    assert("op_mode"@[0] != "enabled"@[0]);
    assert("settings"@[0] != "mappings"@[0]);
}

proof fn query_doc_keys()
    ensures
        differ(("worker_index"@, "run_seed"@, "query_mix"@, "phase_mixes"@)),
        differ(("rate_table"@, "query_endpoint"@, "query_group"@, "target_adapter"@)),
        differ_from(
            ("worker_index"@, "run_seed"@, "query_mix"@, "phase_mixes"@),
            ("rate_table"@, "query_endpoint"@, "query_group"@, "target_adapter"@),
        ),
        differ(("target_config"@, "phase_controller_addr"@, "aggregator_addr"@, "query_session"@)),
        differ_from(
            ("worker_index"@, "run_seed"@, "query_mix"@, "phase_mixes"@),
            ("target_config"@, "phase_controller_addr"@, "aggregator_addr"@, "query_session"@),
        ),
        differ_from(
            ("rate_table"@, "query_endpoint"@, "query_group"@, "target_adapter"@),
            ("target_config"@, "phase_controller_addr"@, "aggregator_addr"@, "query_session"@),
        ),
        is_none_of(
            "default_timeout_ms"@,
            ("worker_index"@, "run_seed"@, "query_mix"@, "phase_mixes"@),
        ),
        is_none_of(
            "default_timeout_ms"@,
            ("rate_table"@, "query_endpoint"@, "query_group"@, "target_adapter"@),
        ),
        is_none_of(
            "default_timeout_ms"@,
            ("target_config"@, "phase_controller_addr"@, "aggregator_addr"@, "query_session"@),
        ),
        differ(("name"@, "duration_seconds"@, "per_worker_ingest_eps"@, "per_worker_query_mqps"@)),
{
    reveal_strlit("worker_index");
    assert("worker_index"@.len() == 12);
    reveal_strlit("run_seed");
    assert("run_seed"@.len() == 8);
    reveal_strlit("query_mix");
    assert("query_mix"@.len() == 9);
    reveal_strlit("phase_mixes");
    assert("phase_mixes"@.len() == 11);
    reveal_strlit("rate_table");
    assert("rate_table"@.len() == 10);
    reveal_strlit("query_endpoint");
    assert("query_endpoint"@.len() == 14);
    reveal_strlit("query_group");
    assert("query_group"@.len() == 11);
    reveal_strlit("target_adapter");
    assert("target_adapter"@.len() == 14);
    reveal_strlit("target_config");
    assert("target_config"@.len() == 13);
    reveal_strlit("phase_controller_addr");
    assert("phase_controller_addr"@.len() == 21);
    reveal_strlit("aggregator_addr");
    assert("aggregator_addr"@.len() == 15);
    reveal_strlit("query_session");
    assert("query_session"@.len() == 13);
    reveal_strlit("default_timeout_ms");
    assert("default_timeout_ms"@.len() == 18);
    reveal_strlit("name");
    assert("name"@.len() == 4);
    reveal_strlit("duration_seconds");
    assert("duration_seconds"@.len() == 16);
    reveal_strlit("per_worker_ingest_eps");
    assert("per_worker_ingest_eps"@.len() == 21);
    reveal_strlit("per_worker_query_mqps");
    assert("per_worker_query_mqps"@.len() == 21);
    assert("phase_mixes"@[0] != "query_group"@[0]);
    assert("query_endpoint"@[0] != "target_adapter"@[0]);
    assert("target_config"@[0] != "query_session"@[0]);
    assert("per_worker_ingest_eps"@[11] != "per_worker_query_mqps"@[11]);
}

proof fn query_keys()
    ensures
        differ(("name"@, "type"@, "weight"@, "template"@)),
        differ(("index"@, "sort"@, "limit"@, "timeout_ms"@)),
        differ_from(
            ("name"@, "type"@, "weight"@, "template"@),
            ("index"@, "sort"@, "limit"@, "timeout_ms"@),
        ),
        differ(("sql"@, "sql_file"@, "category"@, "description"@)),
        differ_from(
            ("name"@, "type"@, "weight"@, "template"@),
            ("sql"@, "sql_file"@, "category"@, "description"@),
        ),
        differ_from(
            ("index"@, "sort"@, "limit"@, "timeout_ms"@),
            ("sql"@, "sql_file"@, "category"@, "description"@),
        ),
        is_none_of("variables"@, ("name"@, "type"@, "weight"@, "template"@)),
        is_none_of("variables"@, ("index"@, "sort"@, "limit"@, "timeout_ms"@)),
        is_none_of("variables"@, ("sql"@, "sql_file"@, "category"@, "description"@)),
{
    reveal_strlit("name");
    assert("name"@.len() == 4);
    reveal_strlit("type");
    assert("type"@.len() == 4);
    reveal_strlit("weight");
    assert("weight"@.len() == 6);
    reveal_strlit("template");
    assert("template"@.len() == 8);
    reveal_strlit("index");
    assert("index"@.len() == 5);
    reveal_strlit("sort");
    assert("sort"@.len() == 4);
    reveal_strlit("limit");
    assert("limit"@.len() == 5);
    reveal_strlit("timeout_ms");
    assert("timeout_ms"@.len() == 10);
    reveal_strlit("sql");
    assert("sql"@.len() == 3);
    reveal_strlit("sql_file");
    assert("sql_file"@.len() == 8);
    reveal_strlit("category");
    assert("category"@.len() == 8);
    reveal_strlit("description");
    assert("description"@.len() == 11);
    reveal_strlit("variables");
    assert("variables"@.len() == 9);
    assert("name"@[0] != "type"@[0]);
    assert("name"@[0] != "sort"@[0]);
    assert("type"@[0] != "sort"@[0]);
    assert("index"@[0] != "limit"@[0]);
    assert("template"@[0] != "sql_file"@[0]);
    assert("template"@[0] != "category"@[0]);
    assert("sql_file"@[0] != "category"@[0]);
}

proof fn phase_keys()
    ensures
        differ(("name"@, "display_name"@, "duration_s"@, "ingest"@)),
        is_none_of("query"@, ("name"@, "display_name"@, "duration_s"@, "ingest"@)),
        is_none_of(
            "kafka_peak_consumer_lag"@,
            ("name"@, "display_name"@, "duration_s"@, "ingest"@),
        ),
        "query"@ != "kafka_peak_consumer_lag"@,
        differ(("target_qps"@, "achieved_avg_qps"@, "concurrent_sessions"@, "total_queries"@)),
        differ(("total_errors"@, "total_non_timeout_errors"@, "total_timeouts"@, "error_rate"@)),
        differ_from(
            ("target_qps"@, "achieved_avg_qps"@, "concurrent_sessions"@, "total_queries"@),
            ("total_errors"@, "total_non_timeout_errors"@, "total_timeouts"@, "error_rate"@),
        ),
        is_none_of(
            "latency_p50_ms"@,
            ("target_qps"@, "achieved_avg_qps"@, "concurrent_sessions"@, "total_queries"@),
        ),
        is_none_of(
            "latency_p50_ms"@,
            ("total_errors"@, "total_non_timeout_errors"@, "total_timeouts"@, "error_rate"@),
        ),
        is_none_of(
            "latency_p95_ms"@,
            ("target_qps"@, "achieved_avg_qps"@, "concurrent_sessions"@, "total_queries"@),
        ),
        is_none_of(
            "latency_p95_ms"@,
            ("total_errors"@, "total_non_timeout_errors"@, "total_timeouts"@, "error_rate"@),
        ),
        "latency_p50_ms"@ != "latency_p95_ms"@,
        is_none_of(
            "latency_p99_ms"@,
            ("target_qps"@, "achieved_avg_qps"@, "concurrent_sessions"@, "total_queries"@),
        ),
        is_none_of(
            "latency_p99_ms"@,
            ("total_errors"@, "total_non_timeout_errors"@, "total_timeouts"@, "error_rate"@),
        ),
        "latency_p50_ms"@ != "latency_p99_ms"@,
        "latency_p95_ms"@ != "latency_p99_ms"@,
{
    reveal_strlit("name");
    assert("name"@.len() == 4);
    reveal_strlit("display_name");
    assert("display_name"@.len() == 12);
    reveal_strlit("duration_s");
    assert("duration_s"@.len() == 10);
    reveal_strlit("ingest");
    assert("ingest"@.len() == 6);
    reveal_strlit("query");
    assert("query"@.len() == 5);
    reveal_strlit("kafka_peak_consumer_lag");
    assert("kafka_peak_consumer_lag"@.len() == 23);
    reveal_strlit("target_qps");
    assert("target_qps"@.len() == 10);
    reveal_strlit("achieved_avg_qps");
    assert("achieved_avg_qps"@.len() == 16);
    reveal_strlit("concurrent_sessions");
    assert("concurrent_sessions"@.len() == 19);
    reveal_strlit("total_queries");
    assert("total_queries"@.len() == 13);
    reveal_strlit("total_errors");
    assert("total_errors"@.len() == 12);
    reveal_strlit("total_non_timeout_errors");
    assert("total_non_timeout_errors"@.len() == 24);
    reveal_strlit("total_timeouts");
    assert("total_timeouts"@.len() == 14);
    reveal_strlit("error_rate");
    assert("error_rate"@.len() == 10);
    reveal_strlit("latency_p50_ms");
    assert("latency_p50_ms"@.len() == 14);
    reveal_strlit("latency_p95_ms");
    assert("latency_p95_ms"@.len() == 14);
    reveal_strlit("latency_p99_ms");
    assert("latency_p99_ms"@.len() == 14);
    assert("target_qps"@[0] != "error_rate"@[0]);
    assert("total_timeouts"@[0] != "latency_p50_ms"@[0]);
    assert("total_timeouts"@[0] != "latency_p95_ms"@[0]);
    assert("latency_p50_ms"@[9] != "latency_p95_ms"@[9]);
    assert("total_timeouts"@[0] != "latency_p99_ms"@[0]);
    assert("latency_p50_ms"@[9] != "latency_p99_ms"@[9]);
    assert("latency_p95_ms"@[10] != "latency_p99_ms"@[10]);
}

proof fn report_keys()
    ensures
        differ(("incidentbench_version"@, "scenario"@, "target"@, "harness"@)),
        differ(("run"@, "scorecard"@, "derived_metrics"@, "phases"@)),
        differ_from(
            ("incidentbench_version"@, "scenario"@, "target"@, "harness"@),
            ("run"@, "scorecard"@, "derived_metrics"@, "phases"@),
        ),
        differ(("timeseries"@, "query_groups"@, "timed_out_queries"@, "per_category_latency"@)),
        differ_from(
            ("incidentbench_version"@, "scenario"@, "target"@, "harness"@),
            ("timeseries"@, "query_groups"@, "timed_out_queries"@, "per_category_latency"@),
        ),
        differ_from(
            ("run"@, "scorecard"@, "derived_metrics"@, "phases"@),
            ("timeseries"@, "query_groups"@, "timed_out_queries"@, "per_category_latency"@),
        ),
        is_none_of(
            "per_query_latency"@,
            ("incidentbench_version"@, "scenario"@, "target"@, "harness"@),
        ),
        is_none_of("per_query_latency"@, ("run"@, "scorecard"@, "derived_metrics"@, "phases"@)),
        is_none_of(
            "per_query_latency"@,
            ("timeseries"@, "query_groups"@, "timed_out_queries"@, "per_category_latency"@),
        ),
        is_none_of(
            "per_query_timeseries"@,
            ("incidentbench_version"@, "scenario"@, "target"@, "harness"@),
        ),
        is_none_of("per_query_timeseries"@, ("run"@, "scorecard"@, "derived_metrics"@, "phases"@)),
        is_none_of(
            "per_query_timeseries"@,
            ("timeseries"@, "query_groups"@, "timed_out_queries"@, "per_category_latency"@),
        ),
        "per_query_latency"@ != "per_query_timeseries"@,
        differ(("name"@, "version"@, "display_name"@, "description"@)),
        is_none_of("domain"@, ("name"@, "version"@, "display_name"@, "description"@)),
        "adapter"@ != "config_hash"@,
        "workers"@ != "kafka"@,
        "workers"@ != "scaling"@,
        "kafka"@ != "scaling"@,
        "bootstrap_servers"@ != "topics"@,
        "bootstrap_servers"@ != "partitions"@,
        "topics"@ != "partitions"@,
        "ingest_replicas"@ != "query_replicas"@,
        "rate_scale"@ != "duration_scale"@,
        "query_name"@ != "points"@,
        differ(("id"@, "timestamp"@, "valid"@, "validity_violations"@)),
        is_none_of("warnings"@, ("id"@, "timestamp"@, "valid"@, "validity_violations"@)),
        is_none_of("harness_saturated"@, ("id"@, "timestamp"@, "valid"@, "validity_violations"@)),
        "warnings"@ != "harness_saturated"@,
        is_none_of("saturated_workers"@, ("id"@, "timestamp"@, "valid"@, "validity_violations"@)),
        "warnings"@ != "saturated_workers"@,
        "harness_saturated"@ != "saturated_workers"@,
{
    reveal_strlit("incidentbench_version");
    assert("incidentbench_version"@.len() == 21);
    reveal_strlit("scenario");
    assert("scenario"@.len() == 8);
    reveal_strlit("target");
    assert("target"@.len() == 6);
    reveal_strlit("harness");
    assert("harness"@.len() == 7);
    reveal_strlit("run");
    assert("run"@.len() == 3);
    reveal_strlit("scorecard");
    assert("scorecard"@.len() == 9);
    reveal_strlit("derived_metrics");
    assert("derived_metrics"@.len() == 15);
    reveal_strlit("phases");
    assert("phases"@.len() == 6);
    reveal_strlit("timeseries");
    assert("timeseries"@.len() == 10);
    reveal_strlit("query_groups");
    assert("query_groups"@.len() == 12);
    reveal_strlit("timed_out_queries");
    assert("timed_out_queries"@.len() == 17);
    reveal_strlit("per_category_latency");
    assert("per_category_latency"@.len() == 20);
    reveal_strlit("per_query_latency");
    assert("per_query_latency"@.len() == 17);
    reveal_strlit("per_query_timeseries");
    assert("per_query_timeseries"@.len() == 20);
    reveal_strlit("name");
    assert("name"@.len() == 4);
    reveal_strlit("version");
    assert("version"@.len() == 7);
    reveal_strlit("display_name");
    assert("display_name"@.len() == 12);
    reveal_strlit("description");
    assert("description"@.len() == 11);
    reveal_strlit("domain");
    assert("domain"@.len() == 6);
    reveal_strlit("adapter");
    assert("adapter"@.len() == 7);
    reveal_strlit("config_hash");
    assert("config_hash"@.len() == 11);
    reveal_strlit("workers");
    assert("workers"@.len() == 7);
    reveal_strlit("kafka");
    assert("kafka"@.len() == 5);
    reveal_strlit("scaling");
    assert("scaling"@.len() == 7);
    reveal_strlit("bootstrap_servers");
    assert("bootstrap_servers"@.len() == 17);
    reveal_strlit("topics");
    assert("topics"@.len() == 6);
    reveal_strlit("partitions");
    assert("partitions"@.len() == 10);
    reveal_strlit("ingest_replicas");
    assert("ingest_replicas"@.len() == 15);
    reveal_strlit("query_replicas");
    assert("query_replicas"@.len() == 14);
    reveal_strlit("rate_scale");
    assert("rate_scale"@.len() == 10);
    reveal_strlit("duration_scale");
    assert("duration_scale"@.len() == 14);
    reveal_strlit("query_name");
    assert("query_name"@.len() == 10);
    reveal_strlit("points");
    assert("points"@.len() == 6);
    reveal_strlit("id");
    assert("id"@.len() == 2);
    reveal_strlit("timestamp");
    assert("timestamp"@.len() == 9);
    reveal_strlit("valid");
    assert("valid"@.len() == 5);
    reveal_strlit("validity_violations");
    assert("validity_violations"@.len() == 19);
    reveal_strlit("warnings");
    assert("warnings"@.len() == 8);
    reveal_strlit("harness_saturated");
    assert("harness_saturated"@.len() == 17);
    reveal_strlit("saturated_workers");
    assert("saturated_workers"@.len() == 17);
    assert("target"@[0] != "phases"@[0]);
    assert("timed_out_queries"@[0] != "per_query_latency"@[0]);
    assert("per_category_latency"@[4] != "per_query_timeseries"@[4]);
    assert("workers"@[0] != "scaling"@[0]);
    assert("harness_saturated"@[0] != "saturated_workers"@[0]);
}

proof fn condition_keys()
    ensures
        differ(("type"@, "status"@, "message"@, "lastTransitionTime"@)),
        differ(("phase"@, "runId"@, "startTime"@, "conditions"@)),
{
    reveal_strlit("type");
    assert("type"@.len() == 4);
    reveal_strlit("status");
    assert("status"@.len() == 6);
    reveal_strlit("message");
    assert("message"@.len() == 7);
    reveal_strlit("lastTransitionTime");
    assert("lastTransitionTime"@.len() == 18);
    reveal_strlit("phase");
    assert("phase"@.len() == 5);
    reveal_strlit("runId");
    assert("runId"@.len() == 5);
    reveal_strlit("startTime");
    assert("startTime"@.len() == 9);
    reveal_strlit("conditions");
    assert("conditions"@.len() == 10);
    assert("phase"@[0] != "runId"@[0]);
}

// ---------------------------------------------------------------------------
// Pods
// ---------------------------------------------------------------------------

/// The container is told the name of its pod.
pub open spec fn knows_its_pod(d: Doc) -> bool {
    let env = nth(member(container(d), "env"@), 0);
    &&& member(env, "name"@) == Doc::Text("POD_NAME"@)
    &&& member(member(member(env, "valueFrom"@), "fieldRef"@), "fieldPath"@) == Doc::Text(
        "metadata.name"@,
    )
}

/// The container's image is taken from where it is, if it is there.
pub open spec fn keeps_its_image(d: Doc) -> bool {
    member(container(d), "imagePullPolicy"@) == Doc::Text("IfNotPresent"@)
}

/// Every worker knows its pod's name, by which it has its index and its seed, and no image is
/// fetched that is there.
pub proof fn workers_know_their_pod(
    run_name: Seq<char>,
    name: Seq<char>,
    n: u32,
    image: Seq<char>,
    needs: Doc,
    run: IdentityView,
    sql: Option<Seq<char>>,
)
    ensures
        ({
            let a = resources::ingest_deployment_doc(run_name, name, n, image, needs, run);
            let b = resources::query_deployment_doc(run_name, n, image, needs, run, sql);
            let c = resources::group_deployment_doc(run_name, name, n, image, needs, run, sql);
            let d = resources::aggregator_deployment_doc(run_name, image, run);
            let e = resources::phase_controller_deployment_doc(run_name, image, run);
            let f = resources::reporter_job_doc(run_name, image, run);
            &&& knows_its_pod(a) && knows_its_pod(b) && knows_its_pod(c)
            &&& keeps_its_image(a) && keeps_its_image(b) && keeps_its_image(c)
            &&& keeps_its_image(d) && keeps_its_image(e) && keeps_its_image(f)
        }),
{
    broadcast use json::with_then_get;

    pod_keys();
}

/// The scenario is put with the results before the aggregator starts: it is copied from the
/// volume of its ConfigMap to that of the results.
pub proof fn the_scenario_is_put_with_the_results(
    run_name: Seq<char>,
    image: Seq<char>,
    run: IdentityView,
)
    ensures
        ({
            let d = resources::aggregator_deployment_doc(run_name, image, run);
            let first = nth(member(member(pod(d), "spec"@), "initContainers"@), 0);
            let from = nth(member(first, "volumeMounts"@), 0);
            let to = nth(member(first, "volumeMounts"@), 1);
            &&& nth(member(first, "command"@), 2) == Doc::Text(
                "cp /scenario/scenario.yaml /results/scenario.yaml"@,
            )
            &&& member(from, "mountPath"@) == Doc::Text("/scenario"@)
            &&& member(from, "name"@) == member(volume(d, 2), "name"@)
            &&& member(member(volume(d, 2), "configMap"@), "name"@) == Doc::Text(
                resources::part_name(run_name, "scenario"@),
            )
            &&& member(to, "mountPath"@) == Doc::Text("/results"@)
            &&& member(to, "name"@) == member(volume(d, 1), "name"@)
        }),
{
    broadcast use json::with_then_get;

    pod_keys();
}

/// How often containers are asked whether they live and are ready, how often the reporter is
/// tried and how long its job is kept, and what is claimed for the results.
pub proof fn pods_have_their_times_and_space(
    run_name: Seq<char>,
    image: Seq<char>,
    run: IdentityView,
)
    ensures
        member(resources::liveness_doc(), "initialDelaySeconds"@) == Doc::Uint(5),
        member(resources::liveness_doc(), "periodSeconds"@) == Doc::Uint(10),
        member(resources::readiness_doc(), "initialDelaySeconds"@) == Doc::Uint(3),
        member(resources::readiness_doc(), "periodSeconds"@) == Doc::Uint(5),
        ({
            let job = member(resources::reporter_job_doc(run_name, image, run), "spec"@);
            &&& member(job, "backoffLimit"@) == Doc::Uint(2)
            &&& member(job, "ttlSecondsAfterFinished"@) == Doc::Uint(600)
            &&& member(member(member(job, "template"@), "spec"@), "restartPolicy"@) == Doc::Text(
                "OnFailure"@,
            )
        }),
        ({
            let claim = member(resources::results_pvc_doc(run_name, run), "spec"@);
            &&& member(claim, "accessModes"@) == Doc::array().item(Doc::Text("ReadWriteOnce"@))
            &&& member(member(member(claim, "resources"@), "requests"@), "storage"@) == Doc::Text(
                "1Gi"@,
            )
        }),
{
    broadcast use json::with_then_get;

    pod_keys();
}

// ---------------------------------------------------------------------------
// The platform
// ---------------------------------------------------------------------------

/// A warehouse gets two gibibytes for each of its larger parts and one for each of the smaller,
/// keeps no copies, and is switched off by hand alone.
pub proof fn warehouses_have_their_memory(w: WarehouseView)
    ensures
        ({
            let d = mach5::warehouse_body(w);
            let r = member(d, "resource"@);
            let memory = |part: Seq<char>| member(member(r, part), "memory"@);
            &&& memory("os"@) == Doc::Text("2147483648"@)
            &&& memory("md"@) == Doc::Text("2147483648"@)
            &&& memory("mdx"@) == Doc::Text("2147483648"@)
            &&& memory("ir"@) == Doc::Text("1073741824"@)
            &&& memory("osd"@) == Doc::Text("1073741824"@)
            &&& member(r, "num_replica"@) == Doc::Uint(0)
            &&& member(r, "osd_enabled"@) == Doc::Bool(true)
            &&& member(r, "immutable"@) == Doc::Bool(false)
            &&& member(r, "segment_cache_capacity"@) == Doc::Uint(1073741824)
            &&& member(r, "local_parallelism"@) == Doc::Uint(4)
            &&& member(r, "cache_warming_enabled"@) == Doc::Bool(false)
            &&& member(r, "cache_warming_query_history"@) == Doc::Uint(100)
            &&& member(r, "os_processors"@) == Doc::Uint(2)
            &&& member(r, "index_access_memory_limit"@) == Doc::Uint(536870912)
            &&& member(r, "read_cache_size_limit"@) == Doc::Uint(268435456)
            &&& member(member(r, "inactive_mode"@), "type"@) == Doc::Text("Manual"@)
            &&& member(member(r, "inactive_mode"@), "idle_timeout_seconds"@) == Doc::Uint(300)
            &&& member(d, "memory_policy"@) == Doc::Text("budgeted"@)
        }),
{
    broadcast use json::with_then_get;

    warehouse_keys();
}

/// A pipeline looks for events every five seconds, in four runs at once at most; an index has
/// no other names.
pub proof fn pipelines_have_their_pace(a: AdapterView, s: StreamConfigView)
    ensures
        member(mach5::pipeline_body(a, s), "poll_frequency_secs"@) == Doc::Uint(5),
        member(mach5::pipeline_body(a, s), "max_ingest_workflows_limit"@) == Doc::Uint(4),
        member(mach5::index_body(s.schema.fields), "aliases"@) == Doc::object(),
{
    broadcast use json::with_then_get;

    pipeline_keys();
}

// ---------------------------------------------------------------------------
// What workers are told
// ---------------------------------------------------------------------------

/// Query workers are told the mix of every phase, in order; the phase controller, that ingest
/// workers have their rates of themselves.
pub proof fn mixes_and_rates_are_told(
    c: CommonView,
    queries: Seq<QueryView>,
    own: Option<Seq<(Seq<char>, i64)>>,
    phases: Seq<PhaseView>,
    part: int,
    workers: int,
    endpoint: Seq<char>,
    group: Seq<char>,
    i: int,
)
    requires
        0 <= i < phases.len(),
    ensures
        ({
            let d = configmaps::query_doc(c, queries, own, phases, part, workers, endpoint, group);
            let all = member(d, "phase_mixes"@);
            &&& all is Array && all->Array_0.len() == phases.len()
            &&& nth(all, i) == PhaseMix::doc_of(mix::mixes(own, phases)[i])
            &&& mix::mixes(own, phases)[i].phase_name == phases[i].name
            &&& own is Some ==> mix::mixes(own, phases)[i].weights == own
            &&& own is None ==> mix::mixes(own, phases)[i].weights == phases[i].mix_override
            &&& member(
                configmaps::controller_phase_doc(phases[i], workers),
                "per_worker_ingest_eps"@,
            ) == Doc::Uint(0)
        }),
{
    broadcast use json::with_then_get;

    query_doc_keys();
}

/// A query is told with its weight, where it has one, its description, and its variables, each
/// by its name and with its source.
pub proof fn variables_are_told(q: QueryView, i: int)
    requires
        0 <= i < q.variables.len(),
    ensures
        ({
            let d = QueryDef::doc_of(q);
            let v = member(d, "variables"@);
            &&& q.weight_ppb is Some ==> member(d, "weight"@) == docs::weight_doc(q.weight_ppb->0)
            &&& q.weight_ppb is None ==> member(d, "weight"@) == Doc::Null
            &&& member(d, "description"@) == Doc::Text(q.description)
            &&& v is Object && v->Object_0.len() == q.variables.len()
            &&& v->Object_0[i].0 == q.variables[i].0
            &&& member(v->Object_0[i].1, "source"@) == Doc::Text(q.variables[i].1)
        }),
{
    broadcast use json::with_then_get;

    query_keys();
}

// ---------------------------------------------------------------------------
// Reports
// ---------------------------------------------------------------------------

proof fn peak_is_greatest(
    points: Seq<PointView>,
    phase: Seq<char>,
    m: Measure,
    f: spec_fn(PointView) -> int,
)
    requires
        forall|p: PointView| #[trigger] metrics::measured(p, m) == f(p),
        forall|p: PointView| 0 <= #[trigger] f(p),
    ensures
        ({
            let peak = metrics::phase_peak(points, phase, m);
            &&& 0 <= peak
            &&& forall|i: int|
                0 <= i < points.len() && (#[trigger] points[i]).phase == phase ==> f(points[i])
                    <= peak
            &&& peak == 0 || exists|i: int|
                0 <= i < points.len() && (#[trigger] points[i]).phase == phase && f(points[i])
                    == peak
        }),
    decreases points.len(),
{
    reveal(Seq::filter);
    if points.len() > 0 {
        let n = points.len() - 1;
        let front = points.drop_last();
        peak_is_greatest(front, phase, m, f);
        metrics::in_phase_step(points, phase, n);
        assert(points.take(n) =~= front);
        assert(points.take(n + 1) =~= points);
        let old_peak = metrics::phase_peak(front, phase, m);
        let peak = metrics::phase_peak(points, phase, m);
        assert(metrics::measured(points[n], m) == f(points[n]));
        assert(0 <= f(points[n]));
        if points.last().phase == phase {
            let before = metrics::figures(metrics::in_phase(front, phase), m);
            let longer = metrics::figures(metrics::in_phase(points, phase), m);
            assert(longer =~= before.push(metrics::measured(points.last(), m)));
            assert(longer.drop_last() =~= before);
        }
        assert forall|i: int| 0 <= i < points.len() && (#[trigger] points[i]).phase == phase implies
            f(points[i]) <= peak by {
            if i < n {
                assert(front[i] == points[i]);
            }
        }
        if peak != 0 {
            if peak == old_peak {
                let i = choose|i: int|
                    0 <= i < front.len() && (#[trigger] front[i]).phase == phase && f(front[i])
                        == old_peak;
                assert(points[i] == front[i]);
            } else {
                assert(f(points[n]) == peak);
            }
        }
    } else {
        assert(metrics::in_phase(points, phase) =~= Seq::empty());
        assert(metrics::figures(metrics::in_phase(points, phase), m) =~= Seq::<int>::empty());
    }
}

/// A report says of a phase how great its lag was at most, and how many sessions ran at once at
/// most.
pub proof fn peaks_of_phases_are_told(
    p: PhaseView,
    points: Seq<PointView>,
    s: ScenarioView,
    timed_out: Seq<Doc>,
)
    ensures
        ({
            let d = json_report::phase_doc(p, points, s, timed_out);
            let lag = member(d, "kafka_peak_consumer_lag"@);
            let sessions = member(member(d, "query"@), "concurrent_sessions"@);
            &&& lag is Uint && sessions is Uint
            &&& forall|i: int|
                0 <= i < points.len() && (#[trigger] points[i]).phase == p.name
                    ==> points[i].kafka_consumer_lag <= lag->Uint_0 && points[i].concurrent_sessions
                    <= sessions->Uint_0
            &&& lag->Uint_0 == 0 || exists|i: int|
                0 <= i < points.len() && (#[trigger] points[i]).phase == p.name
                    && points[i].kafka_consumer_lag == lag->Uint_0
            &&& sessions->Uint_0 == 0 || exists|i: int|
                0 <= i < points.len() && (#[trigger] points[i]).phase == p.name
                    && points[i].concurrent_sessions == sessions->Uint_0
        }),
{
    broadcast use json::with_then_get;

    phase_keys();
    peak_is_greatest(
        points,
        p.name,
        Measure::Lag,
        |q: PointView| q.kafka_consumer_lag as int,
    );
    peak_is_greatest(
        points,
        p.name,
        Measure::Sessions,
        |q: PointView| q.concurrent_sessions as int,
    );
}

/// A report describes its scenario, names the target by the fingerprint of its configuration,
/// and holds the groups and the series of the queries.
pub proof fn reports_describe_the_run(
    s: ScenarioView,
    points: Seq<PointView>,
    resolution_s: u32,
    d: DerivedMetrics,
    card: Scorecard,
    c: ReportContext,
    t: ReportTables,
)
    ensures
        ({
            let r = json_report::report_doc(s, points, resolution_s, d, card, c, t);
            let scenario = member(r, "scenario"@);
            let target = member(r, "target"@);
            let kafka = member(member(r, "harness"@), "kafka"@);
            &&& member(scenario, "display_name"@) == Doc::Text(s.meta.display_name)
            &&& member(scenario, "description"@) == Doc::Text(s.meta.description)
            &&& member(scenario, "domain"@) == Doc::Text(s.meta.domain)
            &&& member(target, "adapter"@) == Doc::Text("mach5"@)
            &&& member(target, "config_hash"@) == Doc::Text(
                seeds::hex(seeds::sha256(encode_utf8(c.config_text@))),
            )
            &&& member(r, "query_groups"@) == json_report::groups_doc(points, s)
            &&& member(r, "per_query_timeseries"@) == docs::list_doc::<PerQueryTimeSeries>(
                model::vmap(t.per_query_timeseries@),
            )
            &&& member(kafka, "topics"@) is Array && member(kafka, "topics"@)->Array_0.len()
                == s.stream_list().len()
            &&& forall|i: int|
                0 <= i < s.stream_list().len() ==> nth(member(kafka, "topics"@), i) == Doc::Text(
                    (#[trigger] s.stream_list()[i]).schema.index_name,
                )
        }),
{
    broadcast use json::with_then_get;

    report_keys();
    let r = json_report::report_doc(s, points, resolution_s, d, card, c, t);
    let topics = member(member(member(r, "harness"@), "kafka"@), "topics"@);
    assert(topics == docs::list_doc::<String>(json_report::topics(s)));
    assert forall|i: int| 0 <= i < s.stream_list().len() implies nth(topics, i) == Doc::Text(
        (#[trigger] s.stream_list()[i]).schema.index_name,
    ) by {
        assert(json_report::topics(s)[i] == s.stream_list()[i].schema.index_name);
    }
}

/// A report of a run stands for ten ingest and four query workers, ten partitions, and times
/// and rates as they are in the scenario; no worker is named as too busy.
pub proof fn reports_stand_for_the_usual_harness(
    s: ScenarioView,
    points: Seq<PointView>,
    timestamp: Seq<char>,
)
    ensures
        ({
            let d = json_report::harness_doc(s);
            let workers = member(d, "workers"@);
            let scaling = member(d, "scaling"@);
            &&& member(workers, "ingest_replicas"@) == Doc::Uint(10)
            &&& member(workers, "query_replicas"@) == Doc::Uint(4)
            &&& member(member(d, "kafka"@), "partitions"@) == Doc::Uint(10)
            &&& member(scaling, "rate_scale"@) == Doc::Uint(1)
            &&& member(scaling, "duration_scale"@) == Doc::Uint(1)
        }),
        member(json_report::run_doc(points, s, timestamp), "saturated_workers"@) == Doc::array(),
{
    broadcast use json::with_then_get;

    report_keys();
}

/// The series of a query is written by its name, with all its points in order.
pub proof fn series_are_written_whole(name: Seq<char>, points: Seq<QueryPointView>, i: int)
    requires
        0 <= i < points.len(),
    ensures
        ({
            let d = PerQueryTimeSeries::doc_of((name, points));
            &&& member(d, "query_name"@) == Doc::Text(name)
            &&& member(d, "points"@) is Array && member(d, "points"@)->Array_0.len() == points.len()
            &&& nth(member(d, "points"@), i) == PerQueryTimeSeriesPoint::doc_of(points[i])
        }),
{
    broadcast use json::with_then_get;

    report_keys();
}

/// A condition of a run tells what holds, why, and since when; a run tells when it began.
pub proof fn conditions_tell_since_when(
    kind: Seq<char>,
    message: Seq<char>,
    now: Seq<char>,
    run_id: Seq<char>,
)
    ensures
        ({
            let d = lifecycle::condition_doc(kind, message, now);
            &&& member(d, "type"@) == Doc::Text(kind)
            &&& member(d, "status"@) == Doc::Text("True"@)
            &&& member(d, "message"@) == Doc::Text(message)
            &&& member(d, "lastTransitionTime"@) == Doc::Text(now)
        }),
        member(member(lifecycle::validated_doc(run_id, now), "status"@), "startTime"@) == Doc::Text(
            now,
        ),
        member(member(lifecycle::validated_doc(run_id, now), "status"@), "runId"@) == Doc::Text(
            run_id,
        ),
{
    broadcast use json::with_then_get;

    condition_keys();
}

} // verus!
