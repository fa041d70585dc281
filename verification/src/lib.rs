//! A benchmark harness that replays production incidents against search and analytics
//! platforms: scenarios, synthetic load, measurements and reports.
use vstd::prelude::*;

pub mod adapter;
pub mod aggregator;
pub mod aggregator_laws;
pub mod barrier;
pub mod bucket;
pub mod categories;
pub mod chance;
pub mod clock;
pub mod conductor;
pub mod config_laws;
pub mod configmaps;
pub mod console;
pub mod console_laws;
pub mod crd;
pub mod criteria;
pub mod decimal;
pub mod deployment_laws;
pub mod detail_laws;
pub mod docs;
pub mod dsl;
pub mod download;
pub mod events;
pub mod execution;
pub mod failures;
pub mod fields;
pub mod generator;
pub mod generator_laws;
pub mod groups;
pub mod html_laws;
pub mod html_report;
pub mod ingest;
pub mod ingest_loop;
pub mod json;
pub mod json_report;
pub mod lag;
pub mod latency;
pub mod latency_laws;
pub mod lifecycle;
pub mod live;
pub mod load_laws;
pub mod loop_laws;
pub mod mach5;
pub mod metrics;
pub mod mix;
pub mod model;
pub mod operator_laws;
pub mod order;
pub mod page_laws;
pub mod percentile_laws;
pub mod phase_controller;
pub mod plan;
pub mod platform_laws;
pub mod proc_metrics;
pub mod product;
pub mod query_laws;
pub mod rate_loop;
pub mod ratelimit;
pub mod rates;
pub mod report_laws;
pub mod resources;
pub mod results;
pub mod scenario;
pub mod scorecard_laws;
pub mod second_laws;
pub mod seeds;
pub mod series_laws;
pub mod session;
pub mod session_loop;
pub mod setup_laws;
pub mod snapshot;
pub mod sorting;
pub mod tally;
pub mod teardown;
pub mod text;
pub mod text_laws;
pub mod threshold;
pub mod timeline_laws;
pub mod validation;
pub mod validity_laws;
pub mod wellformed;
pub mod worker_laws;

verus! {

}
