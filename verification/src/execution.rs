//! Running one query: how it is sent, and what comes of it.
use vstd::prelude::*;
use vstd::string::*;
use crate::adapter::{QueryResult, QueryResultView};
use crate::dsl;
use crate::json::{Doc, Json};
use crate::mach5::{Mach5Adapter, PgConfig, PgView};
use crate::model;
use crate::scenario::{QueryDef, QueryView};
use crate::text;

verus! {

/// The least time that a search has, in milliseconds.
pub const MIN_SEARCH_TIMEOUT_MS: u64 = 1000;

/// The time that an SQL statement has where none is given, in milliseconds.
pub const DEFAULT_SQL_TIMEOUT_MS: u64 = 10_000;

/// Where the text of an SQL statement comes from.
pub enum SqlText {
    Given(String),
    /// To be read from this file.
    File(String),
}

/// How an SQL statement is run.
pub struct SqlPlan {
    /// The connection that it shares with other statements of the same key.
    pub client_key: String,
    /// How that connection is opened.
    pub connection: String,
    pub sql: SqlText,
    pub timeout_ms: u64,
}

/// How a search is run.
pub struct SearchPlan {
    pub url: String,
    pub body: Json,
    pub timeout_ms: u64,
}

/// How a query is run.
pub enum QueryPlan {
    Sql(SqlPlan),
    Search(SearchPlan),
}

pub enum SqlTextView {
    Given(Seq<char>),
    File(Seq<char>),
}

pub enum PlanView {
    Sql { client_key: Seq<char>, connection: Seq<char>, sql: SqlTextView, timeout_ms: u64 },
    Search { url: Seq<char>, body: Doc, timeout_ms: u64 },
}

impl View for SqlText {
    type V = SqlTextView;

    open spec fn view(&self) -> SqlTextView {
        match self {
            SqlText::Given(t) => SqlTextView::Given(t@),
            SqlText::File(t) => SqlTextView::File(t@),
        }
    }
}

impl View for QueryPlan {
    type V = PlanView;

    open spec fn view(&self) -> PlanView {
        match self {
            QueryPlan::Sql(p) => PlanView::Sql {
                client_key: p.client_key@,
                connection: p.connection@,
                sql: p.sql@,
                timeout_ms: p.timeout_ms,
            },
            QueryPlan::Search(p) => PlanView::Search {
                url: p.url@,
                body: p.body.doc(),
                timeout_ms: p.timeout_ms,
            },
        }
    }
}

/// The statements of a category share a connection; a query without one has its own.
pub open spec fn client_key(q: QueryView) -> Seq<char> {
    match q.category {
        Some(c) => c,
        None => q.name,
    }
}

/// How a connection to the gateway is opened.
pub open spec fn connection_text(pg: PgView) -> Seq<char> {
    let base = "host="@ + pg.host + " port="@ + text::decimal(pg.port as nat) + " user="@ + pg.user
        + " password="@ + pg.password + " dbname="@ + pg.dbname;
    if pg.warehouse.len() == 0 {
        base
    } else {
        base + " options='-c warehouse="@ + pg.warehouse + "'"@
    }
}

/// The file that holds a statement: its path with the slashes made underscores.
pub open spec fn mounted_file(path: Seq<char>) -> Seq<char> {
    "/queries/"@ + text::replaced(path, "/"@, "_"@)
}

/// The statement: the one given, else that of the file, else the template.
pub open spec fn sql_text(q: QueryView) -> SqlTextView {
    if q.sql is Some && q.sql->0.len() > 0 {
        SqlTextView::Given(q.sql->0)
    } else if q.sql_file is Some {
        SqlTextView::File(mounted_file(q.sql_file->0))
    } else {
        SqlTextView::Given(q.template)
    }
}

/// The time that an SQL statement has.
pub open spec fn sql_timeout(q: QueryView) -> u64 {
    if q.timeout_ms > 0 {
        q.timeout_ms
    } else {
        DEFAULT_SQL_TIMEOUT_MS
    }
}

/// How a query is run.
pub open spec fn plan(
    pg: Option<PgView>,
    q: QueryView,
    index: Seq<char>,
    endpoint: Seq<char>,
    variables: Seq<(Seq<char>, Seq<char>)>,
) -> Result<PlanView, Seq<char>> {
    if q.query_type == "sql"@ {
        match pg {
            None => Err(
                "SQL query requires pg_host/pg_user/pg_password/pg_dbname in adapter config"@,
            ),
            Some(pg) => Ok(
                PlanView::Sql {
                    client_key: client_key(q),
                    connection: connection_text(pg),
                    sql: sql_text(q),
                    timeout_ms: sql_timeout(q),
                },
            ),
        }
    } else {
        Ok(
            PlanView::Search {
                url: endpoint + "/"@ + index + "/_search"@,
                body: dsl::query_body_doc(q, variables),
                timeout_ms: if q.timeout_ms < MIN_SEARCH_TIMEOUT_MS {
                    MIN_SEARCH_TIMEOUT_MS
                } else {
                    q.timeout_ms
                },
            },
        )
    }
}

fn connection_string(pg: &PgConfig) -> (r: String)
    ensures
        r@ == connection_text(pg@),
{
    let port = text::decimal_u64(pg.port as u64);
    let mut s = text::join5("host=", pg.host.as_str(), " port=", port.as_str(), " user=");
    s.append(pg.user.as_str());
    s.append(" password=");
    s.append(pg.password.as_str());
    s.append(" dbname=");
    s.append(pg.dbname.as_str());
    if !pg.warehouse.as_str().is_empty() {
        s.append(" options='-c warehouse=");
        s.append(pg.warehouse.as_str());
        s.append("'");
    }
    s
}

fn statement(q: &QueryDef) -> (r: SqlText)
    ensures
        r@ == sql_text(q@),
{
    match &q.sql {
        Some(s) => {
            if !s.as_str().is_empty() {
                return SqlText::Given(s.clone());
            }
        },
        None => {},
    }
    match &q.sql_file {
        Some(path) => {
            proof {
                reveal_strlit("/");
            }
            let key = text::replace(path.as_str(), "/", "_");
            SqlText::File(text::join2("/queries/", key.as_str()))
        },
        None => SqlText::Given(q.template.clone()),
    }
}

impl Mach5Adapter {
    /// How a query is run, or why it cannot be.
    pub fn plan_query(
        &self,
        query: &QueryDef,
        index_name: &str,
        query_endpoint: &str,
        variables: &Vec<(String, String)>,
    ) -> (r: Result<QueryPlan, String>)
        ensures
            match r {
                Ok(p) => plan(
                    self@.pg,
                    query@,
                    index_name@,
                    query_endpoint@,
                    model::vmap(variables@),
                ) == Ok::<PlanView, Seq<char>>(p@),
                Err(e) => plan(
                    self@.pg,
                    query@,
                    index_name@,
                    query_endpoint@,
                    model::vmap(variables@),
                ) == Err::<PlanView, Seq<char>>(e@),
            },
    {
        if text::same(query.query_type.as_str(), "sql") {
            match &self.pg_config {
                None => Err(
                    text::owned(
                        "SQL query requires pg_host/pg_user/pg_password/pg_dbname in adapter config",
                    ),
                ),
                Some(pg) => {
                    let key = match &query.category {
                        Some(c) => c.clone(),
                        None => query.name.clone(),
                    };
                    Ok(
                        QueryPlan::Sql(
                            SqlPlan {
                                client_key: key,
                                connection: connection_string(pg),
                                sql: statement(query),
                                timeout_ms: if query.timeout_ms > 0 {
                                    query.timeout_ms
                                } else {
                                    DEFAULT_SQL_TIMEOUT_MS
                                },
                            },
                        ),
                    )
                },
            }
        } else {
            Ok(
                QueryPlan::Search(
                    SearchPlan {
                        url: text::join4(query_endpoint, "/", index_name, "/_search"),
                        body: dsl::build_query_body(query, variables),
                        timeout_ms: if query.timeout_ms < MIN_SEARCH_TIMEOUT_MS {
                            MIN_SEARCH_TIMEOUT_MS
                        } else {
                            query.timeout_ms
                        },
                    },
                ),
            )
        }
    }
}

/// What came of sending a query.
pub enum Outcome {
    /// An SQL statement gave this many rows.
    Rows(u64),
    /// An SQL statement failed.
    SqlError(String),
    /// An SQL statement ran out of time.
    SqlTimeout,
    /// A search was answered with this document.
    Found(Json),
    /// A search was refused: the status as it is written in messages, and the text.
    Refused { status: String, body: String },
    /// A search got no answer.
    Unanswered { message: String, timed_out: bool },
}

/// How many documents a search found: `hits.total.value`, or `hits.total` itself.
pub open spec fn hits(body: Doc) -> nat {
    match body.get("hits"@) {
        Some(h) => match h.get("total"@) {
            Some(total) => {
                let number = match total.get("value"@) {
                    Some(v) => v,
                    None => total,
                };
                match number.as_uint() {
                    Some(n) => n,
                    None => 0,
                }
            },
            None => 0,
        },
        None => 0,
    }
}

/// What is recorded of a query.
pub open spec fn recorded(outcome: Outcome, duration_ns: u64) -> QueryResultView {
    let blank = QueryResultView { duration_ns, ..QueryResultView::blank() };
    match outcome {
        Outcome::Rows(n) => QueryResultView { hit_count: n, row_count: Some(n), ..blank },
        Outcome::SqlError(e) => QueryResultView { error: Some(e@), ..blank },
        Outcome::SqlTimeout => QueryResultView { timed_out: true, ..blank },
        Outcome::Found(body) => QueryResultView { hit_count: hits(body.doc()) as u64, ..blank },
        Outcome::Refused { status, body } => QueryResultView {
            error: Some("HTTP "@ + status@ + ": "@ + body@),
            ..blank
        },
        Outcome::Unanswered { message, timed_out } => QueryResultView {
            error: Some("Request failed: "@ + message@),
            timed_out,
            ..blank
        },
    }
}

fn hit_count(body: &Json) -> (r: u64)
    ensures
        r == hits(body.doc()),
{
    match body.get("hits") {
        Some(h) => match h.get("total") {
            Some(total) => {
                let number = match total.get("value") {
                    Some(v) => v,
                    None => total,
                };
                match number.as_uint() {
                    Some(n) => n,
                    None => 0,
                }
            },
            None => 0,
        },
        None => 0,
    }
}

/// Records what came of a query and how long it took.
pub fn record(outcome: &Outcome, duration_ns: u64) -> (r: QueryResult)
    ensures
        r@ == recorded(*outcome, duration_ns),
{
    let mut r = QueryResult::default();
    r.duration_ns = duration_ns;
    match outcome {
        Outcome::Rows(n) => {
            r.hit_count = *n;
            r.row_count = Some(*n);
        },
        Outcome::SqlError(e) => {
            r.error = Some(e.clone());
        },
        Outcome::SqlTimeout => {
            r.timed_out = true;
        },
        Outcome::Found(body) => {
            r.hit_count = hit_count(body);
        },
        Outcome::Refused { status, body } => {
            r.error = Some(text::join4("HTTP ", status.as_str(), ": ", body.as_str()));
        },
        Outcome::Unanswered { message, timed_out } => {
            r.error = Some(text::join2("Request failed: ", message.as_str()));
            r.timed_out = *timed_out;
        },
    }
    r
}

} // verus!
