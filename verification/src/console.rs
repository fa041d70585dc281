//! What the command line tells: the plan of a run, whether a scenario is valid, and how runs
//! are doing.
use vstd::prelude::*;
use vstd::string::*;
use crate::crd::{Condition, IncidentBenchRunStatus, ProgressStatus, RunResults, WorkerStatus};
use crate::decimal;
use crate::html_report;
use crate::json::{Doc, Json};
use crate::metrics;
use crate::metrics::Scorecard;
use crate::model;
use crate::scenario::{DataStream, PhaseDef, PhaseView, Scenario, ScenarioView, StreamView};
use crate::text;

verus! {

// ---------------------------------------------------------------------------
// Columns
// ---------------------------------------------------------------------------

/// So many spaces.
pub open spec fn spaces(n: int) -> Seq<char> {
    Seq::new(
        if n > 0 {
            n as nat
        } else {
            0
        },
        |i: int| ' ',
    )
}

/// A text with spaces behind it up to a width.
pub open spec fn to_left(s: Seq<char>, width: int) -> Seq<char> {
    s + spaces(width - s.len())
}

/// A text with spaces before it up to a width.
pub open spec fn to_right(s: Seq<char>, width: int) -> Seq<char> {
    spaces(width - s.len()) + s
}

fn spaces_to(len: usize, width: usize) -> (r: String)
    ensures
        r@ == spaces(width - len),
{
    let mut out = String::new();
    let mut i: usize = len;
    assert(out@ =~= spaces(0));
    while i < width
        invariant
            len <= i,
            len <= width ==> i <= width,
            width <= len ==> i == len,
            out@ == spaces(i - len),
        decreases width - i,
    {
        out.push(' ');
        i += 1;
        assert(out@ =~= spaces(i - len));
    }
    assert(out@ =~= spaces(width - len));
    out
}

/// A text with spaces behind it up to a width.
pub fn pad_right(s: &str, width: usize) -> (r: String)
    ensures
        r@ == to_left(s@, width as int),
{
    let len: usize = text::chars_of(s).len();
    text::join2(s, spaces_to(len, width).as_str())
}

/// A text with spaces before it up to a width.
pub fn pad_left(s: &str, width: usize) -> (r: String)
    ensures
        r@ == to_right(s@, width as int),
{
    let len: usize = text::chars_of(s).len();
    text::join2(spaces_to(len, width).as_str(), s)
}

fn put(out: &mut Vec<String>, line: String)
    ensures
        text::views(final(out)@) == text::views(old(out)@).push(line@),
{
    broadcast use model::views_push;

    out.push(line);
}

fn say(out: &mut Vec<String>, line: &str)
    ensures
        text::views(final(out)@) == text::views(old(out)@).push(line@),
{
    put(out, text::owned(line));
}

fn no_lines() -> (r: Vec<String>)
    ensures
        text::views(r@) == Seq::<Seq<char>>::empty(),
{
    let out: Vec<String> = Vec::new();
    assert(text::views(out@) =~= Seq::<Seq<char>>::empty());
    out
}

// ---------------------------------------------------------------------------
// The plan of a run
// ---------------------------------------------------------------------------

/// What a run is started with.
pub struct RunRequest {
    pub target: String,
    pub kafka_bootstrap: String,
    pub duration_scale_ppm: u64,
    pub rate_scale_ppm: u64,
    pub replicas_ingest: u32,
    pub replicas_query: u32,
}

/// Events in millions, with one decimal.
pub open spec fn millions(n: int) -> Seq<char> {
    "~"@ + decimal::fixed(n as nat, 1_000_000, 1) + "M"@
}

/// A factor in parts per million, at its shortest.
pub open spec fn factor(ppm: u64) -> Seq<char> {
    decimal::shortest(ppm as nat, 6) + "x"@
}

/// The head of the plan.
pub open spec fn plan_head(s: ScenarioView, r: RunRequest) -> Seq<Seq<char>> {
    Seq::<Seq<char>>::empty().push("IncidentBench Run Plan"@).push("======================"@).push(
        "Scenario:        "@ + s.meta.name + " v"@ + s.meta.version,
    ).push("Target:          "@ + r.target@).push("Kafka:           "@ + r.kafka_bootstrap@).push(
        "Duration Scale:  "@ + factor(r.duration_scale_ppm),
    ).push("Rate Scale:      "@ + factor(r.rate_scale_ppm)).push(
        "Ingest Workers:  "@ + text::decimal(r.replicas_ingest as nat),
    ).push("Query Workers:   "@ + text::decimal(r.replicas_query as nat)).push(
        "Total Duration:  "@ + text::decimal(s.total_duration() as nat) + "s ("@
            + decimal::fixed(s.total_duration() as nat, 60, 1) + " min)"@,
    ).push("Total Events:    "@ + millions(s.total_events())).push(""@).push("Data Streams:"@)
}

/// The line of a stream.
pub open spec fn stream_line(d: StreamView) -> Seq<char> {
    "  "@ + d.name + " (index: "@ + d.schema.index_name + ", replicas: "@ + text::decimal(
        d.ingest_replicas as nat,
    ) + ")"@
}

/// The line of a phase.
pub open spec fn phase_line(p: PhaseView, s: ScenarioView) -> Seq<char> {
    "  "@ + to_left(p.display_name, 20) + " "@ + to_right(
        text::decimal(p.duration_seconds as nat),
        4,
    ) + "s  "@ + to_right(text::decimal(s.total_phase_eps(p.name) as nat), 7) + " EPS  "@
        + to_right(decimal::fixed(p.target_pqps as nat, 1_000_000_000_000, 1), 5) + " QPS"@
}

/// The plan of a run: what it is made of, its streams, and its phases. The scenario is the
/// one that runs, with the factors applied.
pub open spec fn plan(s: ScenarioView, r: RunRequest) -> Seq<Seq<char>> {
    (plan_head(s, r) + s.stream_list().map_values(|d: StreamView| stream_line(d))).push(""@).push(
        "Phase Timeline:"@,
    ) + s.phases.map_values(|p: PhaseView| phase_line(p, s))
}

fn factor_of(ppm: u64) -> (r: String)
    ensures
        r@ == factor(ppm),
{
    text::join2(decimal::shortest_of(ppm as u128, 6).as_str(), "x")
}

fn millions_of(n: u64) -> (r: String)
    ensures
        r@ == millions(n as int),
{
    text::join3("~", decimal::fixed_of(n as u128, 1_000_000, 1).as_str(), "M")
}

fn plan_head_of(s: &Scenario, r: &RunRequest) -> (out: Vec<String>)
    requires
        s@.total_duration() <= u64::MAX,
        s@.total_events() <= u64::MAX,
    ensures
        text::views(out@) == plan_head(s@, *r),
{
    let seconds: u64 = s.total_duration_seconds();
    let mut out = no_lines();
    say(&mut out, "IncidentBench Run Plan");
    say(&mut out, "======================");
    put(
        &mut out,
        text::join4(
            "Scenario:        ",
            s.scenario.name.as_str(),
            " v",
            s.scenario.version.as_str(),
        ),
    );
    put(&mut out, text::join2("Target:          ", r.target.as_str()));
    put(&mut out, text::join2("Kafka:           ", r.kafka_bootstrap.as_str()));
    put(&mut out, text::join2("Duration Scale:  ", factor_of(r.duration_scale_ppm).as_str()));
    put(&mut out, text::join2("Rate Scale:      ", factor_of(r.rate_scale_ppm).as_str()));
    put(
        &mut out,
        text::join2("Ingest Workers:  ", text::decimal_u64(r.replicas_ingest as u64).as_str()),
    );
    put(
        &mut out,
        text::join2("Query Workers:   ", text::decimal_u64(r.replicas_query as u64).as_str()),
    );
    put(
        &mut out,
        text::join5(
            "Total Duration:  ",
            text::decimal_u64(seconds).as_str(),
            "s (",
            decimal::fixed_of(seconds as u128, 60, 1).as_str(),
            " min)",
        ),
    );
    put(
        &mut out,
        text::join2("Total Events:    ", millions_of(s.total_events_at_target()).as_str()),
    );
    say(&mut out, "");
    say(&mut out, "Data Streams:");
    out
}

fn stream_line_of(d: &DataStream) -> (r: String)
    ensures
        r@ == stream_line(d@),
{
    let mut out = text::owned("  ");
    out.append(d.name.as_str());
    out.append(" (index: ");
    out.append(d.schema.index_name.as_str());
    out.append(", replicas: ");
    out.append(text::decimal_u64(d.ingest_replicas as u64).as_str());
    out.append(")");
    out
}

fn phase_line_of(p: &PhaseDef, s: &Scenario) -> (r: String)
    ensures
        r@ == phase_line(p@, s@),
{
    let eps: u128 = s.phase_target_eps(p.name.as_str());
    let mut out = text::owned("  ");
    out.append(pad_right(p.display_name.as_str(), 20).as_str());
    out.append(" ");
    out.append(pad_left(text::decimal_u64(p.duration_seconds).as_str(), 4).as_str());
    out.append("s  ");
    out.append(pad_left(text::decimal_of(eps).as_str(), 7).as_str());
    out.append(" EPS  ");
    out.append(
        pad_left(
            decimal::fixed_of(p.query.target_pqps, 1_000_000_000_000, 1).as_str(),
            5,
        ).as_str(),
    );
    out.append(" QPS");
    out
}

fn put_streams(out: &mut Vec<String>, s: &Scenario)
    ensures
        text::views(final(out)@) == text::views(old(out)@) + s@.stream_list().map_values(
            |d: StreamView| stream_line(d),
        ),
{
    let ghost before = text::views(out@);
    let ghost all = s@.stream_list().map_values(|d: StreamView| stream_line(d));
    match &s.data_streams {
        None => {
            assert(before + all =~= before);
        },
        Some(streams) => {
            let mut i: usize = 0;
            assert(text::views(out@) =~= before + all.take(0));
            while i < streams.len()
                invariant
                    i <= streams@.len(),
                    before == text::views(old(out)@),
                    all == model::vmap(streams@).map_values(|d: StreamView| stream_line(d)),
                    text::views(out@) == before + all.take(i as int),
                decreases streams@.len() - i,
            {
                assert(model::vmap(streams@)[i as int] == streams@[i as int]@);
                put(out, stream_line_of(&streams[i]));
                i += 1;
                assert(before + all.take(i as int) =~= (before + all.take(i - 1)).push(all[i - 1]));
            }
            assert(all.take(i as int) =~= all);
        },
    }
}

/// The plan of a run, line by line. The scenario is the one that runs, with the factors
/// applied.
pub fn run_plan(s: &Scenario, r: &RunRequest) -> (out: Vec<String>)
    requires
        s@.total_duration() <= u64::MAX,
        s@.total_events() <= u64::MAX,
    ensures
        text::views(out@) == plan(s@, *r),
{
    let mut out = plan_head_of(s, r);
    put_streams(&mut out, s);
    say(&mut out, "");
    say(&mut out, "Phase Timeline:");
    let ghost before = text::views(out@);
    let ghost all = s@.phases.map_values(|p: PhaseView| phase_line(p, s@));
    let phases = &s.timeline.phases;
    let mut i: usize = 0;
    assert(text::views(out@) =~= before + all.take(0));
    while i < phases.len()
        invariant
            i <= phases@.len(),
            *phases == s.timeline.phases,
            all == s@.phases.map_values(|p: PhaseView| phase_line(p, s@)),
            text::views(out@) == before + all.take(i as int),
        decreases phases@.len() - i,
    {
        assert(s@.phases[i as int] == phases@[i as int]@);
        put(&mut out, phase_line_of(&phases[i], s));
        i += 1;
        assert(before + all.take(i as int) =~= (before + all.take(i - 1)).push(all[i - 1]));
    }
    assert(all.take(i as int) =~= all);
    out
}

// ---------------------------------------------------------------------------
// The name of a run
// ---------------------------------------------------------------------------

/// The text is all ASCII.
pub open spec fn is_ascii(s: Seq<char>) -> bool {
    forall|k: int| 0 <= k < s.len() ==> (#[trigger] s[k] as u32) < 128
}

/// A text in lower case.
pub uninterp spec fn lower_case(s: Seq<char>) -> Seq<char>;

/// A text in lower case.
///
/// Calls `str::to_lowercase`, whose result follows from the text alone, and holds no capital
/// letter of ASCII. Of a text that is all ASCII only the capital letters change.
#[verifier::external_body]
fn to_lower_case(s: &str) -> (r: String)
    ensures
        r@ == lower_case(s@),
        forall|k: int| 0 <= k < r@.len() ==> !('A' <= #[trigger] r@[k] <= 'Z'),
        is_ascii(s@) ==> r@ == text::ascii_lower(s@),
{
    s.to_lowercase()
}

/// A character that may stand in the name of a resource.
pub open spec fn may_stand(c: char) -> bool {
    ('a' <= c <= 'z') || ('A' <= c <= 'Z') || ('0' <= c <= '9') || c == '-' || c == '.'
}

/// The text with a hyphen for each character that may not stand in a name.
pub open spec fn hyphened(s: Seq<char>) -> Seq<char> {
    s.map_values(
        |c: char|
            if may_stand(c) {
                c
            } else {
                '-'
            },
    )
}

/// A hyphen or a dot.
pub open spec fn is_joint(c: char) -> bool {
    c == '-' || c == '.'
}

/// The text without the hyphens and dots at its start.
pub open spec fn without_leading_joints(s: Seq<char>) -> Seq<char>
    decreases s.len(),
{
    if s.len() > 0 && is_joint(s[0]) {
        without_leading_joints(s.skip(1))
    } else {
        s
    }
}

/// The text without the hyphens and dots at its end.
pub open spec fn without_trailing_joints(s: Seq<char>) -> Seq<char>
    decreases s.len(),
{
    if s.len() > 0 && is_joint(s.last()) {
        without_trailing_joints(s.drop_last())
    } else {
        s
    }
}

/// What the lower-case name of a scenario becomes in the name of a run.
pub open spec fn sanitized(lower: Seq<char>) -> Seq<char> {
    without_trailing_joints(without_leading_joints(hyphened(lower)))
}

/// What the lower-case name of a scenario becomes in the name of a run.
pub fn sanitize(lower: &str) -> (r: String)
    ensures
        r@ == sanitized(lower@),
{
    let chars = text::chars_of(lower);
    let ghost h = hyphened(lower@);
    let mut out: Vec<char> = Vec::new();
    let mut i: usize = 0;
    assert(out@ =~= h.take(0));
    while i < chars.len()
        invariant
            i <= chars@.len(),
            chars@ == lower@,
            h == hyphened(lower@),
            out@ == h.take(i as int),
        decreases chars@.len() - i,
    {
        broadcast use model::take_push;

        let c: char = chars[i];
        let kept: char = if ('a' <= c && c <= 'z') || ('A' <= c && c <= 'Z') || ('0' <= c && c
            <= '9') || c == '-' || c == '.' {
            c
        } else {
            '-'
        };
        out.push(kept);
        i += 1;
    }
    assert(h.take(i as int) =~= h);
    let mut from: usize = 0;
    assert(h.skip(0) =~= h);
    while from < out.len() && (out[from] == '-' || out[from] == '.')
        invariant
            from <= out@.len(),
            out@ == h,
            without_leading_joints(h) == without_leading_joints(h.skip(from as int)),
        decreases out@.len() - from,
    {
        assert(h.skip(from as int)[0] == h[from as int]);
        assert(h.skip(from as int).skip(1) =~= h.skip(from + 1));
        from += 1;
    }
    let ghost rest = h.skip(from as int);
    proof {
        if from < out@.len() {
            assert(rest[0] == h[from as int]);
        }
        assert(without_leading_joints(h) == rest);
    }
    let mut to: usize = out.len();
    assert(rest.take(to - from) =~= rest);
    while to > from && (out[to - 1] == '-' || out[to - 1] == '.')
        invariant
            from <= to <= out@.len(),
            out@ == h,
            rest == h.skip(from as int),
            without_trailing_joints(rest) == without_trailing_joints(rest.take(to - from)),
        decreases to,
    {
        assert(rest.take(to - from).last() == h[to - 1]);
        assert(rest.take(to - from).drop_last() =~= rest.take(to - 1 - from));
        to -= 1;
    }
    proof {
        if to > from {
            assert(rest.take(to - from).last() == h[to - 1]);
        }
        assert(h.subrange(from as int, to as int) =~= rest.take(to - from));
    }
    text::string_of(&out, from, to)
}

/// The name of a run: that of its scenario, made fit for a resource, and the time.
pub fn run_name(scenario_name: &str, stamp: &str) -> (r: String)
    ensures
        r@ == sanitized(lower_case(scenario_name@)) + "-"@ + stamp@,
        is_subdomain(sanitized(lower_case(scenario_name@))),
        is_ascii(scenario_name@) ==> r@ == sanitized(text::ascii_lower(scenario_name@)) + "-"@
            + stamp@,
{
    let lower = to_lower_case(scenario_name);
    proof {
        sanitized_names_are_subdomains(lower@);
    }
    text::join3(sanitize(lower.as_str()).as_str(), "-", stamp)
}

/// The text may stand in the name of a resource: only small letters, digits, hyphens and
/// dots, and neither of the last two at an end.
pub open spec fn is_subdomain(s: Seq<char>) -> bool {
    &&& forall|k: int|
        0 <= k < s.len() ==> may_stand(#[trigger] s[k]) && !('A' <= s[k] <= 'Z')
    &&& s.len() > 0 ==> !is_joint(s[0]) && !is_joint(s.last())
}

/// What a name without capital letters becomes may stand in the name of a resource.
pub proof fn sanitized_names_are_subdomains(lower: Seq<char>)
    requires
        forall|k: int| 0 <= k < lower.len() ==> !('A' <= #[trigger] lower[k] <= 'Z'),
    ensures
        is_subdomain(sanitized(lower)),
{
    let h = hyphened(lower);
    let front = without_leading_joints(h);
    leading_joints_go(h);
    trailing_joints_go(front);
    let s = sanitized(lower);
    assert forall|k: int| 0 <= k < s.len() implies may_stand(#[trigger] s[k]) && !('A' <= s[k]
        <= 'Z') by {
        assert(s[k] == front[k]);
        let d = h.len() - front.len();
        assert(front[k] == h[k + d]);
        assert(h[k + d] == (if may_stand(lower[k + d]) {
            lower[k + d]
        } else {
            '-'
        }));
    }
    if s.len() > 0 {
        assert(s[0] == front[0]);
    }
}

proof fn leading_joints_go(s: Seq<char>)
    ensures
        without_leading_joints(s).len() <= s.len(),
        without_leading_joints(s) == s.skip(s.len() - without_leading_joints(s).len()),
        without_leading_joints(s).len() > 0 ==> !is_joint(without_leading_joints(s)[0]),
    decreases s.len(),
{
    if s.len() > 0 && is_joint(s[0]) {
        leading_joints_go(s.skip(1));
        let r = without_leading_joints(s);
        assert(s.skip(1).skip(s.len() - 1 - r.len()) =~= s.skip(s.len() - r.len()));
    } else {
        assert(s.skip(0) =~= s);
    }
}

proof fn trailing_joints_go(s: Seq<char>)
    ensures
        without_trailing_joints(s).len() <= s.len(),
        without_trailing_joints(s) == s.take(without_trailing_joints(s).len() as int),
        without_trailing_joints(s).len() > 0 ==> !is_joint(without_trailing_joints(s).last()),
    decreases s.len(),
{
    if s.len() > 0 && is_joint(s.last()) {
        trailing_joints_go(s.drop_last());
        let r = without_trailing_joints(s);
        assert(s.drop_last().take(r.len() as int) =~= s.take(r.len() as int));
    } else {
        assert(s.take(s.len() as int) =~= s);
    }
}

/// The resource that starts a run; the scenario stands as a document.
pub open spec fn run_resource_doc(name: Seq<char>, scenario: Doc, r: RunRequest, config: Doc) -> Doc {
    Doc::object().with("apiVersion"@, Doc::Text("incidentbench.io/v1alpha1"@)).with(
        "kind"@,
        Doc::Text("IncidentBenchRun"@),
    ).with(
        "metadata"@,
        Doc::object().with("name"@, Doc::Text(name)).with(
            "namespace"@,
            Doc::Text("incidentbench"@),
        ),
    ).with(
        "spec"@,
        Doc::object().with("scenario"@, scenario).with(
            "target"@,
            Doc::object().with("adapter"@, Doc::Text(r.target@)).with("config"@, config),
        ).with(
            "kafka"@,
            Doc::object().with("bootstrapServers"@, Doc::Text(r.kafka_bootstrap@)),
        ).with(
            "scaling"@,
            Doc::object().with(
                "durationScale"@,
                Doc::Quotient { num: r.duration_scale_ppm as nat, den: 1_000_000 },
            ).with(
                "rateScale"@,
                Doc::Quotient { num: r.rate_scale_ppm as nat, den: 1_000_000 },
            ),
        ).with(
            "workers"@,
            Doc::object().with(
                "ingest"@,
                Doc::object().with("replicas"@, Doc::Uint(r.replicas_ingest as nat)),
            ).with(
                "query"@,
                Doc::object().with("replicas"@, Doc::Uint(r.replicas_query as nat)),
            ),
        ).with("dryRun"@, Doc::Bool(false)),
    )
}

/// The resource that starts a run.
pub fn run_resource(name: &str, scenario: Json, r: &RunRequest, config: Json) -> (j: Json)
    ensures
        j.doc() == run_resource_doc(name@, scenario.doc(), *r, config.doc()),
{
    Json::object().with("apiVersion", Json::text("incidentbench.io/v1alpha1")).with(
        "kind",
        Json::text("IncidentBenchRun"),
    ).with(
        "metadata",
        Json::object().with("name", Json::text(name)).with(
            "namespace",
            Json::text("incidentbench"),
        ),
    ).with(
        "spec",
        Json::object().with("scenario", scenario).with(
            "target",
            Json::object().with("adapter", Json::text(r.target.as_str())).with("config", config),
        ).with(
            "kafka",
            Json::object().with("bootstrapServers", Json::text(r.kafka_bootstrap.as_str())),
        ).with(
            "scaling",
            Json::object().with(
                "durationScale",
                Json::Quotient { num: r.duration_scale_ppm as u128, den: 1_000_000 },
            ).with(
                "rateScale",
                Json::Quotient { num: r.rate_scale_ppm as u128, den: 1_000_000 },
            ),
        ).with(
            "workers",
            Json::object().with(
                "ingest",
                Json::object().with("replicas", Json::Uint(r.replicas_ingest as u64)),
            ).with(
                "query",
                Json::object().with("replicas", Json::Uint(r.replicas_query as u64)),
            ),
        ).with("dryRun", Json::Bool(false)),
    )
}

/// What is said when a run has been created.
pub open spec fn created(name: Seq<char>) -> Seq<Seq<char>> {
    Seq::<Seq<char>>::empty().push("Created: "@ + name).push(""@).push("Watch progress:"@).push(
        "  incidentbench metrics "@ + name + " --live"@,
    ).push(""@).push("Get report when done:"@).push("  incidentbench report get "@ + name)
}

/// What is said when a run has been created.
pub fn created_lines(name: &str) -> (out: Vec<String>)
    ensures
        text::views(out@) == created(name@),
{
    let mut out = no_lines();
    put(&mut out, text::join2("Created: ", name));
    say(&mut out, "");
    say(&mut out, "Watch progress:");
    put(&mut out, text::join3("  incidentbench metrics ", name, " --live"));
    say(&mut out, "");
    say(&mut out, "Get report when done:");
    put(&mut out, text::join2("  incidentbench report get ", name));
    out
}

// ---------------------------------------------------------------------------
// Whether a scenario is valid
// ---------------------------------------------------------------------------

/// How many streams there are.
pub open spec fn stream_count(s: ScenarioView) -> nat {
    s.stream_list().len()
}

/// The line of a stream of a valid scenario.
pub open spec fn stream_summary(d: StreamView) -> Seq<char> {
    "    "@ + d.name + " -> index '"@ + d.schema.index_name + "' ("@ + text::decimal(
        d.schema.fields.len(),
    ) + " fields)"@
}

/// What is said of a valid scenario.
pub open spec fn praise(s: ScenarioView) -> Seq<Seq<char>> {
    (Seq::<Seq<char>>::empty().push("Scenario '"@ + s.meta.name + "' is valid."@).push(""@).push(
        "  Version:    "@ + s.meta.version,
    ).push("  Domain:     "@ + s.meta.domain).push(
        "  Streams:    "@ + text::decimal(stream_count(s)),
    ) + s.stream_list().map_values(|d: StreamView| stream_summary(d))).push(
        "  Queries:    "@ + text::decimal(s.queries.len()),
    ).push("  Phases:     "@ + text::decimal(s.phases.len())).push(
        "  Duration:   "@ + text::decimal(s.total_duration() as nat) + "s"@,
    ).push("  Events:     "@ + millions(s.total_events()))
}

/// What is said of a scenario with errors.
pub open spec fn blame(name: Seq<char>, errors: Seq<Seq<char>>) -> Seq<Seq<char>> {
    Seq::<Seq<char>>::empty().push(
        "Scenario '"@ + name + "' has "@ + text::decimal(errors.len()) + " validation error(s):"@,
    ) + errors.map_values(|e: Seq<char>| "  - "@ + e)
}

fn stream_summary_of(d: &DataStream) -> (r: String)
    ensures
        r@ == stream_summary(d@),
{
    let mut out = text::owned("    ");
    out.append(d.name.as_str());
    out.append(" -> index '");
    out.append(d.schema.index_name.as_str());
    out.append("' (");
    out.append(text::decimal_usize(d.schema.fields.len()).as_str());
    out.append(" fields)");
    out
}

fn put_summaries(out: &mut Vec<String>, streams: &Vec<DataStream>)
    ensures
        text::views(final(out)@) == text::views(old(out)@) + model::vmap(streams@).map_values(
            |d: StreamView| stream_summary(d),
        ),
{
    let ghost before = text::views(out@);
    let ghost all = model::vmap(streams@).map_values(|d: StreamView| stream_summary(d));
    let mut i: usize = 0;
    assert(text::views(out@) =~= before + all.take(0));
    while i < streams.len()
        invariant
            i <= streams@.len(),
            before == text::views(old(out)@),
            all == model::vmap(streams@).map_values(|d: StreamView| stream_summary(d)),
            text::views(out@) == before + all.take(i as int),
        decreases streams@.len() - i,
    {
        assert(model::vmap(streams@)[i as int] == streams@[i as int]@);
        put(out, stream_summary_of(&streams[i]));
        i += 1;
        assert(before + all.take(i as int) =~= (before + all.take(i - 1)).push(all[i - 1]));
    }
    assert(all.take(i as int) =~= all);
}

/// What is said of a valid scenario.
pub fn valid_lines(s: &Scenario) -> (out: Vec<String>)
    requires
        s@.total_duration() <= u64::MAX,
        s@.total_events() <= u64::MAX,
    ensures
        text::views(out@) == praise(s@),
{
    let none: Vec<DataStream> = Vec::new();
    let streams = match &s.data_streams {
        Some(v) => v,
        None => &none,
    };
    assert(model::vmap(streams@) =~= s@.stream_list());
    let mut out = no_lines();
    put(&mut out, text::join3("Scenario '", s.scenario.name.as_str(), "' is valid."));
    say(&mut out, "");
    put(&mut out, text::join2("  Version:    ", s.scenario.version.as_str()));
    put(&mut out, text::join2("  Domain:     ", s.scenario.domain.as_str()));
    put(&mut out, text::join2("  Streams:    ", text::decimal_usize(streams.len()).as_str()));
    put_summaries(&mut out, streams);
    put(
        &mut out,
        text::join2("  Queries:    ", text::decimal_usize(s.query_mix.queries.len()).as_str()),
    );
    put(
        &mut out,
        text::join2("  Phases:     ", text::decimal_usize(s.timeline.phases.len()).as_str()),
    );
    put(
        &mut out,
        text::join3("  Duration:   ", text::decimal_u64(s.total_duration_seconds()).as_str(), "s"),
    );
    put(&mut out, text::join2("  Events:     ", millions_of(s.total_events_at_target()).as_str()));
    out
}

fn put_items(out: &mut Vec<String>, items: &Vec<String>)
    ensures
        text::views(final(out)@) == text::views(old(out)@) + text::views(items@).map_values(
            |e: Seq<char>| "  - "@ + e,
        ),
{
    let ghost before = text::views(out@);
    let ghost all = text::views(items@).map_values(|e: Seq<char>| "  - "@ + e);
    let mut i: usize = 0;
    assert(text::views(out@) =~= before + all.take(0));
    while i < items.len()
        invariant
            i <= items@.len(),
            before == text::views(old(out)@),
            all == text::views(items@).map_values(|e: Seq<char>| "  - "@ + e),
            text::views(out@) == before + all.take(i as int),
        decreases items@.len() - i,
    {
        assert(text::views(items@)[i as int] == items@[i as int]@);
        put(out, text::join2("  - ", items[i].as_str()));
        i += 1;
        assert(before + all.take(i as int) =~= (before + all.take(i - 1)).push(all[i - 1]));
    }
    assert(all.take(i as int) =~= all);
}

/// What is said of a scenario with errors.
pub fn invalid_lines(name: &str, errors: &Vec<String>) -> (out: Vec<String>)
    ensures
        text::views(out@) == blame(name@, text::views(errors@)),
{
    let mut out = no_lines();
    put(
        &mut out,
        text::join5(
            "Scenario '",
            name,
            "' has ",
            text::decimal_usize(errors.len()).as_str(),
            " validation error(s):",
        ),
    );
    put_items(&mut out, errors);
    out
}

// ---------------------------------------------------------------------------
// The status of a run
// ---------------------------------------------------------------------------

/// A line where there is something to say.
pub open spec fn if_any(out: Seq<Seq<char>>, label: Seq<char>, t: Option<Seq<char>>) -> Seq<Seq<char>> {
    match t {
        Some(x) => out.push(label + x),
        None => out,
    }
}

/// The progress in per cent, without decimals.
pub open spec fn percent_done(p: ProgressStatus) -> Seq<char> {
    if p.total_seconds > 0 {
        decimal::fixed(p.elapsed_seconds as nat * 100, p.total_seconds as nat, 0)
    } else {
        decimal::fixed(0, 1, 0)
    }
}

/// How many workers there are.
pub open spec fn workers_line(w: WorkerStatus) -> Seq<char> {
    "Workers:   ingest "@ + text::decimal(w.ingest_ready as nat) + "/"@ + text::decimal(
        w.ingest_desired as nat,
    ) + ", query "@ + text::decimal(w.query_ready as nat) + "/"@ + text::decimal(
        w.query_desired as nat,
    )
}

/// How a run is doing.
pub open spec fn progress_lines(out: Seq<Seq<char>>, p: ProgressStatus) -> Seq<Seq<char>> {
    out.push(
        "Progress:  "@ + text::decimal(p.elapsed_seconds as nat) + "/"@ + text::decimal(
            p.total_seconds as nat,
        ) + "s ("@ + percent_done(p) + "%)"@,
    ).push(
        "Ingest:    "@ + text::decimal(p.achieved_ingest_eps as nat) + " / "@ + text::decimal(
            p.target_ingest_eps as nat,
        ) + " EPS"@,
    ).push(
        "Query:     "@ + decimal::fixed(p.achieved_query_uqps as nat, 1_000_000, 1) + " / "@
            + decimal::fixed(p.target_query_uqps as nat, 1_000_000, 1) + " QPS"@,
    ).push("Kafka Lag: "@ + text::decimal(p.kafka_consumer_lag as nat))
}

/// The scorecard of a run.
pub open spec fn scorecard_lines(out: Seq<Seq<char>>, c: Scorecard) -> Seq<Seq<char>> {
    out.push(""@).push("Scorecard:"@).push(
        "  Baseline p99:     "@ + html_report::ms_text(c.baseline_p99_ns) + " ms"@,
    ).push("  Overlap p99:      "@ + html_report::ms_text(c.overlap_p99_ns) + " ms"@).push(
        "  Degradation:      "@ + html_report::ratio_text(c.p99_degradation_ratio) + "x"@,
    ).push(
        "  Error Rate:       "@ + html_report::percent_text(c.query_error_rate_overlap) + "%"@,
    ).push("  Peak Backlog:     "@ + text::decimal(c.peak_backlog as nat)).push(
        "  Drain Time:       "@ + html_report::seconds_text(c.backlog_drain_time_s) + "s"@,
    ).push("  Recovery Time:    "@ + html_report::seconds_text(c.recovery_time_s) + "s"@)
}

/// The results of a run.
pub open spec fn results_lines(out: Seq<Seq<char>>, r: RunResults) -> Seq<Seq<char>> {
    let head = out.push(""@).push(
        "Valid:     "@ + (if r.valid {
            "YES"@
        } else {
            "NO"@
        }),
    );
    let against = if r.validity_violations@.len() > 0 {
        head.push("Violations:"@) + text::views(r.validity_violations@).map_values(
            |e: Seq<char>| "  - "@ + e,
        )
    } else {
        head
    };
    match r.scorecard {
        Some(c) => scorecard_lines(against, c),
        None => against,
    }
}

/// The line of a condition.
pub open spec fn condition_line(c: Condition) -> Seq<char> {
    "  "@ + c.condition_type@ + " = "@ + c.status@ + (match c.message {
        Some(m) => " ("@ + m@ + ")"@,
        None => Seq::<char>::empty(),
    })
}

/// The conditions of a run.
pub open spec fn condition_lines(out: Seq<Seq<char>>, c: Seq<Condition>) -> Seq<Seq<char>> {
    if c.len() > 0 {
        out.push(""@).push("Conditions:"@) + c.map_values(|x: Condition| condition_line(x))
    } else {
        out
    }
}

/// What is said of a run that has a status.
pub open spec fn with_status(out: Seq<Seq<char>>, s: IncidentBenchRunStatus) -> Seq<Seq<char>> {
    let a = out.push("Phase:     "@ + s.phase.label());
    let b = if_any(a, "Run ID:    "@, text::opt_view(s.run_id));
    let c = if_any(b, "Started:   "@, text::opt_view(s.start_time));
    let d = if_any(c, "Benchmark Phase: "@, text::opt_view(s.current_benchmark_phase));
    let e = match s.workers {
        Some(w) => d.push(workers_line(w)),
        None => d,
    };
    let f = match s.progress {
        Some(p) => progress_lines(e, p),
        None => e,
    };
    let g = match s.results {
        Some(r) => results_lines(f, r),
        None => f,
    };
    condition_lines(g, s.conditions@)
}

/// What is said of a run.
pub open spec fn status_text(
    name: Seq<char>,
    namespace: Seq<char>,
    status: Option<IncidentBenchRunStatus>,
) -> Seq<Seq<char>> {
    let head = Seq::<Seq<char>>::empty().push("Name:      "@ + name).push(
        "Namespace: "@ + namespace,
    );
    match status {
        Some(s) => with_status(head, s),
        None => head.push("Phase:     Pending (no status yet)"@),
    }
}

/// The results of a run can be told.
pub open spec fn tellable(status: Option<IncidentBenchRunStatus>) -> bool {
    match status {
        Some(s) => match s.results {
            Some(r) => match r.scorecard {
                Some(c) => c.printable(),
                None => true,
            },
            None => true,
        },
        None => true,
    }
}

fn put_if_any(out: &mut Vec<String>, label: &str, t: &Option<String>)
    ensures
        text::views(final(out)@) == if_any(text::views(old(out)@), label@, text::opt_view(*t)),
{
    match t {
        Some(x) => {
            put(out, text::join2(label, x.as_str()));
        },
        None => {},
    }
}

fn put_workers(out: &mut Vec<String>, w: &WorkerStatus)
    ensures
        text::views(final(out)@) == text::views(old(out)@).push(workers_line(*w)),
{
    let mut line = text::owned("Workers:   ingest ");
    line.append(text::decimal_u64(w.ingest_ready as u64).as_str());
    line.append("/");
    line.append(text::decimal_u64(w.ingest_desired as u64).as_str());
    line.append(", query ");
    line.append(text::decimal_u64(w.query_ready as u64).as_str());
    line.append("/");
    line.append(text::decimal_u64(w.query_desired as u64).as_str());
    put(out, line);
}

fn put_progress(out: &mut Vec<String>, p: &ProgressStatus)
    ensures
        text::views(final(out)@) == progress_lines(text::views(old(out)@), *p),
{
    let percent = if p.total_seconds > 0 {
        decimal::fixed_of(p.elapsed_seconds as u128 * 100, p.total_seconds as u128, 0)
    } else {
        decimal::fixed_of(0, 1, 0)
    };
    let mut line = text::owned("Progress:  ");
    line.append(text::decimal_u64(p.elapsed_seconds).as_str());
    line.append("/");
    line.append(text::decimal_u64(p.total_seconds).as_str());
    line.append("s (");
    line.append(percent.as_str());
    line.append("%)");
    put(out, line);
    put(
        out,
        text::join5(
            "Ingest:    ",
            text::decimal_u64(p.achieved_ingest_eps).as_str(),
            " / ",
            text::decimal_u64(p.target_ingest_eps).as_str(),
            " EPS",
        ),
    );
    put(
        out,
        text::join5(
            "Query:     ",
            decimal::fixed_of(p.achieved_query_uqps as u128, 1_000_000, 1).as_str(),
            " / ",
            decimal::fixed_of(p.target_query_uqps as u128, 1_000_000, 1).as_str(),
            " QPS",
        ),
    );
    put(out, text::join2("Kafka Lag: ", text::decimal_u64(p.kafka_consumer_lag).as_str()));
}

fn put_scorecard(out: &mut Vec<String>, c: &Scorecard)
    requires
        c.printable(),
    ensures
        text::views(final(out)@) == scorecard_lines(text::views(old(out)@), *c),
{
    say(out, "");
    say(out, "Scorecard:");
    put(
        out,
        text::join3(
            "  Baseline p99:     ",
            html_report::ms_text_of(c.baseline_p99_ns).as_str(),
            " ms",
        ),
    );
    put(
        out,
        text::join3(
            "  Overlap p99:      ",
            html_report::ms_text_of(c.overlap_p99_ns).as_str(),
            " ms",
        ),
    );
    put(
        out,
        text::join3(
            "  Degradation:      ",
            html_report::ratio_text_of(c.p99_degradation_ratio).as_str(),
            "x",
        ),
    );
    put(
        out,
        text::join3(
            "  Error Rate:       ",
            html_report::percent_text_of(c.query_error_rate_overlap).as_str(),
            "%",
        ),
    );
    put(out, text::join2("  Peak Backlog:     ", text::decimal_u64(c.peak_backlog).as_str()));
    put(
        out,
        text::join3(
            "  Drain Time:       ",
            decimal::fixed_of(c.backlog_drain_time_s as u128, 1, 1).as_str(),
            "s",
        ),
    );
    put(
        out,
        text::join3(
            "  Recovery Time:    ",
            decimal::fixed_of(c.recovery_time_s as u128, 1, 1).as_str(),
            "s",
        ),
    );
}

fn put_results(out: &mut Vec<String>, r: &RunResults)
    requires
        r.scorecard is Some ==> r.scorecard->0.printable(),
    ensures
        text::views(final(out)@) == results_lines(text::views(old(out)@), *r),
{
    say(out, "");
    if r.valid {
        put(out, text::join2("Valid:     ", "YES"));
    } else {
        put(out, text::join2("Valid:     ", "NO"));
    }
    if r.validity_violations.len() > 0 {
        say(out, "Violations:");
        put_items(out, &r.validity_violations);
    }
    match &r.scorecard {
        Some(c) => {
            put_scorecard(out, c);
        },
        None => {},
    }
}

fn condition_line_of(c: &Condition) -> (r: String)
    ensures
        r@ == condition_line(*c),
{
    let mut out = text::owned("  ");
    out.append(c.condition_type.as_str());
    out.append(" = ");
    out.append(c.status.as_str());
    match &c.message {
        Some(m) => {
            let note = text::join3(" (", m.as_str(), ")");
            out.append(note.as_str());
        },
        None => {
            assert(out@ + Seq::<char>::empty() =~= out@);
        },
    }
    out
}

fn put_conditions(out: &mut Vec<String>, c: &Vec<Condition>)
    ensures
        text::views(final(out)@) == condition_lines(text::views(old(out)@), c@),
{
    if c.len() == 0 {
        return ;
    }
    say(out, "");
    say(out, "Conditions:");
    let ghost before = text::views(out@);
    let ghost all = c@.map_values(|x: Condition| condition_line(x));
    let mut i: usize = 0;
    assert(text::views(out@) =~= before + all.take(0));
    while i < c.len()
        invariant
            i <= c@.len(),
            before == text::views(old(out)@).push(""@).push("Conditions:"@),
            all == c@.map_values(|x: Condition| condition_line(x)),
            text::views(out@) == before + all.take(i as int),
        decreases c@.len() - i,
    {
        put(out, condition_line_of(&c[i]));
        i += 1;
        assert(before + all.take(i as int) =~= (before + all.take(i - 1)).push(all[i - 1]));
    }
    assert(all.take(i as int) =~= all);
}

/// What is said of a run, line by line.
pub fn status_lines(name: &str, namespace: &str, status: &Option<IncidentBenchRunStatus>) -> (out: Vec<
    String,
>)
    requires
        tellable(*status),
    ensures
        text::views(out@) == status_text(name@, namespace@, *status),
{
    let mut out = no_lines();
    put(&mut out, text::join2("Name:      ", name));
    put(&mut out, text::join2("Namespace: ", namespace));
    match status {
        Some(s) => {
            put(&mut out, text::join2("Phase:     ", s.phase.name()));
            put_if_any(&mut out, "Run ID:    ", &s.run_id);
            put_if_any(&mut out, "Started:   ", &s.start_time);
            put_if_any(&mut out, "Benchmark Phase: ", &s.current_benchmark_phase);
            match &s.workers {
                Some(w) => {
                    put_workers(&mut out, w);
                },
                None => {},
            }
            match &s.progress {
                Some(p) => {
                    put_progress(&mut out, p);
                },
                None => {},
            }
            match &s.results {
                Some(r) => {
                    put_results(&mut out, r);
                },
                None => {},
            }
            put_conditions(&mut out, &s.conditions);
        },
        None => {
            say(&mut out, "Phase:     Pending (no status yet)");
        },
    }
    out
}

// ---------------------------------------------------------------------------
// All runs
// ---------------------------------------------------------------------------

/// An age in its greatest unit: hours, minutes or seconds.
pub open spec fn age(seconds: int) -> Seq<char> {
    if seconds >= 3600 {
        text::decimal((seconds / 3600) as nat) + "h"@
    } else if seconds >= 60 {
        text::decimal((seconds / 60) as nat) + "m"@
    } else {
        text::signed_decimal(seconds) + "s"@
    }
}

/// An age in its greatest unit.
pub fn age_text(seconds: i64) -> (r: String)
    ensures
        r@ == age(seconds as int),
{
    if seconds >= 3600 {
        text::join2(text::decimal_u64((seconds / 3600) as u64).as_str(), "h")
    } else if seconds >= 60 {
        text::join2(text::decimal_u64((seconds / 60) as u64).as_str(), "m")
    } else {
        text::join2(text::decimal_i64(seconds).as_str(), "s")
    }
}

/// A row of the list of runs.
pub open spec fn columns(a: Seq<char>, b: Seq<char>, c: Seq<char>, d: Seq<char>) -> Seq<char> {
    to_left(a, 30) + " "@ + to_left(b, 15) + " "@ + to_left(c, 15) + " "@ + to_left(d, 10)
}

fn columns_of(a: &str, b: &str, c: &str, d: &str) -> (r: String)
    ensures
        r@ == columns(a@, b@, c@, d@),
{
    let mut out = pad_right(a, 30);
    out.append(" ");
    out.append(pad_right(b, 15).as_str());
    out.append(" ");
    out.append(pad_right(c, 15).as_str());
    out.append(" ");
    out.append(pad_right(d, 10).as_str());
    out
}

/// The head of the list of runs.
pub fn list_header() -> (r: String)
    ensures
        r@ == columns("NAME"@, "PHASE"@, "BENCHMARK"@, "AGE"@),
{
    columns_of("NAME", "PHASE", "BENCHMARK", "AGE")
}

/// The row of a run. One without a status is pending; what is not known stands as a hyphen.
pub fn list_row(name: &str, status: &Option<IncidentBenchRunStatus>, age_seconds: Option<i64>) -> (r:
    String)
    ensures
        r@ == columns(
            name@,
            match *status {
                Some(s) => s.phase.label(),
                None => "Pending"@,
            },
            match *status {
                Some(s) => match s.current_benchmark_phase {
                    Some(p) => p@,
                    None => "-"@,
                },
                None => "-"@,
            },
            match age_seconds {
                Some(n) => age(n as int),
                None => "-"@,
            },
        ),
{
    let old_text = match age_seconds {
        Some(n) => age_text(n),
        None => text::owned("-"),
    };
    match status {
        Some(s) => match &s.current_benchmark_phase {
            Some(p) => columns_of(name, s.phase.name(), p.as_str(), old_text.as_str()),
            None => columns_of(name, s.phase.name(), "-", old_text.as_str()),
        },
        None => columns_of(name, "Pending", "-", old_text.as_str()),
    }
}

/// What is said where there are no runs.
pub fn no_runs(namespace: &str) -> (r: String)
    ensures
        r@ == "No IncidentBenchRun resources found in namespace '"@ + namespace@ + "'"@,
{
    text::join3("No IncidentBenchRun resources found in namespace '", namespace, "'")
}

/// What is said before a run is deleted.
pub fn deleting_lines(name: &str, namespace: &str) -> (out: Vec<String>)
    ensures
        text::views(out@) == Seq::<Seq<char>>::empty().push(
            "Deleting IncidentBenchRun '"@ + name@ + "' in namespace '"@ + namespace@ + "'..."@,
        ).push(
            "The operator's finalizer will clean up Kafka topics and Mach5 resources."@,
        ),
{
    let mut out = no_lines();
    put(
        &mut out,
        text::join5("Deleting IncidentBenchRun '", name, "' in namespace '", namespace, "'..."),
    );
    say(&mut out, "The operator's finalizer will clean up Kafka topics and Mach5 resources.");
    out
}

/// What is said when a run is being deleted.
pub fn deleted_line(name: &str) -> (r: String)
    ensures
        r@ == "Deletion initiated. Use 'incidentbench status "@ + name@ + "' to check progress."@,
{
    text::join3("Deletion initiated. Use 'incidentbench status ", name, "' to check progress.")
}

} // verus!
