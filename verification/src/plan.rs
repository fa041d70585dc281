//! Which resources a run has: those that are deployed, watched, scaled down and, in the
//! end, deleted.
use vstd::prelude::*;
use vstd::string::*;
use crate::configmaps;
use crate::configmaps::CommonView;
use crate::crd::{ImageSpec, QueryGroupSpec, WorkerSpec};
use crate::json;
use crate::json::{Doc, Json};
use crate::lifecycle;
use crate::model;
use crate::resources;
use crate::resources::{IdentityView, RunIdentity};
use crate::scenario::{DataStream, Scenario, ScenarioView, StreamView};
use crate::text;

verus! {

/// The names of a run's parts.
pub open spec fn part_names(run_name: Seq<char>, parts: Seq<Seq<char>>) -> Seq<Seq<char>> {
    parts.map_values(|p: Seq<char>| resources::part_name(run_name, p))
}

/// The names of the parts that belong to the streams.
pub open spec fn stream_parts(run_name: Seq<char>, streams: Seq<StreamView>) -> Seq<Seq<char>> {
    streams.map_values(|s: StreamView| resources::sub_part_name(run_name, "ingest"@, s.name))
}

/// The names of the parts that belong to the groups.
pub open spec fn group_parts(run_name: Seq<char>, groups: Seq<QueryGroupSpec>) -> Seq<Seq<char>> {
    groups.map_values(
        |g: QueryGroupSpec| resources::sub_part_name(run_name, "query"@, g.name@),
    )
}

/// The groups of query workers, none where there are none.
pub open spec fn group_list(workers: WorkerSpec) -> Seq<QueryGroupSpec> {
    match workers.query_groups {
        Some(g) => g@,
        None => Seq::empty(),
    }
}

fn push_parts(out: &mut Vec<String>, run_name: &str, parts: &Vec<String>)
    ensures
        text::views(final(out)@) == text::views(old(out)@) + part_names(
            run_name@,
            text::views(parts@),
        ),
{
    let ghost start = text::views(out@);
    let ghost all = part_names(run_name@, text::views(parts@));
    let mut i: usize = 0;
    assert(text::views(out@) =~= start + all.take(0));
    while i < parts.len()
        invariant
            i <= parts@.len(),
            all == part_names(run_name@, text::views(parts@)),
            text::views(out@) == start + all.take(i as int),
        decreases parts@.len() - i,
    {
        broadcast use model::views_push, model::take_push;

        assert(text::views(parts@)[i as int] == parts@[i as int]@);
        out.push(resources::part_name_of(run_name, parts[i].as_str()));
        assert(text::views(out@) =~= start + all.take(i + 1));
        i += 1;
    }
    assert(all.take(i as int) =~= all);
}

fn push_streams(out: &mut Vec<String>, run_name: &str, streams: &Option<Vec<DataStream>>)
    ensures
        text::views(final(out)@) == text::views(old(out)@) + (match model::opt_vmap(*streams) {
            Some(s) => stream_parts(run_name@, s),
            None => Seq::empty(),
        }),
{
    let ghost start = text::views(out@);
    match streams {
        None => {
            assert(start + Seq::<Seq<char>>::empty() =~= start);
        },
        Some(streams) => {
            let ghost all = stream_parts(run_name@, model::vmap(streams@));
            let mut i: usize = 0;
            assert(text::views(out@) =~= start + all.take(0));
            while i < streams.len()
                invariant
                    i <= streams@.len(),
                    all == stream_parts(run_name@, model::vmap(streams@)),
                    text::views(out@) == start + all.take(i as int),
                decreases streams@.len() - i,
            {
                broadcast use model::views_push, model::take_push;

                assert(model::vmap(streams@)[i as int] == streams@[i as int]@);
                out.push(
                    resources::sub_part_name_of(run_name, "ingest", streams[i].name.as_str()),
                );
                assert(text::views(out@) =~= start + all.take(i + 1));
                i += 1;
            }
            assert(all.take(i as int) =~= all);
        },
    }
}

fn push_groups(out: &mut Vec<String>, run_name: &str, workers: &WorkerSpec)
    ensures
        text::views(final(out)@) == text::views(old(out)@) + group_parts(
            run_name@,
            group_list(*workers),
        ),
{
    let ghost start = text::views(out@);
    match &workers.query_groups {
        None => {
            assert(start + group_parts(run_name@, group_list(*workers)) =~= start);
        },
        Some(groups) => {
            let ghost all = group_parts(run_name@, groups@);
            let mut i: usize = 0;
            assert(text::views(out@) =~= start + all.take(0));
            while i < groups.len()
                invariant
                    i <= groups@.len(),
                    all == group_parts(run_name@, groups@),
                    text::views(out@) == start + all.take(i as int),
                decreases groups@.len() - i,
            {
                broadcast use model::views_push, model::take_push;

                out.push(
                    resources::sub_part_name_of(run_name, "query", groups[i].name.as_str()),
                );
                assert(text::views(out@) =~= start + all.take(i + 1));
                i += 1;
            }
            assert(all.take(i as int) =~= all);
        },
    }
}

// ---------------------------------------------------------------------------
// Watching and scaling down
// ---------------------------------------------------------------------------

/// The deployments whose health is looked at, in order.
pub open spec fn watched(run_name: Seq<char>, streams: Seq<StreamView>, workers: WorkerSpec) -> Seq<
    Seq<char>,
> {
    part_names(run_name, seq!["phase-controller"@, "aggregator"@, "query"@]) + group_parts(
        run_name,
        group_list(workers),
    ) + stream_parts(run_name, streams)
}

/// The streams of a scenario, none where it is not known.
pub open spec fn streams_of(streams: Option<Vec<DataStream>>) -> Seq<StreamView> {
    match model::opt_vmap(streams) {
        Some(s) => s,
        None => Seq::empty(),
    }
}

/// The deployments whose health is looked at, in order. Where the scenario is not known, so
/// are its streams, and only theirs are left out.
pub fn watched_deployments(
    run_name: &str,
    streams: &Option<Vec<DataStream>>,
    workers: &WorkerSpec,
) -> (r: Vec<String>)
    ensures
        text::views(r@) == watched(run_name@, streams_of(*streams), *workers),
{
    let parts = vec![
        text::owned("phase-controller"),
        text::owned("aggregator"),
        text::owned("query"),
    ];
    assert(text::views(parts@) =~= seq!["phase-controller"@, "aggregator"@, "query"@]);
    let mut out: Vec<String> = Vec::new();
    assert(text::views(out@) + part_names(run_name@, text::views(parts@)) =~= part_names(
        run_name@,
        text::views(parts@),
    ));
    push_parts(&mut out, run_name, &parts);
    push_groups(&mut out, run_name, workers);
    push_streams(&mut out, run_name, streams);
    assert(text::views(out@) =~= watched(run_name@, streams_of(*streams), *workers));
    out
}

/// The deployments that are scaled to nothing when the timeline is over, in order. The
/// aggregator goes on until the results are fetched.
pub open spec fn scaled_down(
    run_name: Seq<char>,
    streams: Seq<StreamView>,
    workers: WorkerSpec,
) -> Seq<Seq<char>> {
    part_names(run_name, seq!["query"@, "phase-controller"@]) + stream_parts(run_name, streams)
        + group_parts(run_name, group_list(workers))
}

/// The deployments that are scaled to nothing when the timeline is over, in order. Where the
/// scenario is not known, so are its streams, and only theirs are left out.
pub fn deployments_to_scale_down(
    run_name: &str,
    streams: &Option<Vec<DataStream>>,
    workers: &WorkerSpec,
) -> (r: Vec<String>)
    ensures
        text::views(r@) == scaled_down(run_name@, streams_of(*streams), *workers),
{
    let parts = vec![text::owned("query"), text::owned("phase-controller")];
    assert(text::views(parts@) =~= seq!["query"@, "phase-controller"@]);
    let mut out: Vec<String> = Vec::new();
    assert(text::views(out@) + part_names(run_name@, text::views(parts@)) =~= part_names(
        run_name@,
        text::views(parts@),
    ));
    push_parts(&mut out, run_name, &parts);
    push_streams(&mut out, run_name, streams);
    push_groups(&mut out, run_name, workers);
    assert(text::views(out@) =~= scaled_down(run_name@, streams_of(*streams), *workers));
    out
}

/// The patch by which a deployment has no replicas.
pub fn scale_down_patch() -> (r: Json)
    ensures
        r.doc() == Doc::object().with("spec"@, Doc::object().with("replicas"@, Doc::Uint(0))),
{
    Json::object().with("spec", Json::object().with("replicas", Json::Uint(0)))
}

// ---------------------------------------------------------------------------
// Deleting
// ---------------------------------------------------------------------------

/// What is deleted when a run is taken down: the names of its deployments, services and
/// ConfigMaps, and its topics.
pub struct CleanupPlan {
    pub deployments: Vec<String>,
    pub services: Vec<String>,
    pub config_maps: Vec<String>,
    pub topics: Vec<String>,
}

pub struct CleanupView {
    pub deployments: Seq<Seq<char>>,
    pub services: Seq<Seq<char>>,
    pub config_maps: Seq<Seq<char>>,
    pub topics: Seq<Seq<char>>,
}

impl View for CleanupPlan {
    type V = CleanupView;

    open spec fn view(&self) -> CleanupView {
        CleanupView {
            deployments: text::views(self.deployments@),
            services: text::views(self.services@),
            config_maps: text::views(self.config_maps@),
            topics: text::views(self.topics@),
        }
    }
}

/// The topics of the streams.
pub open spec fn topics(streams: Seq<StreamView>) -> Seq<Seq<char>> {
    streams.map_values(|s: StreamView| s.schema.index_name)
}

/// What is deleted when a run with these streams is taken down.
pub open spec fn cleanup_view(
    run_name: Seq<char>,
    streams: Seq<StreamView>,
    workers: WorkerSpec,
) -> CleanupView {
    let groups = group_list(workers);
    CleanupView {
        deployments: part_names(run_name, seq!["aggregator"@, "phase-controller"@, "query"@])
            + stream_parts(run_name, streams) + group_parts(run_name, groups),
        services: part_names(run_name, seq!["phase-controller"@, "aggregator"@]),
        config_maps: part_names(
            run_name,
            seq![
                "scenario"@,
                "phase-controller"@,
                "aggregator"@,
                "query"@,
                "prepare"@,
                "sql-files"@,
            ],
        ) + stream_parts(run_name, streams) + group_parts(run_name, groups),
        topics: topics(streams),
    }
}

fn topics_of(streams: &Option<Vec<DataStream>>) -> (r: Vec<String>)
    ensures
        text::views(r@) == (match model::opt_vmap(*streams) {
            Some(s) => topics(s),
            None => Seq::empty(),
        }),
{
    let mut out: Vec<String> = Vec::new();
    match streams {
        None => {
            assert(text::views(out@) =~= Seq::empty());
        },
        Some(streams) => {
            let ghost all = topics(model::vmap(streams@));
            let mut i: usize = 0;
            assert(text::views(out@) =~= all.take(0));
            while i < streams.len()
                invariant
                    i <= streams@.len(),
                    all == topics(model::vmap(streams@)),
                    text::views(out@) == all.take(i as int),
                decreases streams@.len() - i,
            {
                broadcast use model::views_push, model::take_push;

                assert(model::vmap(streams@)[i as int] == streams@[i as int]@);
                out.push(streams[i].schema.index_name.clone());
                i += 1;
            }
            assert(all.take(i as int) =~= all);
        },
    }
    out
}

/// What is deleted when a run is taken down. Where its scenario is not known, so are its
/// streams, and nothing of theirs is deleted.
pub fn handle_cleanup(
    run_name: &str,
    streams: &Option<Vec<DataStream>>,
    workers: &WorkerSpec,
) -> (r: CleanupPlan)
    ensures
        r@ == cleanup_view(run_name@, streams_of(*streams), *workers),
{
    let ghost sv = streams_of(*streams);
    let deploy_parts = vec![
        text::owned("aggregator"),
        text::owned("phase-controller"),
        text::owned("query"),
    ];
    assert(text::views(deploy_parts@) =~= seq!["aggregator"@, "phase-controller"@, "query"@]);
    let service_parts = vec![text::owned("phase-controller"), text::owned("aggregator")];
    assert(text::views(service_parts@) =~= seq!["phase-controller"@, "aggregator"@]);
    let map_parts = vec![
        text::owned("scenario"),
        text::owned("phase-controller"),
        text::owned("aggregator"),
        text::owned("query"),
        text::owned("prepare"),
        text::owned("sql-files"),
    ];
    assert(text::views(map_parts@) =~= seq![
        "scenario"@,
        "phase-controller"@,
        "aggregator"@,
        "query"@,
        "prepare"@,
        "sql-files"@,
    ]);
    let mut deployments: Vec<String> = Vec::new();
    push_parts(&mut deployments, run_name, &deploy_parts);
    push_streams(&mut deployments, run_name, streams);
    push_groups(&mut deployments, run_name, workers);
    let mut services: Vec<String> = Vec::new();
    push_parts(&mut services, run_name, &service_parts);
    let mut config_maps: Vec<String> = Vec::new();
    push_parts(&mut config_maps, run_name, &map_parts);
    push_streams(&mut config_maps, run_name, streams);
    push_groups(&mut config_maps, run_name, workers);
    let r = CleanupPlan { deployments, services, config_maps, topics: topics_of(streams) };
    proof {
        let want = cleanup_view(run_name@, sv, *workers);
        if model::opt_vmap(*streams) is None {
            assert(stream_parts(run_name@, sv) =~= Seq::empty());
            assert(topics(sv) =~= Seq::empty());
        }
        assert(r@.deployments =~= want.deployments);
        assert(r@.services =~= want.services);
        assert(r@.config_maps =~= want.config_maps);
        assert(r@.topics =~= want.topics);
    }
    r
}

// ---------------------------------------------------------------------------
// Deploying
// ---------------------------------------------------------------------------

/// The query workers: those of the groups where there are groups, else those asked for.
pub open spec fn query_deployments(
    run_name: Seq<char>,
    workers: WorkerSpec,
    image: Seq<char>,
    run: IdentityView,
    sql: Option<Seq<char>>,
) -> Seq<(Seq<char>, Doc)> {
    match workers.query_groups {
        Some(groups) => Seq::new(
            groups@.len(),
            |i: int|
                (
                    resources::sub_part_name(run_name, "query"@, groups@[i].name@),
                    resources::group_deployments(run_name, groups@, image, run, sql)[i],
                ),
        ),
        None => seq![
            (
                resources::part_name(run_name, "query"@),
                resources::query_deployment_doc(
                    run_name,
                    workers.query.replicas,
                    image,
                    resources::resources_doc(workers.query.resources),
                    run,
                    sql,
                ),
            ),
        ],
    }
}

/// The deployments of a run, by name, in the order in which they are applied: the
/// aggregator, the phase controller, the ingest workers of each stream, the query workers.
pub open spec fn deployments(
    run_name: Seq<char>,
    s: ScenarioView,
    workers: WorkerSpec,
    image: Seq<char>,
    run: IdentityView,
    sql: Option<Seq<char>>,
) -> Seq<(Seq<char>, Doc)> {
    let streams = s.stream_list();
    let docs = resources::ingest_deployments(
        run_name,
        streams,
        image,
        resources::resources_doc(workers.ingest.resources),
        run,
    );
    seq![
        (
            resources::part_name(run_name, "aggregator"@),
            resources::aggregator_deployment_doc(run_name, image, run),
        ),
        (
            resources::part_name(run_name, "phase-controller"@),
            resources::phase_controller_deployment_doc(run_name, image, run),
        ),
    ] + Seq::new(
        streams.len(),
        |i: int| (resources::sub_part_name(run_name, "ingest"@, streams[i].name), docs[i]),
    ) + query_deployments(run_name, workers, image, run, sql)
}

fn query_deployments_of(
    run_name: &str,
    workers: &WorkerSpec,
    images: &Option<ImageSpec>,
    run: &RunIdentity,
    sql: &Option<String>,
) -> (r: Vec<(String, Json)>)
    ensures
        model::vmap(r@) == query_deployments(
            run_name@,
            *workers,
            resources::worker_image(*images),
            run@,
            text::opt_view(*sql),
        ),
{
    let ghost image = resources::worker_image(*images);
    let ghost want = query_deployments(run_name@, *workers, image, run@, text::opt_view(*sql));
    let mut out: Vec<(String, Json)> = Vec::new();
    match &workers.query_groups {
        Some(groups) => {
            let docs = resources::build_query_worker_group_deployments(
                run_name,
                groups,
                images,
                run,
                sql,
            );
            let ghost dv = resources::doc_list(docs@);
            assert(dv.len() == docs@.len());
            let mut i: usize = 0;
            assert(model::vmap(out@) =~= want.take(0));
            while i < groups.len()
                invariant
                    i <= groups@.len() == docs@.len(),
                    dv == resources::doc_list(docs@),
                    want == Seq::new(
                        groups@.len(),
                        |i: int|
                            (
                                resources::sub_part_name(run_name@, "query"@, groups@[i].name@),
                                dv[i],
                            ),
                    ),
                    model::vmap(out@) == want.take(i as int),
                decreases groups@.len() - i,
            {
                broadcast use model::vmap_push, model::take_push;

                assert(dv[i as int] == docs@[i as int].doc());
                out.push(
                    (
                        resources::sub_part_name_of(run_name, "query", groups[i].name.as_str()),
                        docs[i].copy(),
                    ),
                );
                i += 1;
            }
            assert(want.take(i as int) =~= want);
        },
        None => {
            out.push(
                (
                    resources::part_name_of(run_name, "query"),
                    resources::build_query_worker_deployment(
                        run_name,
                        workers.query.replicas,
                        images,
                        &workers.query.resources,
                        run,
                        sql,
                    ),
                ),
            );
            assert(model::vmap(out@) =~= want);
        },
    }
    out
}

/// The deployments of a run, by name, in the order in which they are applied.
pub fn build_deployments(
    run_name: &str,
    scenario: &Scenario,
    workers: &WorkerSpec,
    images: &Option<ImageSpec>,
    run: &RunIdentity,
    sql: &Option<String>,
) -> (r: Vec<(String, Json)>)
    ensures
        model::vmap(r@) == deployments(
            run_name@,
            scenario@,
            *workers,
            resources::worker_image(*images),
            run@,
            text::opt_view(*sql),
        ),
{
    let ghost image = resources::worker_image(*images);
    let ghost want = deployments(
        run_name@,
        scenario@,
        *workers,
        image,
        run@,
        text::opt_view(*sql),
    );
    let mut out: Vec<(String, Json)> = Vec::new();
    out.push(
        (
            resources::part_name_of(run_name, "aggregator"),
            resources::build_aggregator_deployment(run_name, images, run),
        ),
    );
    out.push(
        (
            resources::part_name_of(run_name, "phase-controller"),
            resources::build_phase_controller_deployment(run_name, images, run),
        ),
    );
    let ghost front = model::vmap(out@);
    let none: Vec<DataStream> = Vec::new();
    assert(model::vmap(none@) =~= Seq::empty());
    let streams = match &scenario.data_streams {
        Some(s) => s,
        None => &none,
    };
    let ghost sv = scenario@.stream_list();
    assert(model::vmap(streams@) == sv);
    let docs = resources::build_ingest_stream_deployments(
        run_name,
        streams,
        images,
        &workers.ingest.resources,
        run,
    );
    let ghost dv = resources::doc_list(docs@);
    let ghost ingest = Seq::new(
        sv.len(),
        |i: int| (resources::sub_part_name(run_name@, "ingest"@, sv[i].name), dv[i]),
    );
    assert(dv.len() == docs@.len());
    let mut i: usize = 0;
    assert(model::vmap(out@) =~= front + ingest.take(0));
    while i < streams.len()
        invariant
            i <= streams@.len() == docs@.len(),
            model::vmap(streams@) == sv,
            dv == resources::doc_list(docs@),
            ingest == Seq::new(
                sv.len(),
                |i: int| (resources::sub_part_name(run_name@, "ingest"@, sv[i].name), dv[i]),
            ),
            model::vmap(out@) == front + ingest.take(i as int),
        decreases streams@.len() - i,
    {
        broadcast use model::vmap_push, model::take_push;

        assert(sv[i as int] == streams@[i as int]@);
        assert(dv[i as int] == docs@[i as int].doc());
        out.push(
            (
                resources::sub_part_name_of(run_name, "ingest", streams[i].name.as_str()),
                docs[i].copy(),
            ),
        );
        assert(model::vmap(out@) =~= front + ingest.take(i + 1));
        i += 1;
    }
    assert(ingest.take(i as int) =~= ingest);
    let mut query = query_deployments_of(run_name, workers, images, run, sql);
    let ghost before = out@;
    let ghost tail = query@;
    out.append(&mut query);
    proof {
        assert(model::vmap(out@) =~= model::vmap(before) + model::vmap(tail));
        assert(model::vmap(out@) =~= want);
    }
    out
}

// ---------------------------------------------------------------------------
// Nothing is left behind
// ---------------------------------------------------------------------------

/// Every deployment of a run is deleted when the run is taken down.
pub proof fn deployments_are_cleaned_up(
    run_name: Seq<char>,
    s: ScenarioView,
    workers: WorkerSpec,
    image: Seq<char>,
    run: IdentityView,
    sql: Option<Seq<char>>,
    i: int,
)
    requires
        0 <= i < deployments(run_name, s, workers, image, run, sql).len(),
    ensures
        cleanup_view(run_name, s.stream_list(), workers).deployments.contains(
            deployments(run_name, s, workers, image, run, sql)[i].0,
        ),
{
    let made = deployments(run_name, s, workers, image, run, sql);
    let gone = cleanup_view(run_name, s.stream_list(), workers).deployments;
    let n = s.stream_list().len() as int;
    let fixed = part_names(run_name, seq!["aggregator"@, "phase-controller"@, "query"@]);
    let name = made[i].0;
    if i < 2 {
        assert(gone[i] == name);
    } else if i < 2 + n {
        assert(gone[3 + (i - 2)] == name);
    } else {
        let k = i - 2 - n;
        assert(made[i] == query_deployments(run_name, workers, image, run, sql)[k]);
        match workers.query_groups {
            Some(groups) => {
                assert(gone[3 + n + k] == name);
            },
            None => {
                assert(gone[2] == name);
            },
        }
    }
}

/// Every ConfigMap of a run's workers is deleted when the run is taken down.
pub proof fn config_maps_are_cleaned_up(
    c: CommonView,
    s: ScenarioView,
    workers: WorkerSpec,
    groups: Seq<(Seq<char>, Seq<char>)>,
    endpoints: Seq<(Seq<char>, Seq<char>)>,
    run: IdentityView,
    i: int,
)
    requires
        0 <= i < configmaps::worker_maps(c, s, workers, groups, endpoints, run).len(),
    ensures
        cleanup_view(c.run_name, s.stream_list(), workers).config_maps.contains(
            configmaps::worker_maps(c, s, workers, groups, endpoints, run)[i].name,
        ),
{
    let made = configmaps::worker_maps(c, s, workers, groups, endpoints, run);
    let gone = cleanup_view(c.run_name, s.stream_list(), workers).config_maps;
    let n = s.stream_list().len() as int;
    let name = made[i].name;
    if i < 3 {
        assert(gone[i] == name);
    } else if i < 3 + n {
        assert(gone[6 + (i - 3)] == name);
    } else if i == 3 + n {
        assert(gone[3] == name);
    } else {
        assert(gone[6 + n + (i - 4 - n)] == name);
    }
}

/// The other ConfigMaps of a run, those that hold what preparing the target gave and the SQL
/// files, are deleted when the run is taken down.
pub proof fn shared_config_maps_are_cleaned_up(
    run_name: Seq<char>,
    streams: Seq<StreamView>,
    workers: WorkerSpec,
    groups: Seq<(Seq<char>, Seq<char>)>,
    endpoints: Seq<(Seq<char>, Seq<char>)>,
    files: Seq<(Seq<char>, Seq<char>)>,
    run: IdentityView,
)
    ensures
        cleanup_view(run_name, streams, workers).config_maps.contains(
            configmaps::prepare_result_map(run_name, groups, endpoints, run).name,
        ),
        configmaps::sql_files_map(run_name, files, run) matches Some(m) ==> cleanup_view(
            run_name,
            streams,
            workers,
        ).config_maps.contains(m.name),
{
    let gone = cleanup_view(run_name, streams, workers).config_maps;
    assert(gone[4] == resources::part_name(run_name, "prepare"@));
    assert(gone[5] == resources::part_name(run_name, "sql-files"@));
}

/// The topic of every stream is deleted when the run is taken down.
pub proof fn topics_are_cleaned_up(
    run_name: Seq<char>,
    streams: Seq<StreamView>,
    workers: WorkerSpec,
    i: int,
)
    requires
        0 <= i < streams.len(),
    ensures
        cleanup_view(run_name, streams, workers).topics.contains(lifecycle::topic(streams[i]).0),
{
    assert(cleanup_view(run_name, streams, workers).topics[i] == streams[i].schema.index_name);
}

/// The name that a resource has.
pub open spec fn resource_name(resource: Doc) -> Option<Seq<char>> {
    match resource.get("metadata"@) {
        Some(m) => match m.get("name"@) {
            Some(n) => n.as_text(),
            None => None,
        },
        None => None,
    }
}

/// The services of a run are deleted when the run is taken down.
pub proof fn services_are_cleaned_up(
    run_name: Seq<char>,
    streams: Seq<StreamView>,
    workers: WorkerSpec,
    run: IdentityView,
)
    ensures
        resource_name(resources::phase_controller_service_doc(run_name, run)) matches Some(n)
            && cleanup_view(run_name, streams, workers).services.contains(n),
        resource_name(resources::aggregator_service_doc(run_name, run)) matches Some(n)
            && cleanup_view(run_name, streams, workers).services.contains(n),
{
    fixed_resources_belong(run_name, Seq::empty(), run);
    let gone = cleanup_view(run_name, streams, workers).services;
    assert(gone[0] == resources::part_name(run_name, "phase-controller"@));
    assert(gone[1] == resources::part_name(run_name, "aggregator"@));
}

/// A resource has that name, and the run owns it: it goes when the run is deleted.
pub open spec fn belongs(resource: Doc, name: Seq<char>, run: IdentityView) -> bool {
    &&& resource_name(resource) == Some(name)
    &&& resource.get("metadata"@)->0.get("ownerReferences"@) == Some(
        Doc::array().item(resources::owner_doc(run)),
    )
}

proof fn fixed_resources_belong(run_name: Seq<char>, image: Seq<char>, run: IdentityView)
    ensures
        belongs(
            resources::phase_controller_service_doc(run_name, run),
            resources::part_name(run_name, "phase-controller"@),
            run,
        ),
        belongs(
            resources::aggregator_service_doc(run_name, run),
            resources::part_name(run_name, "aggregator"@),
            run,
        ),
        belongs(
            resources::aggregator_deployment_doc(run_name, image, run),
            resources::part_name(run_name, "aggregator"@),
            run,
        ),
        belongs(
            resources::phase_controller_deployment_doc(run_name, image, run),
            resources::part_name(run_name, "phase-controller"@),
            run,
        ),
        belongs(
            resources::reporter_job_doc(run_name, image, run),
            resources::part_name(run_name, "reporter"@),
            run,
        ),
{
    broadcast use json::with_then_get;

    heads_differ();
}

proof fn worker_deployments_belong(
    run_name: Seq<char>,
    part: Seq<char>,
    replicas: u32,
    image: Seq<char>,
    amounts: Doc,
    run: IdentityView,
    sql: Option<Seq<char>>,
)
    ensures
        belongs(
            resources::ingest_deployment_doc(run_name, part, replicas, image, amounts, run),
            resources::sub_part_name(run_name, "ingest"@, part),
            run,
        ),
        belongs(
            resources::query_deployment_doc(run_name, replicas, image, amounts, run, sql),
            resources::part_name(run_name, "query"@),
            run,
        ),
        belongs(
            resources::group_deployment_doc(run_name, part, replicas, image, amounts, run, sql),
            resources::sub_part_name(run_name, "query"@, part),
            run,
        ),
{
    broadcast use json::with_then_get;

    heads_differ();
}

proof fn heads_differ()
    ensures
        "metadata"@ != "apiVersion"@,
        "metadata"@ != "kind"@,
        "ownerReferences"@ != "name"@,
        "ownerReferences"@ != "namespace"@,
{
    reveal_strlit("metadata");
    reveal_strlit("apiVersion");
    reveal_strlit("kind");
    reveal_strlit("ownerReferences");
    reveal_strlit("name");
    reveal_strlit("namespace");
    assert("metadata"@.len() == 8 && "apiVersion"@.len() == 10 && "kind"@.len() == 4);
    assert("ownerReferences"@.len() == 15 && "name"@.len() == 4 && "namespace"@.len() == 9);
}

/// Every deployment has the name under which it is kept, and belongs to the run.
pub proof fn deployments_belong_to_the_run(
    run_name: Seq<char>,
    s: ScenarioView,
    workers: WorkerSpec,
    image: Seq<char>,
    run: IdentityView,
    sql: Option<Seq<char>>,
    i: int,
)
    requires
        0 <= i < deployments(run_name, s, workers, image, run, sql).len(),
    ensures
        belongs(
            deployments(run_name, s, workers, image, run, sql)[i].1,
            deployments(run_name, s, workers, image, run, sql)[i].0,
            run,
        ),
{
    let streams = s.stream_list();
    let n = streams.len() as int;
    if i < 2 {
        fixed_resources_belong(run_name, image, run);
    } else if i < 2 + n {
        worker_deployments_belong(
            run_name,
            streams[i - 2].name,
            streams[i - 2].ingest_replicas,
            image,
            resources::resources_doc(workers.ingest.resources),
            run,
            sql,
        );
    } else {
        match workers.query_groups {
            Some(groups) => {
                let g = groups@[i - 2 - n];
                worker_deployments_belong(
                    run_name,
                    g.name@,
                    g.replicas,
                    image,
                    resources::resources_doc(g.resources),
                    run,
                    sql,
                );
            },
            None => {
                worker_deployments_belong(
                    run_name,
                    Seq::empty(),
                    workers.query.replicas,
                    image,
                    resources::resources_doc(workers.query.resources),
                    run,
                    sql,
                );
            },
        }
    }
}

/// The services and the job that writes the report belong to the run.
pub proof fn services_belong_to_the_run(run_name: Seq<char>, image: Seq<char>, run: IdentityView)
    ensures
        belongs(
            resources::phase_controller_service_doc(run_name, run),
            resources::part_name(run_name, "phase-controller"@),
            run,
        ),
        belongs(
            resources::aggregator_service_doc(run_name, run),
            resources::part_name(run_name, "aggregator"@),
            run,
        ),
        belongs(
            resources::reporter_job_doc(run_name, image, run),
            resources::part_name(run_name, "reporter"@),
            run,
        ),
{
    fixed_resources_belong(run_name, image, run);
}

} // verus!
