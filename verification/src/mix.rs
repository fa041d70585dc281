//! The mix of queries: how likely each query is in each phase.
use vstd::prelude::*;
use crate::chance;
use crate::decimal;
use crate::docs;
use crate::docs::ToDoc;
use crate::json;
use crate::json::{Doc, Json};
use crate::model;
use crate::scenario::{PhaseDef, PhaseView, QueryDef, QueryView};
use crate::text;

verus! {

/// The weights of the queries in a phase, by name, in parts per billion; where there are none,
/// those of the queries themselves hold.
pub struct PhaseMix {
    pub phase_name: String,
    pub weights: Option<Vec<(String, i64)>>,
}

pub struct PhaseMixView {
    pub phase_name: Seq<char>,
    pub weights: Option<Seq<(Seq<char>, i64)>>,
}

impl View for PhaseMix {
    type V = PhaseMixView;

    open spec fn view(&self) -> PhaseMixView {
        PhaseMixView { phase_name: self.phase_name@, weights: model::opt_vmap(self.weights) }
    }
}

// ---------------------------------------------------------------------------
// Resolving
// ---------------------------------------------------------------------------

/// The mix of a phase: that of the worker's group where it has one, else that of the phase.
pub open spec fn phase_mix(group: Option<Seq<(Seq<char>, i64)>>, p: PhaseView) -> PhaseMixView {
    PhaseMixView {
        phase_name: p.name,
        weights: match group {
            Some(w) => Some(w),
            None => p.mix_override,
        },
    }
}

/// The mixes of all phases.
pub open spec fn mixes(group: Option<Seq<(Seq<char>, i64)>>, phases: Seq<PhaseView>) -> Seq<
    PhaseMixView,
> {
    phases.map_values(|p: PhaseView| phase_mix(group, p))
}

/// The mixes of all phases.
pub fn resolve_mixes(group: &Option<Vec<(String, i64)>>, phases: &Vec<PhaseDef>) -> (r: Vec<
    PhaseMix,
>)
    ensures
        model::vmap(r@) == mixes(model::opt_vmap(*group), model::vmap(phases@)),
{
    let ghost all = mixes(model::opt_vmap(*group), model::vmap(phases@));
    let mut out: Vec<PhaseMix> = Vec::new();
    let mut i: usize = 0;
    assert(model::vmap(out@) =~= all.take(0));
    while i < phases.len()
        invariant
            i <= phases@.len(),
            all == mixes(model::opt_vmap(*group), model::vmap(phases@)),
            model::vmap(out@) == all.take(i as int),
        decreases phases@.len() - i,
    {
        broadcast use model::vmap_push, model::take_push;

        assert(model::vmap(phases@)[i as int] == phases@[i as int]@);
        let weights = match group {
            Some(_) => model::duplicate_opt_list(group),
            None => model::duplicate_opt_list(&phases[i].query.mix_override),
        };
        let m = PhaseMix { phase_name: phases[i].name.clone(), weights };
        assert(m@ == all[i as int]);
        out.push(m);
        i += 1;
    }
    assert(all.take(i as int) =~= all);
    out
}

// ---------------------------------------------------------------------------
// Documents
// ---------------------------------------------------------------------------

/// Weights by name, for a document.
pub open spec fn weights_doc(entries: Seq<(Seq<char>, i64)>) -> Doc {
    Doc::Object(entries.map_values(|e: (Seq<char>, i64)| (e.0, docs::weight_doc(e.1))))
}

fn weights_json(entries: &Vec<(String, i64)>) -> (r: Json)
    ensures
        r.doc() == weights_doc(model::vmap(entries@)),
{
    let mut out: Vec<(String, Json)> = Vec::new();
    let mut i: usize = 0;
    while i < entries.len()
        invariant
            i <= entries@.len(),
            out@.len() == i,
            forall|k: int|
                0 <= k < i ==> (#[trigger] out@[k]).0@ == entries@[k].0@ && out@[k].1.doc()
                    == docs::weight_doc(entries@[k].1),
        decreases entries@.len() - i,
    {
        let weight = Json::Number(decimal::signed_shortest_of(entries[i].1, 9));
        out.push((entries[i].0.clone(), weight));
        i += 1;
    }
    proof {
        Json::doc_of_object(out);
        assert(json::members_of(out@) =~= model::vmap(entries@).map_values(
            |e: (Seq<char>, i64)| (e.0, docs::weight_doc(e.1)),
        ));
    }
    Json::Object(out)
}

impl ToDoc for PhaseMix {
    open spec fn doc_of(v: PhaseMixView) -> Doc {
        Doc::object().with("phase_name"@, Doc::Text(v.phase_name)).with(
            "weights"@,
            match v.weights {
                Some(w) => weights_doc(w),
                None => Doc::Null,
            },
        )
    }

    fn to_json(&self) -> (r: Json) {
        let weights = match &self.weights {
            Some(w) => weights_json(w),
            None => Json::Null,
        };
        Json::object().with("phase_name", Json::text(self.phase_name.as_str())).with(
            "weights",
            weights,
        )
    }
}

// ---------------------------------------------------------------------------
// Weights
// ---------------------------------------------------------------------------

/// The weights of a phase, where it has some: those of the first mix of its name.
pub open spec fn weights_in(mixes: Seq<PhaseMixView>, phase: Seq<char>) -> Option<
    Seq<(Seq<char>, i64)>,
>
    decreases mixes.len(),
{
    if mixes.len() == 0 {
        None
    } else if mixes[0].phase_name == phase {
        mixes[0].weights
    } else {
        weights_in(mixes.skip(1), phase)
    }
}

/// The weight of a query; one that is not listed has none, nor has one with a negative weight.
pub open spec fn weight_of(weights: Seq<(Seq<char>, i64)>, name: Seq<char>) -> u64 {
    match model::find(weights, name) {
        Some(w) => if w > 0 {
            w as u64
        } else {
            0
        },
        None => 0,
    }
}

/// As many weights of one as there are queries.
pub open spec fn equal_weights(n: nat) -> Seq<u64> {
    Seq::new(n, |i: int| 1u64)
}

/// The weight that a query has of itself; one of which nothing is said has none, nor has one
/// with a negative weight.
pub open spec fn given_weight(q: QueryView) -> u64 {
    match q.weight_ppb {
        Some(w) => if w > 0 {
            w as u64
        } else {
            0
        },
        None => 0,
    }
}

/// The weights that the queries have of themselves; all the same where no query can be chosen
/// by them, as where none is given.
pub open spec fn given_weights(queries: Seq<QueryView>) -> Seq<u64> {
    let given = queries.map_values(|q: QueryView| given_weight(q));
    if chance::can_choose(given) {
        given
    } else {
        equal_weights(queries.len())
    }
}

/// The weights of the queries in a phase: those of its mix, and where it has none, or none by
/// which a query can be chosen, those that the queries have of themselves.
pub open spec fn query_weights(
    queries: Seq<QueryView>,
    mixes: Seq<PhaseMixView>,
    phase: Seq<char>,
) -> Seq<u64> {
    match weights_in(mixes, phase) {
        Some(w) => {
            let own = queries.map_values(|q: QueryView| weight_of(w, q.name));
            if chance::can_choose(own) {
                own
            } else {
                given_weights(queries)
            }
        },
        None => given_weights(queries),
    }
}

proof fn equal_weights_total(n: nat)
    ensures
        chance::total(equal_weights(n)) == n,
    decreases n,
{
    let all = equal_weights(n).map_values(|w: u64| w as int);
    if n > 0 {
        equal_weights_total((n - 1) as nat);
        let fewer = equal_weights((n - 1) as nat).map_values(|w: u64| w as int);
        assert(all.drop_last() =~= fewer);
        assert(all.last() == 1);
    }
}

pub(crate) fn weights_of_one(n: usize) -> (r: Vec<u64>)
    ensures
        r@ == equal_weights(n as nat),
        n > 0 ==> chance::can_choose(r@),
{
    let mut out: Vec<u64> = Vec::new();
    let mut i: usize = 0;
    while i < n
        invariant
            i <= n,
            out@ == equal_weights(i as nat),
        decreases n - i,
    {
        out.push(1);
        i += 1;
        assert(out@ =~= equal_weights(i as nat));
    }
    proof {
        equal_weights_total(n as nat);
    }
    out
}

fn find_weights<'a>(mixes: &'a Vec<PhaseMix>, phase: &str) -> (r: Option<&'a Vec<(String, i64)>>)
    ensures
        match r {
            Some(w) => weights_in(model::vmap(mixes@), phase@) == Some(model::vmap(w@)),
            None => weights_in(model::vmap(mixes@), phase@) is None,
        },
{
    let ghost all = model::vmap(mixes@);
    let mut i: usize = 0;
    assert(all.skip(0) =~= all);
    while i < mixes.len()
        invariant
            i <= mixes@.len(),
            all == model::vmap(mixes@),
            weights_in(all, phase@) == weights_in(all.skip(i as int), phase@),
        decreases mixes@.len() - i,
    {
        proof {
            assert(all[i as int] == mixes@[i as int]@);
            assert(all.skip(i as int)[0] == all[i as int]);
            assert(all.skip(i as int).skip(1) =~= all.skip(i + 1));
        }
        if text::same(mixes[i].phase_name.as_str(), phase) {
            return match &mixes[i].weights {
                Some(w) => Some(w),
                None => None,
            };
        }
        i += 1;
    }
    None
}

fn own_weights(queries: &Vec<QueryDef>, weights: &Vec<(String, i64)>) -> (r: Option<Vec<u64>>)
    ensures
        ({
            let own = model::vmap(queries@).map_values(
                |q: QueryView| weight_of(model::vmap(weights@), q.name),
            );
            match r {
                Some(w) => w@ == own && chance::can_choose(own),
                None => !chance::can_choose(own),
            }
        }),
{
    let ghost wv = model::vmap(weights@);
    let ghost own = model::vmap(queries@).map_values(|q: QueryView| weight_of(wv, q.name));
    let ghost nums = own.map_values(|w: u64| w as int);
    let mut out: Vec<u64> = Vec::new();
    let mut total: u128 = 0;
    let len: usize = queries.len();
    let mut i: usize = 0;
    assert(nums.take(0) =~= Seq::<int>::empty());
    while i < len
        invariant
            i <= len == queries@.len(),
            wv == model::vmap(weights@),
            own == model::vmap(queries@).map_values(|q: QueryView| weight_of(wv, q.name)),
            nums == own.map_values(|w: u64| w as int),
            out@ == own.take(i as int),
            total == model::sum(nums.take(i as int)),
            total <= i * 0xffff_ffff_ffff_ffff,
        decreases len - i,
    {
        broadcast use model::take_push;

        assert(model::vmap(queries@)[i as int] == queries@[i as int]@);
        let w: u64 = match model::find_in(weights, queries[i].name.as_str()) {
            Some(x) => if *x > 0 {
                *x as u64
            } else {
                0
            },
            None => 0,
        };
        proof {
            assert(w == own[i as int]);
            model::sum_take(nums, i as int);
        }
        total = total + w as u128;
        out.push(w);
        i += 1;
    }
    assert(nums.take(i as int) =~= nums);
    assert(own.take(i as int) =~= own);
    if total > 0 && total <= u64::MAX as u128 {
        Some(out)
    } else {
        None
    }
}

/// The weights that the queries have of themselves.
pub fn weights_given(queries: &Vec<QueryDef>) -> (r: Vec<u64>)
    ensures
        r@ == given_weights(model::vmap(queries@)),
        r@.len() == queries@.len(),
        queries@.len() > 0 ==> chance::can_choose(r@),
{
    let ghost given = model::vmap(queries@).map_values(|q: QueryView| given_weight(q));
    let ghost nums = given.map_values(|w: u64| w as int);
    let mut out: Vec<u64> = Vec::new();
    let mut total: u128 = 0;
    let len: usize = queries.len();
    let mut i: usize = 0;
    assert(nums.take(0) =~= Seq::<int>::empty());
    while i < len
        invariant
            i <= len == queries@.len(),
            given == model::vmap(queries@).map_values(|q: QueryView| given_weight(q)),
            nums == given.map_values(|w: u64| w as int),
            out@ == given.take(i as int),
            total == model::sum(nums.take(i as int)),
            total <= i * 0xffff_ffff_ffff_ffff,
        decreases len - i,
    {
        broadcast use model::take_push;

        assert(model::vmap(queries@)[i as int] == queries@[i as int]@);
        let w: u64 = match queries[i].weight_ppb {
            Some(x) => if x > 0 {
                x as u64
            } else {
                0
            },
            None => 0,
        };
        proof {
            assert(w == given[i as int]);
            model::sum_take(nums, i as int);
        }
        total = total + w as u128;
        out.push(w);
        i += 1;
    }
    assert(nums.take(i as int) =~= nums);
    assert(given.take(i as int) =~= given);
    if total > 0 && total <= u64::MAX as u128 {
        out
    } else {
        weights_of_one(len)
    }
}

/// The weights of the queries in a phase.
pub fn weights_for(queries: &Vec<QueryDef>, mixes: &Vec<PhaseMix>, phase: &str) -> (r: Vec<u64>)
    ensures
        r@ == query_weights(model::vmap(queries@), model::vmap(mixes@), phase@),
        r@.len() == queries@.len(),
        queries@.len() > 0 ==> chance::can_choose(r@),
{
    match find_weights(mixes, phase) {
        Some(w) => match own_weights(queries, w) {
            Some(own) => own,
            None => weights_given(queries),
        },
        None => weights_given(queries),
    }
}

/// A group's own mix holds in every phase, and a phase's mix holds for workers whose group has
/// none: by either the weight of a query is the one listed, and a query that is not listed has
/// none.
pub proof fn mixes_are_kept(
    group: Option<Seq<(Seq<char>, i64)>>,
    phases: Seq<PhaseView>,
    queries: Seq<QueryView>,
    p: int,
    q: int,
)
    requires
        0 <= p < phases.len(),
        0 <= q < queries.len(),
        forall|k: int| 0 <= k < p ==> (#[trigger] phases[k]).name != phases[p].name,
        phase_mix(group, phases[p]).weights matches Some(w) && chance::can_choose(
            queries.map_values(|x: QueryView| weight_of(w, x.name)),
        ),
    ensures
        query_weights(queries, mixes(group, phases), phases[p].name)[q] == weight_of(
            phase_mix(group, phases[p]).weights->0,
            queries[q].name,
        ),
{
    mix_of_phase(group, phases, p);
}

proof fn mix_of_phase(group: Option<Seq<(Seq<char>, i64)>>, phases: Seq<PhaseView>, p: int)
    requires
        0 <= p < phases.len(),
        forall|k: int| 0 <= k < p ==> (#[trigger] phases[k]).name != phases[p].name,
    ensures
        weights_in(mixes(group, phases), phases[p].name) == phase_mix(group, phases[p]).weights,
    decreases p,
{
    let all = mixes(group, phases);
    if p > 0 {
        let rest = phases.skip(1);
        assert(phases[0].name != phases[p].name);
        assert forall|k: int| 0 <= k < p - 1 implies (#[trigger] rest[k]).name != rest[p
            - 1].name by {
            assert(rest[k] == phases[k + 1]);
        }
        mix_of_phase(group, rest, p - 1);
        assert(all.skip(1) =~= mixes(group, rest));
    }
}

/// Where neither the group nor the phase has a mix, each query has the weight that it was
/// given.
pub proof fn given_weights_are_kept(
    phases: Seq<PhaseView>,
    queries: Seq<QueryView>,
    p: int,
    q: int,
)
    requires
        0 <= p < phases.len(),
        0 <= q < queries.len(),
        forall|k: int| 0 <= k < p ==> (#[trigger] phases[k]).name != phases[p].name,
        phases[p].mix_override is None,
        chance::can_choose(queries.map_values(|x: QueryView| given_weight(x))),
    ensures
        query_weights(queries, mixes(None, phases), phases[p].name)[q] == given_weight(queries[q]),
{
    mix_of_phase(None, phases, p);
}

} // verus!
