//! Seeded random numbers: what is drawn from a generator depends on its seed and on what
//! was asked of it before, and on nothing else.
use rand::distributions::{Distribution, WeightedIndex};
use rand::rngs::StdRng;
use rand::{Rng, SeedableRng};
use rand_chacha::ChaCha8Rng;
use vstd::prelude::*;
use crate::model;

verus! {

/// A question put to a generator.
pub enum Request {
    /// A number of 32 bits between two others, both included.
    Between32(u32, u32),
    /// A number of 64 bits between two others, both included.
    Between64(u64, u64),
    /// Any number of 64 bits.
    Word,
    /// A place in a list of weights.
    Choice { weights: Seq<u64> },
    /// A place in a list of weights of 128 bits.
    FineChoice { fine: Seq<u128> },
}

/// How a generator came to be where it is: its seed, and what was asked since.
pub struct Course {
    pub seed: u64,
    pub asked: Seq<Request>,
}

impl Course {
    /// A generator that was just seeded.
    pub open spec fn start(seed: u64) -> Course {
        Course { seed, asked: Seq::empty() }
    }

    /// The same after one more question.
    pub open spec fn after(self, request: Request) -> Course {
        Course { seed: self.seed, asked: self.asked.push(request) }
    }
}

/// Weights from which one can be chosen: their sum is not zero, and fits 64 bits.
pub open spec fn can_choose(weights: Seq<u64>) -> bool {
    0 < total(weights) <= u64::MAX
}

/// The sum of the weights.
pub open spec fn total(weights: Seq<u64>) -> int {
    model::sum(weights.map_values(|w: u64| w as int))
}

/// Weights from which one can be chosen: their sum is not zero, and fits 128 bits.
pub open spec fn can_choose_finely(weights: Seq<u128>) -> bool {
    0 < fine_total(weights) <= u128::MAX
}

/// The sum of the weights.
pub open spec fn fine_total(weights: Seq<u128>) -> int {
    model::sum(weights.map_values(|w: u128| w as int))
}

// ---------------------------------------------------------------------------
// The generator of data
// ---------------------------------------------------------------------------

/// The type `rand::rngs::StdRng`; nothing is claimed of what it holds.
#[verifier::external_type_specification]
#[verifier::external_body]
pub struct ExStdRng(rand::rngs::StdRng);

/// Where a `StdRng` has got to.
pub uninterp spec fn course(rng: StdRng) -> Course;

/// The number that `gen_range` draws from a `StdRng` between two numbers of 32 bits.
pub uninterp spec fn between32(course: Course, low: u32, high: u32) -> u32;

/// The number that `gen_range` draws from a `StdRng` between two numbers of 64 bits.
pub uninterp spec fn between64(course: Course, low: u64, high: u64) -> u64;

/// The number that `gen` draws from a `StdRng`.
pub uninterp spec fn word(course: Course) -> u64;

/// The place that a `WeightedIndex` draws by means of a `StdRng`.
pub uninterp spec fn choice(course: Course, weights: Seq<u128>) -> usize;

/// A generator with that seed.
///
/// Calls `StdRng::seed_from_u64`: nothing has been asked of the generator yet.
#[verifier::external_body]
pub(crate) fn seeded(seed: u64) -> (r: StdRng)
    ensures
        course(r) == Course::start(seed),
{
    StdRng::seed_from_u64(seed)
}

/// A number from `low` to `high`.
///
/// Calls `Rng::gen_range` with a range of `u32` that has both ends. The number lies in the
/// range, and follows from the course of the generator and the range.
#[verifier::external_body]
pub(crate) fn draw32(rng: &mut StdRng, low: u32, high: u32) -> (r: u32)
    requires
        low <= high,
    ensures
        low <= r <= high,
        r == between32(course(*old(rng)), low, high),
        course(*final(rng)) == course(*old(rng)).after(Request::Between32(low, high)),
{
    rng.gen_range(low..=high)
}

/// A number from `low` to `high`.
///
/// Calls `Rng::gen_range` with a range of `u64` that has both ends. The number lies in the
/// range, and follows from the course of the generator and the range.
#[verifier::external_body]
pub(crate) fn draw64(rng: &mut StdRng, low: u64, high: u64) -> (r: u64)
    requires
        low <= high,
    ensures
        low <= r <= high,
        r == between64(course(*old(rng)), low, high),
        course(*final(rng)) == course(*old(rng)).after(Request::Between64(low, high)),
{
    rng.gen_range(low..=high)
}

/// Any number of 64 bits.
///
/// Calls `Rng::gen` for a `u64`. The number follows from the course of the generator.
#[verifier::external_body]
pub(crate) fn draw_word(rng: &mut StdRng) -> (r: u64)
    ensures
        r == word(course(*old(rng))),
        course(*final(rng)) == course(*old(rng)).after(Request::Word),
{
    rng.gen()
}

/// A place in a list of weights.
///
/// Calls `WeightedIndex::new`, which accepts the weights, and `sample`. The place is one of
/// the list whose weight is not zero, and follows from the course of the generator and the
/// weights.
#[verifier::external_body]
pub(crate) fn choose_weighted(rng: &mut StdRng, weights: &Vec<u128>) -> (r: usize)
    requires
        can_choose_finely(weights@),
    ensures
        r < weights@.len(),
        weights@[r as int] > 0,
        r == choice(course(*old(rng)), weights@),
        course(*final(rng)) == course(*old(rng)).after(
            Request::FineChoice { fine: weights@ },
        ),
{
    WeightedIndex::new(weights).expect("valid weights").sample(rng)
}

// ---------------------------------------------------------------------------
// The generator of queries
// ---------------------------------------------------------------------------

/// The type `rand_chacha::ChaCha8Rng`; nothing is claimed of what it holds.
#[verifier::external_type_specification]
#[verifier::external_body]
pub struct ExChaCha8Rng(rand_chacha::ChaCha8Rng);

/// Where a `ChaCha8Rng` has got to.
pub uninterp spec fn query_course(rng: ChaCha8Rng) -> Course;

/// The number that `gen_range` draws from a `ChaCha8Rng` between two numbers of 64 bits.
pub uninterp spec fn query_between64(course: Course, low: u64, high: u64) -> u64;

/// The place that a `WeightedIndex` draws by means of a `ChaCha8Rng`.
pub uninterp spec fn query_choice(course: Course, weights: Seq<u64>) -> usize;

/// A generator with that seed.
///
/// Calls `ChaCha8Rng::seed_from_u64`: nothing has been asked of the generator yet.
#[verifier::external_body]
pub(crate) fn seeded_for_queries(seed: u64) -> (r: ChaCha8Rng)
    ensures
        query_course(r) == Course::start(seed),
{
    ChaCha8Rng::seed_from_u64(seed)
}

/// A number from `low` to `high`.
///
/// Calls `Rng::gen_range` with a range of `u64` that has both ends. The number lies in the
/// range, and follows from the course of the generator and the range.
#[verifier::external_body]
pub(crate) fn query_draw64(rng: &mut ChaCha8Rng, low: u64, high: u64) -> (r: u64)
    requires
        low <= high,
    ensures
        low <= r <= high,
        r == query_between64(query_course(*old(rng)), low, high),
        query_course(*final(rng)) == query_course(*old(rng)).after(
            Request::Between64(low, high),
        ),
{
    rng.gen_range(low..=high)
}

/// A place in a list of weights.
///
/// Calls `WeightedIndex::new`, which accepts the weights, and `sample`. The place is one of
/// the list whose weight is not zero, and follows from the course of the generator and the
/// weights.
#[verifier::external_body]
pub(crate) fn query_choose_weighted(rng: &mut ChaCha8Rng, weights: &Vec<u64>) -> (r: usize)
    requires
        can_choose(weights@),
    ensures
        r < weights@.len(),
        weights@[r as int] > 0,
        r == query_choice(query_course(*old(rng)), weights@),
        query_course(*final(rng)) == query_course(*old(rng)).after(
            Request::Choice { weights: weights@ },
        ),
{
    WeightedIndex::new(weights).expect("valid weights").sample(rng)
}

} // verus!
