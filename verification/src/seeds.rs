//! Hashes: the seeds of workers, the index of a worker, the seed of a run and the
//! fingerprint of a configuration.
use rand_chacha::ChaCha8Rng;
use sha2::{Digest, Sha256};
use siphasher::sip::SipHasher13;
use std::collections::hash_map::DefaultHasher;
use std::hash::{BuildHasher, BuildHasherDefault};
use vstd::prelude::*;
use vstd::string::*;
use vstd::utf8::encode_utf8;
use crate::chance;
use crate::chance::Course;
use crate::text;

verus! {

/// One more than the greatest index of a worker.
pub const WORKER_INDEXES: u64 = 10_000;

/// What is mixed into the seed of a worker that keeps a rate of queries.
pub const QUERY_SALT: u64 = 42;

/// What is mixed into the seed of a worker that runs sessions.
pub const SESSION_SALT: u64 = 99;

// ---------------------------------------------------------------------------
// Bytes
// ---------------------------------------------------------------------------

/// The last `count` bytes of a number, the lowest first.
pub open spec fn low_bytes(n: nat, count: nat) -> Seq<u8>
    decreases count,
{
    if count == 0 {
        Seq::empty()
    } else {
        seq![(n % 256) as u8] + low_bytes(n / 256, (count - 1) as nat)
    }
}

/// What a text contributes to a hash: its bytes in UTF-8, and a byte that ends it.
pub open spec fn text_bytes(s: Seq<char>) -> Seq<u8> {
    encode_utf8(s).push(0xff)
}

fn append_number(bytes: &mut Vec<u8>, n: u64, count: u32)
    ensures
        final(bytes)@ == old(bytes)@ + low_bytes(n as nat, count as nat),
{
    let ghost before = bytes@;
    let mut rest: u64 = n;
    let mut left: u32 = count;
    assert(bytes@ + low_bytes(rest as nat, left as nat) =~= before + low_bytes(
        n as nat,
        count as nat,
    ));
    while left > 0
        invariant
            before == old(bytes)@,
            bytes@ + low_bytes(rest as nat, left as nat) == before + low_bytes(
                n as nat,
                count as nat,
            ),
        decreases left,
    {
        let byte: u8 = (rest % 256) as u8;
        let ghost now = bytes@;
        bytes.push(byte);
        assert(bytes@ + low_bytes((rest / 256) as nat, (left - 1) as nat) =~= now + (seq![byte]
            + low_bytes((rest / 256) as nat, (left - 1) as nat)));
        rest = rest / 256;
        left = left - 1;
    }
    assert(bytes@ =~= bytes@ + low_bytes(rest as nat, 0));
}

fn append_text(bytes: &mut Vec<u8>, s: &str)
    ensures
        final(bytes)@ == old(bytes)@ + text_bytes(s@),
{
    let ghost before = bytes@;
    let mut of_text = s.as_bytes_vec();
    bytes.append(&mut of_text);
    bytes.push(0xff);
    assert(bytes@ =~= before + text_bytes(s@));
}

// ---------------------------------------------------------------------------
// SipHash
// ---------------------------------------------------------------------------

/// The SipHash-1-3 of some bytes, with a key of zeros.
pub uninterp spec fn sip13(bytes: Seq<u8>) -> u64;

/// Hashes bytes.
///
/// Calls `SipHasher13::new` and `hash`, whose result follows from the bytes alone.
#[verifier::external_body]
fn sip_hash(bytes: &Vec<u8>) -> (r: u64)
    ensures
        r == sip13(bytes@),
{
    SipHasher13::new().hash(bytes)
}

/// What the seed of a worker that generates data is made of.
pub open spec fn worker_seed_bytes(run_seed: u64, worker_index: u32) -> Seq<u8> {
    low_bytes(run_seed as nat, 8) + low_bytes(worker_index as nat, 4)
}

/// What the seed of a query worker is made of.
pub open spec fn query_seed_bytes(run_seed: u64, name: Seq<char>, salt: u64) -> Seq<u8> {
    low_bytes(run_seed as nat, 8) + text_bytes(name) + low_bytes(salt as nat, 8)
}

/// The seed of a worker that generates data, from the seed of the run and its index.
pub fn derive_worker_seed(run_seed: u64, worker_index: u32) -> (r: u64)
    ensures
        r == sip13(worker_seed_bytes(run_seed, worker_index)),
{
    let mut bytes: Vec<u8> = Vec::new();
    append_number(&mut bytes, run_seed, 8);
    append_number(&mut bytes, worker_index as u64, 4);
    assert(bytes@ =~= worker_seed_bytes(run_seed, worker_index));
    sip_hash(&bytes)
}

fn salted_seed(run_seed: u64, name: &str, salt: u64) -> (r: u64)
    ensures
        r == sip13(query_seed_bytes(run_seed, name@, salt)),
{
    let mut bytes: Vec<u8> = Vec::new();
    append_number(&mut bytes, run_seed, 8);
    append_text(&mut bytes, name);
    append_number(&mut bytes, salt, 8);
    assert(bytes@ =~= query_seed_bytes(run_seed, name@, salt));
    sip_hash(&bytes)
}

/// The seed of a worker that keeps a rate of queries.
pub fn query_seed(run_seed: u64, pod_name: &str) -> (r: u64)
    ensures
        r == sip13(query_seed_bytes(run_seed, pod_name@, QUERY_SALT)),
{
    salted_seed(run_seed, pod_name, QUERY_SALT)
}

/// The seed of a worker that runs sessions.
pub fn session_seed(run_seed: u64, worker_id: &str) -> (r: u64)
    ensures
        r == sip13(query_seed_bytes(run_seed, worker_id@, SESSION_SALT)),
{
    salted_seed(run_seed, worker_id, SESSION_SALT)
}

/// What a worker that keeps a rate of queries draws from.
pub fn query_generator(run_seed: u64, pod_name: &str) -> (r: ChaCha8Rng)
    ensures
        chance::query_course(r) == Course::start(
            sip13(query_seed_bytes(run_seed, pod_name@, QUERY_SALT)),
        ),
{
    chance::seeded_for_queries(query_seed(run_seed, pod_name))
}

/// What a worker that runs sessions draws from.
pub fn session_generator(run_seed: u64, worker_id: &str) -> (r: ChaCha8Rng)
    ensures
        chance::query_course(r) == Course::start(
            sip13(query_seed_bytes(run_seed, worker_id@, SESSION_SALT)),
        ),
{
    chance::seeded_for_queries(session_seed(run_seed, worker_id))
}

proof fn low_bytes_tell(a: nat, b: nat, count: nat)
    requires
        a < pow256(count),
        b < pow256(count),
        low_bytes(a, count) == low_bytes(b, count),
    ensures
        a == b,
    decreases count,
{
    if count > 0 {
        let x = low_bytes(a, count);
        let y = low_bytes(b, count);
        assert(x[0] == (a % 256) as u8 && y[0] == (b % 256) as u8);
        assert(x.skip(1) =~= low_bytes(a / 256, (count - 1) as nat));
        assert(y.skip(1) =~= low_bytes(b / 256, (count - 1) as nat));
        low_bytes_tell(a / 256, b / 256, (count - 1) as nat);
    }
}

/// 256 to the power `n`.
pub open spec fn pow256(n: nat) -> nat
    decreases n,
{
    if n == 0 {
        1
    } else {
        256 * pow256((n - 1) as nat)
    }
}

proof fn low_bytes_len(n: nat, count: nat)
    ensures
        low_bytes(n, count).len() == count,
    decreases count,
{
    if count > 0 {
        low_bytes_len(n / 256, (count - 1) as nat);
    }
}

/// Different runs or workers give different bytes to hash.
pub proof fn worker_seed_bytes_tell(seed: u64, index: u32, other_seed: u64, other_index: u32)
    requires
        worker_seed_bytes(seed, index) == worker_seed_bytes(other_seed, other_index),
    ensures
        seed == other_seed && index == other_index,
{
    reveal_with_fuel(pow256, 9);
    low_bytes_len(seed as nat, 8);
    low_bytes_len(other_seed as nat, 8);
    let x = worker_seed_bytes(seed, index);
    let y = worker_seed_bytes(other_seed, other_index);
    assert(x.take(8) =~= low_bytes(seed as nat, 8));
    assert(y.take(8) =~= low_bytes(other_seed as nat, 8));
    assert(x.skip(8) =~= low_bytes(index as nat, 4));
    assert(y.skip(8) =~= low_bytes(other_index as nat, 4));
    low_bytes_tell(seed as nat, other_seed as nat, 8);
    low_bytes_tell(index as nat, other_index as nat, 4);
}

// ---------------------------------------------------------------------------
// Names
// ---------------------------------------------------------------------------

/// The hash that the standard library's default hasher gives a text.
pub uninterp spec fn default_hash(s: Seq<char>) -> u64;

/// Hashes a text.
///
/// Calls `BuildHasher::hash_one` with the hasher that `DefaultHasher::default` makes. All such
/// hashers are the same, so the result follows from the text alone. Which number it is, the
/// standard library leaves open.
#[verifier::external_body]
fn hash_text(s: &str) -> (r: u64)
    ensures
        r == default_hash(s@),
{
    BuildHasherDefault::<DefaultHasher>::default().hash_one(s)
}

/// The index that a hash gives a worker.
pub fn index_of_hash(hash: u64) -> (r: u32)
    ensures
        r == hash % WORKER_INDEXES,
{
    (hash % WORKER_INDEXES) as u32
}

/// The index of the worker in a pod, from the pod's name.
pub fn worker_index(pod_name: &str) -> (r: u32)
    ensures
        r == default_hash(pod_name@) % WORKER_INDEXES,
        r < WORKER_INDEXES,
{
    index_of_hash(hash_text(pod_name))
}

/// The seed of a run, from its name.
pub fn run_seed(run_name: &str) -> (r: u64)
    ensures
        r == default_hash(run_name@),
{
    hash_text(run_name)
}

// ---------------------------------------------------------------------------
// The fingerprint of a configuration
// ---------------------------------------------------------------------------

/// The SHA-256 of some bytes.
pub uninterp spec fn sha256(bytes: Seq<u8>) -> Seq<u8>;

/// Hashes bytes.
///
/// Calls `Sha256::digest`, which gives 32 bytes that follow from the bytes alone.
#[verifier::external_body]
fn sha_hash(bytes: &Vec<u8>) -> (r: Vec<u8>)
    ensures
        r@ == sha256(bytes@),
        r@.len() == 32,
{
    Sha256::digest(bytes).to_vec()
}

/// The digit of a number below sixteen.
pub open spec fn hex_char(n: int) -> char {
    if n < 10 {
        text::digit_char(n)
    } else if n == 10 {
        'a'
    } else if n == 11 {
        'b'
    } else if n == 12 {
        'c'
    } else if n == 13 {
        'd'
    } else if n == 14 {
        'e'
    } else {
        'f'
    }
}

/// Bytes in hexadecimal, two digits each.
pub open spec fn hex(bytes: Seq<u8>) -> Seq<char>
    decreases bytes.len(),
{
    if bytes.len() == 0 {
        Seq::empty()
    } else {
        hex(bytes.drop_last()).push(hex_char(bytes.last() as int / 16)).push(
            hex_char(bytes.last() as int % 16),
        )
    }
}

/// The digit of a number below sixteen.
pub fn hex_digit(n: u8) -> (r: char)
    requires
        n < 16,
    ensures
        r == hex_char(n as int),
{
    if n == 0 {
        '0'
    } else if n == 1 {
        '1'
    } else if n == 2 {
        '2'
    } else if n == 3 {
        '3'
    } else if n == 4 {
        '4'
    } else if n == 5 {
        '5'
    } else if n == 6 {
        '6'
    } else if n == 7 {
        '7'
    } else if n == 8 {
        '8'
    } else if n == 9 {
        '9'
    } else if n == 10 {
        'a'
    } else if n == 11 {
        'b'
    } else if n == 12 {
        'c'
    } else if n == 13 {
        'd'
    } else if n == 14 {
        'e'
    } else {
        'f'
    }
}

/// Bytes in hexadecimal.
pub fn hex_of(bytes: &Vec<u8>) -> (r: String)
    ensures
        r@ == hex(bytes@),
{
    let mut out = String::new();
    let mut i: usize = 0;
    assert(out@ =~= hex(bytes@.take(0)));
    while i < bytes.len()
        invariant
            i <= bytes@.len(),
            out@ == hex(bytes@.take(i as int)),
        decreases bytes@.len() - i,
    {
        assert(bytes@.take(i + 1).drop_last() =~= bytes@.take(i as int));
        out.push(hex_digit(bytes[i] / 16));
        out.push(hex_digit(bytes[i] % 16));
        i += 1;
    }
    assert(bytes@.take(i as int) =~= bytes@);
    out
}

proof fn hex_len(bytes: Seq<u8>)
    ensures
        hex(bytes).len() == 2 * bytes.len(),
    decreases bytes.len(),
{
    if bytes.len() > 0 {
        hex_len(bytes.drop_last());
    }
}

/// The fingerprint of a configuration, from its text: 64 hexadecimal digits.
pub fn compute_config_hash(config: &str) -> (r: String)
    ensures
        r@ == hex(sha256(encode_utf8(config@))),
        r@.len() == 64,
{
    let bytes = config.as_bytes_vec();
    let hash = sha_hash(&bytes);
    proof {
        hex_len(hash@);
    }
    hex_of(&hash)
}

} // verus!
