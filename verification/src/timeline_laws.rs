//! What the phases of a run come to: when a transition goes on, what the workers are told of
//! it, and how times, lags and numbers are taken and written.
use vstd::prelude::*;
use vstd::string::*;
use crate::barrier;
use crate::barrier::{PhaseEvent, Retries};
use crate::clock;
use crate::clock::Instant;
use crate::conductor;
use crate::conductor::{ConductorActionView, ConductorEvent, ConductorView, Stage};
use crate::decimal;
use crate::lag;
use crate::lag::PartitionOffsets;
use crate::model;
use crate::phase_controller;
use crate::phase_controller::{ControllerView, PhaseSpecView};
use crate::proc_metrics;
use crate::text;

verus! {

// ---------------------------------------------------------------------------
// Numbers in writing
// ---------------------------------------------------------------------------

/// Ten times itself so often.
pub open spec fn tens(d: nat) -> nat
    decreases d,
{
    if d == 0 {
        1
    } else {
        10 * tens((d - 1) as nat)
    }
}

proof fn powers_agree(d: nat)
    ensures
        decimal::pow10(d) == tens(d),
        tens(d) > 0,
    decreases d,
{
    if d > 0 {
        powers_agree((d - 1) as nat);
    }
}

proof fn digits_denote(d: int)
    requires
        0 <= d < 10,
    ensures
        text::digit_char(d) as u32 - '0' as u32 == d,
        text::is_digit(text::digit_char(d)),
{
}

/// A number is written by digits that denote it, with no zero in front but zero's own.
pub proof fn decimals_denote_the_number(n: nat)
    ensures
        text::digits_value(text::decimal(n)) == n,
        text::decimal(n).len() > 0,
        forall|i: int|
            0 <= i < text::decimal(n).len() ==> text::is_digit(#[trigger] text::decimal(n)[i]),
        n > 0 ==> text::decimal(n)[0] != '0',
    decreases n,
{
    digits_denote((n % 10) as int);
    let s = text::decimal(n);
    if n < 10 {
        digits_denote(n as int);
        assert(s.drop_last() =~= Seq::<char>::empty());
        assert(text::digits_value(s.drop_last()) == 0);
    } else {
        decimals_denote_the_number(n / 10);
        assert(s.drop_last() =~= text::decimal(n / 10));
        assert(s[0] == text::decimal(n / 10)[0]);
    }
}

proof fn padded_denotes(n: nat, width: nat)
    requires
        n < tens(width),
    ensures
        decimal::padded(n, width).len() == width,
        text::digits_value(decimal::padded(n, width)) == n,
    decreases width,
{
    let s = decimal::padded(n, width);
    if width > 0 {
        padded_denotes(n / 10, (width - 1) as nat);
        digits_denote((n % 10) as int);
        assert(s.drop_last() =~= decimal::padded(n / 10, (width - 1) as nat));
    }
}

/// A quotient is written as the number of so many decimals that is nearest to it: no number of
/// as many decimals is nearer, and of two equally near the even one stands.
pub proof fn fixed_numbers_are_nearest(num: nat, den: nat, digits: nat)
    requires
        den > 0,
        digits > 0,
    ensures
        ({
            let s = decimal::fixed(num, den, digits);
            let point = s.len() - digits - 1;
            let n = text::digits_value(s.take(point)) * tens(digits) + text::digits_value(
                s.skip(point + 1),
            );
            let off = num * tens(digits) - n * den;
            &&& point > 0 && s[point] == '.'
            &&& -den <= 2 * off <= den
            &&& (2 * off == den || 2 * off == -den) ==> n % 2 == 0
        }),
{
    powers_agree(digits);
    let p = tens(digits);
    let scaled = num * p;
    let n = decimal::nearest_even(scaled, den);
    nearest_is_near(scaled, den);
    let a = text::decimal(n / p);
    let b = decimal::padded(n % p, digits);
    vstd::arithmetic::div_mod::lemma_fundamental_div_mod(n as int, p as int);
    vstd::arithmetic::div_mod::lemma_mod_bound(n as int, p as int);
    decimals_denote_the_number(n / p);
    padded_denotes(n % p, digits);
    let s = decimal::fixed(num, den, digits);
    let point = s.len() - digits - 1;
    assert(s =~= a + seq!['.'] + b);
    assert(s.take(point) =~= a);
    assert(s.skip(point + 1) =~= b);
    assert((n / p) * p == p * (n / p)) by (nonlinear_arith);
}

proof fn nearest_is_near(num: nat, den: nat)
    requires
        den > 0,
    ensures
        ({
            let n = decimal::nearest_even(num, den);
            let off = num - n * den;
            &&& -den <= 2 * off <= den
            &&& (2 * off == den || 2 * off == -den) ==> n % 2 == 0
        }),
{
    let q = num / den;
    let r = num % den;
    vstd::arithmetic::div_mod::lemma_fundamental_div_mod(num as int, den as int);
    vstd::arithmetic::div_mod::lemma_mod_bound(num as int, den as int);
    assert(q * den == den * q) by (nonlinear_arith);
    assert((q + 1) * den == q * den + den) by (nonlinear_arith);
}

/// A quotient without decimals is the nearest whole number.
pub proof fn whole_numbers_are_nearest(num: nat, den: nat)
    requires
        den > 0,
    ensures
        ({
            let n = text::digits_value(decimal::fixed(num, den, 0));
            let off = num - n * den;
            -den <= 2 * off <= den
        }),
{
    assert(decimal::pow10(0) == 1);
    assert(num * 1 == num);
    nearest_is_near(num, den);
    decimals_denote_the_number(decimal::nearest_even(num, den));
}

// ---------------------------------------------------------------------------
// Phases
// ---------------------------------------------------------------------------

/// A transition goes on once all workers have answered, but not within a tenth of a second,
/// and after two seconds whoever has answered.
pub proof fn transitions_go_on_in_time(c: ControllerView, waited_ms: u64)
    ensures
        waited_ms < 100 ==> !c.goes_on(waited_ms),
        waited_ms >= 2000 ==> c.goes_on(waited_ms),
        100 <= waited_ms < 2000 ==> (c.goes_on(waited_ms) <==> (forall|k: int|
            0 <= k < c.workers.len() ==> c.prepared.contains((#[trigger] c.workers[k]).0))),
{
}

/// An answer counts where it is for the phase that is being left, and for no other.
pub proof fn answers_count_for_their_phase(c: ControllerView, id: Seq<char>, phase: Seq<char>)
    requires
        0 < c.current_phase_index < c.phases.len(),
    ensures
        phase == c.phases[c.current_phase_index - 1].name ==> c.with_answer(
            id,
            phase,
        ).prepared.contains(id),
        phase != c.phases[c.current_phase_index - 1].name ==> c.with_answer(id, phase) == c,
{
    let r = c.with_answer(id, phase);
    if phase == c.phases[c.current_phase_index - 1].name {
        assert(r.prepared[c.prepared.len() as int] == id);
    }
}

/// At a transition every worker that is there is told of the phase that ends and the one that
/// begins, of a moment fifty milliseconds ahead, and of the rate of a worker of its kind.
pub proof fn workers_are_told_their_rate(
    phases: Seq<PhaseSpecView>,
    v: ConductorView,
    c: ControllerView,
    now_ns: i64,
    k: int,
)
    requires
        v.stage == Stage::Timing,
        v.timeline == phase_controller::timeline(phases, 0),
        0 <= v.next < phases.len(),
        now_ns <= i64::MAX - 50_000_000,
        0 <= k < c.workers.len(),
        phases[v.next].per_worker_ingest_eps <= i64::MAX,
        phases[v.next].per_worker_query_mqps <= i64::MAX,
    ensures
        ({
            let done = conductor::stepped(v, c, ConductorEvent::Moment(now_ns)).2;
            let told = done->Announce_0[k];
            &&& done is Announce && done->Announce_0.len() == c.workers.len()
            &&& told.worker_id == c.workers[k].0
            &&& told.to_phase == phases[v.next].name
            &&& v.next > 0 ==> told.from_phase == phases[v.next - 1].name
            &&& told.transition_time_ns == now_ns + 50_000_000
            &&& c.workers[k].1 == "ingest"@ ==> told.new_target_rate
                == phases[v.next].per_worker_ingest_eps
            &&& c.workers[k].1 == "query"@ ==> told.new_target_rate
                == phases[v.next].per_worker_query_mqps
        }),
{
    reveal_strlit("ingest");
    reveal_strlit("query");
    assert("ingest"@.len() != "query"@.len());
    assert(v.timeline[v.next] == phase_controller::phase_plan(phases, v.next));
    let done = conductor::stepped(v, c, ConductorEvent::Moment(now_ns)).2;
    assert(done->Announce_0[k] == conductor::announcement(
        c.workers[k],
        v.timeline[v.next],
        now_ns + 50_000_000,
    ));
}

/// A phase lasts as long as the scenario says, the workers are asked to prepare for every
/// phase but the first, and after the last the run is complete.
pub proof fn phases_take_their_time(phases: Seq<PhaseSpecView>, v: ConductorView, c: ControllerView)
    requires
        v.timeline == phase_controller::timeline(phases, 0),
        0 <= v.next < phases.len(),
    ensures
        v.stage == Stage::Announcing ==> conductor::stepped(v, c, ConductorEvent::Done).2
            == ConductorActionView::Run(phases[v.next].duration_seconds),
        v.stage == Stage::Noting ==> (conductor::stepped(v, c, ConductorEvent::Done).2 is Prepare
            <==> v.next > 0),
        v.stage == Stage::Noting ==> conductor::stepped(
            v,
            c,
            ConductorEvent::Done,
        ).1.current_phase_index == v.next,
        v.stage == Stage::Running && v.next + 1 < phases.len() ==> conductor::stepped(
            v,
            c,
            ConductorEvent::Done,
        ).2 == ConductorActionView::Note(v.next + 1),
        v.stage == Stage::Running && v.next + 1 == phases.len() ==> ({
            let r = conductor::stepped(v, c, ConductorEvent::Done);
            r.2 is Complete && r.1.timeline_complete
        }),
{
    assert(v.timeline[v.next] == phase_controller::phase_plan(phases, v.next));
    if v.next + 1 < phases.len() {
        assert(v.timeline[v.next + 1] == phase_controller::phase_plan(phases, v.next + 1));
    }
}

/// A run starts with the last worker that is waited for, and not before.
pub proof fn the_last_worker_starts_the_run(c: ControllerView, id: Seq<char>)
    ensures
        c.ready_ingest + 1 == c.expected_ingest_workers && c.ready_query
            >= c.expected_query_workers ==> !c.all_ready() && c.with_worker(
            id,
            "ingest"@,
        ).all_ready() && !c.with_worker(id, "query"@).all_ready(),
        c.ready_query + 1 == c.expected_query_workers && c.ready_ingest
            >= c.expected_ingest_workers ==> !c.all_ready() && c.with_worker(
            id,
            "query"@,
        ).all_ready() && !c.with_worker(id, "ingest"@).all_ready(),
{
    reveal_strlit("ingest");
    reveal_strlit("query");
    assert("ingest"@.len() != "query"@.len());
}

proof fn digits_are_no_space(s: Seq<char>)
    requires
        s.len() > 0,
        forall|i: int| 0 <= i < s.len() ==> text::is_digit(#[trigger] s[i]),
    ensures
        text::trimmed(s) == s,
{
    assert(text::is_digit(s[0]));
    assert(text::is_digit(s.last()));
}

/// A run goes on at the phase that was noted, and at the first where none was or none can be
/// read.
pub proof fn notes_are_read_again(i: nat, t: Seq<char>)
    requires
        i <= usize::MAX,
        i <= u64::MAX,
    ensures
        phase_controller::resume_at(Some(text::decimal(i))) == i,
        phase_controller::resume_at(None) == 0,
        text::unsigned(text::trimmed(t)) is None ==> phase_controller::resume_at(Some(t)) == 0,
{
    decimals_denote_the_number(i);
    let s = text::decimal(i);
    digits_are_no_space(s);
    assert(text::is_digit(s[0]));
    assert(text::unsigned_digits(s) == s);
}

/// The length of the first `n` phases.
pub open spec fn length_upto(phases: Seq<PhaseSpecView>, n: int) -> int
    decreases n,
{
    if n <= 0 {
        0
    } else {
        length_upto(phases, n - 1) + phases[n - 1].duration_seconds
    }
}

proof fn durations_add_up(phases: Seq<PhaseSpecView>, n: int)
    requires
        0 <= n <= phases.len(),
    ensures
        model::sum(phase_controller::phase_durations(phases).take(n)) == length_upto(phases, n),
    decreases n,
{
    let all = phase_controller::phase_durations(phases);
    if n > 0 {
        durations_add_up(phases, n - 1);
        model::sum_take(all, n - 1);
        assert(all[n - 1] == phases[n - 1].duration_seconds);
    } else {
        assert(all.take(0) =~= Seq::<int>::empty());
    }
}

/// What is told of a run: whether it waits, runs or is complete, the phase that goes on, and
/// how long all phases take together.
pub proof fn the_state_of_a_run_is_told(c: ControllerView)
    ensures
        c.timeline_complete ==> phase_controller::state_name(c) == "complete"@,
        !c.timeline_complete && c.started ==> phase_controller::state_name(c) == "running"@,
        !c.timeline_complete && !c.started ==> phase_controller::state_name(c) == "waiting"@,
        c.current_phase_index < c.phases.len() ==> phase_controller::current_phase(c)
            == c.phases[c.current_phase_index as int].name,
        c.current_phase_index >= c.phases.len() ==> phase_controller::current_phase(c)
            == "complete"@,
        model::sum(phase_controller::phase_durations(c.phases)) == length_upto(
            c.phases,
            c.phases.len() as int,
        ),
{
    let all = phase_controller::phase_durations(c.phases);
    durations_add_up(c.phases, c.phases.len() as int);
    assert(all.take(c.phases.len() as int) =~= all);
}

/// When workers do not come in time it is said how many came of how many, of either kind.
pub proof fn missing_workers_are_told(c: ControllerView, timeout_s: nat)
    ensures
        text::begins(
            phase_controller::timeout_text(c, timeout_s),
            "Timed out waiting for workers after "@ + text::decimal(timeout_s) + "s"@,
        ),
        text::ends(
            phase_controller::timeout_text(c, timeout_s),
            text::decimal(c.ready_ingest as nat) + " ingest (expected "@ + text::decimal(
                c.expected_ingest_workers as nat,
            ) + "), "@ + text::decimal(c.ready_query as nat) + " query (expected "@
                + text::decimal(c.expected_query_workers as nat) + ")"@,
        ),
{
    reveal_strlit("s");
    reveal_strlit("s. Connected: ");
    let t = phase_controller::timeout_text(c, timeout_s);
    let a = "Timed out waiting for workers after "@ + text::decimal(timeout_s) + "s"@;
    assert("s. Connected: "@.take(1) =~= "s"@);
    assert(t.take(a.len() as int) =~= a);
    let b = text::decimal(c.ready_ingest as nat) + " ingest (expected "@ + text::decimal(
        c.expected_ingest_workers as nat,
    ) + "), "@ + text::decimal(c.ready_query as nat) + " query (expected "@ + text::decimal(
        c.expected_query_workers as nat,
    ) + ")"@;
    assert(t.skip(t.len() - b.len()) =~= b);
}

// ---------------------------------------------------------------------------
// Workers that wait
// ---------------------------------------------------------------------------

/// Between two tries to connect a worker waits a second, then two, four and eight, and from
/// then on ten; it gives up at the thirtieth failure.
pub proof fn tries_come_ever_slower(n: int, tries: Retries)
    ensures
        barrier::backoff_after(1) == 1,
        barrier::backoff_after(2) == 2,
        barrier::backoff_after(3) == 4,
        barrier::backoff_after(4) == 8,
        n >= 5 ==> barrier::backoff_after(n) == 10,
        tries.wf() ==> tries.failed < 30 && 1 <= tries.backoff_s <= 10,
        barrier::MAX_RETRIES == 30,
    decreases n,
{
    reveal_with_fuel(barrier::backoff_after, 6);
    if n > 5 {
        tries_come_ever_slower(n - 1, tries);
    }
    barrier::backoff_is_bounded(tries.failed + 1);
}

/// A worker enters a phase at its moment: not before it, and no later than it can.
pub proof fn phases_are_entered_at_their_moment(
    from_phase: String,
    to_phase: String,
    at: i64,
    rate: i64,
    now_ns: i64,
)
    ensures
        ({
            let event = PhaseEvent::Transition {
                from_phase,
                to_phase,
                transition_time_ns: at,
                new_target_rate: rate,
            };
            let wait = barrier::hold_before(Some(event), now_ns);
            &&& wait >= 0 && now_ns + wait >= at
            &&& wait > 0 ==> now_ns + wait == at
        }),
        barrier::hold_before(None, now_ns) == 0,
        barrier::hold_before(Some(PhaseEvent::RunComplete), now_ns) == 0,
{
}

// ---------------------------------------------------------------------------
// Times
// ---------------------------------------------------------------------------

/// What has passed between two times is the whole seconds between them, counted backwards
/// where the first is the later.
pub proof fn spans_are_whole_seconds(a: Instant, b: Instant)
    requires
        a.ordinary(),
        b.ordinary(),
    ensures
        ({
            let ns = (b.seconds - a.seconds) * 1_000_000_000 + b.nanos - a.nanos;
            let s = clock::between(a, b);
            &&& ns >= 0 ==> s >= 0 && s * 1_000_000_000 <= ns < (s + 1) * 1_000_000_000
            &&& ns <= 0 ==> s <= 0 && (s - 1) * 1_000_000_000 < ns <= s * 1_000_000_000
        }),
{
}

/// A time that cannot be read, or is not there, is no time ago; one that can is as long ago as
/// it is.
pub proof fn unknown_times_are_now(t: Seq<char>, now: Instant)
    ensures
        clock::elapsed(None, now) == 0,
        clock::instant_of(t) is None ==> clock::elapsed(Some(t), now) == 0,
        clock::instant_of(t) is Some ==> clock::elapsed(Some(t), now) == clock::between(
            clock::instant_of(t)->0,
            now,
        ),
{
}

/// Events are stamped to a millisecond, and runs to a second, in UTC.
pub proof fn stamps_are_as_fine_as_they_must_be()
    ensures
        clock::EVENT_PATTERN@ == "%Y-%m-%dT%H:%M:%S%.3fZ"@,
        clock::RUN_PATTERN@ == "%Y%m%d-%H%M%S"@,
{
}

// ---------------------------------------------------------------------------
// What a worker uses
// ---------------------------------------------------------------------------

/// A tick is a hundredth of a second: the share of a processor is the time of its ticks in
/// parts per million of the time that has passed. One that is busy all the time uses a whole
/// one.
pub proof fn shares_are_of_the_time_passed(ticks: int, elapsed_ns: int)
    requires
        ticks >= 0,
        elapsed_ns > 0,
        ticks * 10_000_000_000_000 <= u64::MAX,
    ensures
        ({
            let share = proc_metrics::utilisation(ticks, elapsed_ns);
            &&& share * elapsed_ns <= ticks * 10_000_000_000_000 < (share + 1) * elapsed_ns
            &&& ticks * 10_000_000 == elapsed_ns ==> share == 1_000_000
        }),
        proc_metrics::utilisation(ticks, 0) == 0,
{
    let n = ticks * 10_000_000_000_000;
    vstd::arithmetic::div_mod::lemma_fundamental_div_mod(n, elapsed_ns);
    vstd::arithmetic::div_mod::lemma_mod_bound(n, elapsed_ns);
    vstd::arithmetic::div_mod::lemma_div_pos_is_pos(n, elapsed_ns);
    let q = n / elapsed_ns;
    assert(q <= n) by (nonlinear_arith)
        requires
            q * elapsed_ns <= n || elapsed_ns * q <= n,
            q >= 0,
            elapsed_ns >= 1,
            n >= 0,
    ;
    assert(q * elapsed_ns == elapsed_ns * q) by (nonlinear_arith);
    assert((q + 1) * elapsed_ns == q * elapsed_ns + elapsed_ns) by (nonlinear_arith);
    if ticks * 10_000_000 == elapsed_ns {
        assert(n == 1_000_000 * elapsed_ns);
        assert(q == 1_000_000) by (nonlinear_arith)
            requires
                n == 1_000_000 * elapsed_ns,
                q * elapsed_ns <= n < (q + 1) * elapsed_ns,
                elapsed_ns > 0,
        ;
    }
}

proof fn last_parenthesis(s: Seq<char>, n: int, at: int)
    requires
        0 <= at < n <= s.len(),
        s[at] == ')',
        forall|i: int| at < i < n ==> s[i] != ')',
    ensures
        proc_metrics::behind_name(s, n) == Some(at + 1),
    decreases n,
{
    if n - 1 > at {
        last_parenthesis(s, n - 1, at);
    }
}

/// The ticks of a process are those of its user and its system time, the twelfth and the
/// thirteenth field behind its name, which may hold anything.
pub proof fn ticks_are_those_of_both_modes(
    stat: Seq<char>,
    at: int,
    user: nat,
    system: nat,
)
    requires
        0 <= at < stat.len() - 1,
        stat[at] == ')',
        forall|i: int| at < i < stat.len() ==> stat[i] != ')',
        proc_metrics::words(stat.skip(at + 2)).len() > 12,
        text::unsigned(proc_metrics::words(stat.skip(at + 2))[11]) == Some(user),
        text::unsigned(proc_metrics::words(stat.skip(at + 2))[12]) == Some(system),
        user + system <= u64::MAX,
    ensures
        proc_metrics::ticks(stat) == Some(user + system),
{
    last_parenthesis(stat, stat.len() as int, at);
}

/// The memory of a process is in units of 1024 bytes, where its account gives it so.
pub proof fn memory_is_in_kilobytes(rest: Seq<char>, number: Seq<char>, n: nat)
    requires
        text::trimmed(rest) == number + "kB"@,
        text::unsigned(text::trimmed(number)) == Some(n),
        n * 1024 <= u64::MAX,
    ensures
        proc_metrics::kilobytes(rest) == Some(n * 1024),
{
    let t = text::trimmed(rest);
    assert(t.skip(t.len() - "kB"@.len()) =~= "kB"@);
    assert(t.take(t.len() - "kB"@.len()) =~= number);
}

proof fn first_of_the_name(lines: Seq<Seq<char>>, i: int, at: int)
    requires
        0 <= i <= at < lines.len(),
        forall|j: int| i <= j < at ==> !text::begins(#[trigger] lines[j], "VmRSS:"@),
        text::begins(lines[at], "VmRSS:"@),
    ensures
        proc_metrics::resident(lines, i) == proc_metrics::kilobytes(
            lines[at].skip("VmRSS:"@.len() as int),
        ),
    decreases at - i,
{
    if i < at {
        assert(!text::begins(lines[i], "VmRSS:"@));
        first_of_the_name(lines, i + 1, at);
    }
}

/// It is the resident memory that counts: the line `VmRSS` of the account, wherever it stands.
pub proof fn memory_is_what_is_resident(status: Seq<char>, at: int, rest: Seq<char>)
    requires
        0 <= at < text::pieces(status, "\n"@).len(),
        text::pieces(status, "\n"@)[at] == "VmRSS:"@ + rest,
        forall|j: int|
            0 <= j < at ==> !text::begins(#[trigger] text::pieces(status, "\n"@)[j], "VmRSS:"@),
    ensures
        proc_metrics::resident_bytes(status) == proc_metrics::kilobytes(rest),
{
    let lines = text::pieces(status, "\n"@);
    let n = "VmRSS:"@.len() as int;
    assert(lines[at].take(n) =~= "VmRSS:"@);
    assert(lines[at].skip(n) =~= rest);
    first_of_the_name(lines, 0, at);
}

// ---------------------------------------------------------------------------
// What is behind
// ---------------------------------------------------------------------------

/// The messages of the first `n` partitions that were written and not consumed.
pub open spec fn unread(p: Seq<PartitionOffsets>, n: int) -> int
    decreases n,
{
    if n <= 0 {
        0
    } else {
        let consumed = if p[n - 1].committed is Some {
            p[n - 1].committed->0 as int
        } else {
            0
        };
        unread(p, n - 1) + (if p[n - 1].high > consumed {
            p[n - 1].high - consumed
        } else {
            0
        })
    }
}

proof fn lags_add_up(p: Seq<PartitionOffsets>, n: int)
    requires
        0 <= n <= p.len(),
    ensures
        model::sum(lag::partition_lags(p).take(n)) == unread(p, n),
    decreases n,
{
    let all = lag::partition_lags(p);
    if n > 0 {
        lags_add_up(p, n - 1);
        model::sum_take(all, n - 1);
        assert(all[n - 1] == lag::partition_lag(p[n - 1]));
    } else {
        assert(all.take(0) =~= Seq::<int>::empty());
    }
}

/// The lag of a topic is that of all its partitions together; a partition of which nothing was
/// consumed counts as a whole, and one that is ahead does not make up for another.
pub proof fn the_lag_is_that_of_all_partitions(p: Seq<PartitionOffsets>)
    requires
        unread(p, p.len() as int) <= u64::MAX,
    ensures
        lag::topic_lag(p) == unread(p, p.len() as int),
{
    let all = lag::partition_lags(p);
    lags_add_up(p, p.len() as int);
    assert(all.take(p.len() as int) =~= all);
}

} // verus!
