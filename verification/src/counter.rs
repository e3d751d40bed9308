//! A counting worker: after a start it counts, one asynchronous job per count,
//! until it reaches a limit, pauses, and starts over.
use vstd::prelude::*;
use crate::worker::{Cmd, Delay, Event, Step, guts_input, step_for};

verus! {

/// The pause, in seconds, between starting and counting, and between the
/// last count and the end.
pub const STEP_SECS: u64 = 1;

/// The pause, in seconds, between the end and starting over.
pub const RESTART_SECS: u64 = 10;

/// The pause between starting and counting, and between the last count and
/// the end.
pub open spec fn step_pause() -> Delay {
    Delay { secs: STEP_SECS, nanos: 0 }
}

/// The pause between the end and starting over.
pub open spec fn restart_pause() -> Delay {
    Delay { secs: RESTART_SECS, nanos: 0 }
}

/// The count from which the worker stops counting.
pub const COUNT_LIMIT: i32 = 4;

/// The count that the worker starts over with.
pub const RESTART_COUNT: i32 = 1;

/// The time, in milliseconds, that fetching the remote value takes.
pub const REMOTE_DELAY_MILLIS: u64 = 5000;

/// The value that the simulated remote call yields.
pub const REMOTE_VALUE: i32 = 42;

/// The states of the counting worker.
#[derive(Copy, Clone, Debug, PartialEq, Eq, Structural)]
pub enum State {
    Start(i32),
    Counting(i32),
    End,
}

/// The asynchronous work that the counting worker asks for.
#[derive(Copy, Clone, Debug, PartialEq, Eq, Structural)]
pub enum Job {
    /// Fetch a remote value, then count once.
    Count,
}

/// The command that the counting worker issues in `state`.
pub open spec fn counter_cmd(state: State) -> Cmd<State, Job> {
    match state {
        State::Start(s) => Cmd::After(step_pause(), State::Counting(s)),
        State::Counting(s) => if s < COUNT_LIMIT {
            Cmd::Run(State::Counting(s), Job::Count)
        } else {
            Cmd::After(step_pause(), State::End)
        },
        State::End => Cmd::After(restart_pause(), State::Start(RESTART_COUNT)),
    }
}

/// The state that a finished `Count` job yields.
pub open spec fn count_result(state: State) -> State {
    State::Counting((state->Counting_0 + 1) as i32)
}

/// The internal state machine of the counting worker: from `Start(s)` it
/// counts from `s` after a pause; while the count is below the limit it runs a
/// `Count` job; then it ends after a pause, and from the end it starts over
/// with count 1 after a longer pause.
pub fn counter_worker_func(state: State) -> (cmd: Cmd<State, Job>)
    ensures
        cmd == counter_cmd(state),
{
    match state {
        State::Start(s) => Cmd::After(Delay { secs: STEP_SECS, nanos: 0 }, State::Counting(s)),
        State::Counting(s) => {
            if s < COUNT_LIMIT {
                Cmd::Run(State::Counting(s), Job::Count)
            } else {
                Cmd::After(Delay { secs: STEP_SECS, nanos: 0 }, State::End)
            }
        },
        State::End => Cmd::After(Delay { secs: RESTART_SECS, nanos: 0 }, State::Start(RESTART_COUNT)),
    }
}

/// The state that a `Count` job yields once the remote value has arrived: the
/// count goes up by one. The job is only ever run on a `Counting` state.
pub fn do_count(state: State) -> (next: State)
    requires
        state is Counting,
        state->Counting_0 < i32::MAX,
    ensures
        next == count_result(state),
        next is Counting,
        next->Counting_0 == state->Counting_0 + 1,
{
    match state {
        State::Counting(c) => State::Counting(c + 1),
        _ => unreached(),
    }
}

/// The value that the simulated remote call yields.
pub fn remote_value() -> (v: i32)
    ensures
        v == REMOTE_VALUE,
        v == 42,
{
    REMOTE_VALUE
}

/// How a step of the counting worker ends: a wait simply elapses; a `Count`
/// job yields the next count.
pub open spec fn counter_event(step: Step<State, Job>) -> Event<State> {
    match step {
        Step::Wait { .. } => Event::Elapsed,
        Step::Work { state, .. } => Event::Finished(count_result(state)),
    }
}

/// The state that the counting worker's guts see next, after they have been
/// called on `state` and the command they issued has been carried out.
pub open spec fn next_state(state: State) -> State {
    let step = step_for(counter_cmd(state));
    guts_input(step, counter_event(step))
}

/// The state after `n` rounds of the counting worker from `state`.
pub open spec fn iterate(state: State, n: nat) -> State
    decreases n,
{
    if n == 0 {
        state
    } else {
        iterate(next_state(state), (n - 1) as nat)
    }
}

/// The number of rounds from `Start(s)` until the end.
pub open spec fn rounds_to_end(s: i32) -> nat {
    if s < COUNT_LIMIT {
        (6 - s) as nat
    } else {
        2
    }
}

/// From a start, whatever its count, the worker pauses one second and then
/// counts from that same count.
pub proof fn law_start_pauses_then_counts(s: i32)
    ensures
        counter_cmd(State::Start(s)) == Cmd::<State, Job>::After(
            Delay { secs: 1, nanos: 0 },
            State::Counting(s),
        ),
{
}

/// Every count below four is raised by the `Count` job, run on the current
/// state itself (fetch the remote value, then count), never by a timer.
pub proof fn law_counting_below_limit_runs_count_job(c: i32)
    requires
        c < 4,
    ensures
        counter_cmd(State::Counting(c)) == Cmd::<State, Job>::Run(State::Counting(c), Job::Count),
{
}

/// A count of four or more is not raised any further: the worker ends after
/// a one-second pause.
pub proof fn law_counting_at_limit_ends(c: i32)
    requires
        c >= 4,
    ensures
        counter_cmd(State::Counting(c)) == Cmd::<State, Job>::After(
            Delay { secs: 1, nanos: 0 },
            State::End,
        ),
{
}

/// From the end, the worker starts over with count one after a ten-second
/// pause.
pub proof fn law_end_restarts()
    ensures
        counter_cmd(State::End) == Cmd::<State, Job>::After(
            Delay { secs: 10, nanos: 0 },
            State::Start(1),
        ),
{
}

/// A finished `Count` job raises the count by exactly one, whatever the
/// count (as long as it can go up).
pub proof fn law_count_job_increments(c: i32)
    requires
        c < i32::MAX,
    ensures
        count_result(State::Counting(c)) == State::Counting((c + 1) as i32),
        count_result(State::Counting(c))->Counting_0 == c + 1,
{
}

/// A `Count` job is only asked for on a count below the limit, so the job's
/// own requirements (a `Counting` state whose count can go up) always hold.
pub proof fn law_count_job_is_safe(state: State)
    ensures
        counter_cmd(state) matches Cmd::Run(s, job) ==> {
            &&& job == Job::Count
            &&& s is Counting
            &&& s->Counting_0 < COUNT_LIMIT
            &&& s->Counting_0 < i32::MAX
        },
{
}

/// One round of the counting worker: a start moves to counting from the same
/// count; a count below the limit goes up by one; a count at or above the
/// limit ends; the end starts over with count 1.
pub proof fn law_counter_round(state: State)
    ensures
        next_state(state) == match state {
            State::Start(s) => State::Counting(s),
            State::Counting(c) => if c < COUNT_LIMIT {
                State::Counting((c + 1) as i32)
            } else {
                State::End
            },
            State::End => State::Start(RESTART_COUNT),
        },
{
}

/// From `Counting(c)` with `c` at most the limit, the worker ends after
/// `COUNT_LIMIT - c + 1` rounds.
proof fn lemma_counting_ends(c: i32)
    requires
        c <= COUNT_LIMIT,
    ensures
        iterate(State::Counting(c), (COUNT_LIMIT - c + 1) as nat) == State::End,
    decreases COUNT_LIMIT - c,
{
    if c < COUNT_LIMIT {
        lemma_counting_ends((c + 1) as i32);
        assert(iterate(State::Counting(c), (COUNT_LIMIT - c + 1) as nat) == iterate(
            State::Counting((c + 1) as i32),
            (COUNT_LIMIT - (c + 1) + 1) as nat,
        ));
    } else {
        assert(iterate(State::End, 0) == State::End);
    }
}

/// Whatever count it starts with, the counting worker reaches its end: after
/// `rounds_to_end(s)` rounds from `Start(s)`.
pub proof fn law_counter_reaches_end(s: i32)
    ensures
        iterate(State::Start(s), rounds_to_end(s)) == State::End,
{
    if s < COUNT_LIMIT {
        lemma_counting_ends(s);
        assert(iterate(State::Start(s), rounds_to_end(s)) == iterate(
            State::Counting(s),
            (COUNT_LIMIT - s + 1) as nat,
        ));
    } else {
        assert(iterate(State::Counting(s), 1) == iterate(State::End, 0));
    }
}

/// Started with count 1, the counting worker goes through
/// `Counting(1)`, `Counting(2)`, `Counting(3)`, `Counting(4)` and `End`, and
/// is back at `Start(1)` after six rounds: it runs in a cycle.
pub proof fn law_counter_cycle()
    ensures
        iterate(State::Start(1), 1) == State::Counting(1),
        iterate(State::Start(1), 2) == State::Counting(2),
        iterate(State::Start(1), 3) == State::Counting(3),
        iterate(State::Start(1), 4) == State::Counting(4),
        iterate(State::Start(1), 5) == State::End,
        iterate(State::Start(1), 6) == State::Start(1),
{
    reveal_with_fuel(iterate, 7);
}

} // verus!
