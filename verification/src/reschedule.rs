//! An actor that reschedules itself: like `Worker`, but its `Run` command
//! carries only the work, which produces the next state on its own.
use vstd::prelude::*;
use crate::worker::{Delay, Event};

verus! {

/// The delay, in seconds, before a started actor hands its start state to
/// its guts.
pub const START_DELAY_SECS: u64 = 5;

/// The delay before a started actor hands its start state to its guts.
pub open spec fn start_delay() -> Delay {
    Delay { secs: START_DELAY_SECS, nanos: 0 }
}

/// An error carrying a numeric code.
#[derive(Debug)]
pub struct Error {
    code: i32,
}

impl View for Error {
    type V = i32;

    closed spec fn view(&self) -> i32 {
        self.code
    }
}

impl Error {
    /// Creates an error with code `c`.
    pub fn new(c: i32) -> (e: Error)
        ensures
            e@ == c,
    {
        Error { code: c }
    }

    /// The error's code.
    pub fn code(&self) -> (c: i32)
        ensures
            c == self@,
    {
        self.code
    }
}

/// The instructions that an `Actor` understands.
#[derive(Debug, Clone, PartialEq)]
pub enum Cmd<S, W> {
    /// Start with a certain state.
    Start(S),
    /// Run the work; it yields the state to go on with.
    Run(W),
    /// Switch to the state after the given delay.
    After(Delay, S),
}

/// What the event loop has to do to carry out one command of an actor.
#[derive(Debug, Clone, PartialEq)]
pub enum Step<S, W> {
    /// Wait for `delay`, then hand `state` to the guts.
    Wait { delay: Delay, state: S },
    /// Run `work`, then hand the state it yields to the guts.
    Work { work: W },
}

/// The step that carries out `cmd`.
pub open spec fn step_for<S, W>(cmd: Cmd<S, W>) -> Step<S, W> {
    match cmd {
        Cmd::Start(state) => Step::Wait { delay: start_delay(), state },
        Cmd::After(delay, state) => Step::Wait { delay, state },
        Cmd::Run(work) => Step::Work { work },
    }
}

/// A background actor: it holds the state it was started with.
#[derive(Debug)]
pub struct Actor<S> {
    state: S,
}

impl<S> View for Actor<S> {
    type V = S;

    closed spec fn view(&self) -> S {
        self.state
    }
}

impl<S: Clone> Actor<S> {
    /// An actor that starts in `start_state`.
    pub fn new(start_state: S) -> (a: Actor<S>)
        ensures
            a@ == start_state,
    {
        Actor { state: start_state }
    }

    /// The command that starts this actor: `Start` with (a clone of) its
    /// start state.
    pub fn start_cmd<W>(&self) -> (cmd: Cmd<S, W>)
        ensures
            cmd matches Cmd::Start(s) && cloned(self@, s),
    {
        Cmd::Start(self.state.clone())
    }

    /// The step that carries out `cmd`: `Start` waits the start delay,
    /// `After` waits its own delay, and both then hand their state to the
    /// guts; `Run` runs its work.
    pub fn run_guts<W>(cmd: Cmd<S, W>) -> (step: Step<S, W>)
        ensures
            step == step_for(cmd),
    {
        match cmd {
            Cmd::Start(state) => Step::Wait { delay: Delay { secs: START_DELAY_SECS, nanos: 0 }, state },
            Cmd::After(delay, state) => Step::Wait { delay, state },
            Cmd::Run(work) => Step::Work { work },
        }
    }
}

/// The state that the guts receive when `step` ends with `event`: a wait
/// hands on its own state, whatever became of its timer; a work hands on the
/// state that it yielded.
pub open spec fn guts_input<S, W>(step: Step<S, W>, event: Event<S>) -> S
    recommends
        step is Work ==> event is Finished,
{
    match step {
        Step::Wait { state, .. } => state,
        Step::Work { .. } => event->Finished_0,
    }
}

impl<S, W> Step<S, W> {
    /// The state handed to the guts when this step ends with `event`.
    pub fn resume(self, event: Event<S>) -> (input: S)
        requires
            self is Wait ==> event is Elapsed,
            self is Work ==> event is Finished,
        ensures
            input == guts_input(self, event),
    {
        match self {
            Step::Wait { state, .. } => state,
            Step::Work { .. } => match event {
                Event::Finished(state) => state,
                Event::Elapsed => unreached(),
            },
        }
    }
}

/// Carrying out a command and resuming feeds the actor's guts as the command
/// says: a `Start` waits the start delay and an `After` waits its own delay,
/// and each then hands on the state it carries; a `Run` runs its work and
/// hands on whatever state the work yields.
pub proof fn law_actor_command_feeds_guts<S, W>(cmd: Cmd<S, W>, yielded: S)
    ensures
        match cmd {
            Cmd::Start(s) => {
                &&& step_for(cmd) == Step::<S, W>::Wait { delay: start_delay(), state: s }
                &&& start_delay().as_nanos() == 5_000_000_000
                &&& guts_input(step_for(cmd), Event::Elapsed) == s
            },
            Cmd::After(d, s) => {
                &&& step_for(cmd) == Step::<S, W>::Wait { delay: d, state: s }
                &&& guts_input(step_for(cmd), Event::Elapsed) == s
            },
            Cmd::Run(w) => {
                &&& step_for(cmd) == Step::<S, W>::Work { work: w }
                &&& guts_input(step_for(cmd), Event::Finished(yielded)) == yielded
            },
        },
{
}

/// The pause, in seconds, before the actor moves on from a start or from the
/// end.
pub const PAUSE_SECS: u64 = 1;

/// The pause before the actor moves on from a start or from the end.
pub open spec fn pause() -> Delay {
    Delay { secs: PAUSE_SECS, nanos: 0 }
}

/// The value that the `Foo` state carries after a start.
pub const FOO_VALUE: i32 = 20;

/// The time, in milliseconds, that the simulated remote call takes.
pub const REMOTE_DELAY_MILLIS: u64 = 5000;

/// The states of the example actor.
#[derive(Copy, Clone, Debug, PartialEq, Eq, Structural)]
pub enum State {
    Start(i32),
    Foo(i32),
    End,
}

/// The asynchronous work that the example actor asks for.
#[derive(Copy, Clone, Debug, PartialEq, Eq, Structural)]
pub enum Job {
    /// Wait for a simulated remote call; it yields `End`.
    DoFoo,
}

/// The command that the example actor issues in `state`.
pub open spec fn update_cmd(state: State) -> Cmd<State, Job> {
    match state {
        State::Start(_) => Cmd::After(pause(), State::Foo(FOO_VALUE)),
        State::Foo(_) => Cmd::Run(Job::DoFoo),
        State::End => Cmd::After(pause(), State::End),
    }
}

/// The guts of the example actor: from a start it moves to `Foo(20)` after a
/// pause; in `Foo` it runs `DoFoo`; at the end it stays at the end, checking
/// again after a pause.
pub fn update(state: State) -> (cmd: Cmd<State, Job>)
    ensures
        cmd == update_cmd(state),
{
    match state {
        State::Start(_) => Cmd::After(Delay { secs: PAUSE_SECS, nanos: 0 }, State::Foo(FOO_VALUE)),
        State::Foo(_) => Cmd::Run(Job::DoFoo),
        State::End => Cmd::After(Delay { secs: PAUSE_SECS, nanos: 0 }, State::End),
    }
}

/// The state that the `DoFoo` job yields once the remote call is done.
pub fn do_foo() -> (next: State)
    ensures
        next == State::End,
{
    State::End
}

/// From a start, whatever its value, the actor moves to `Foo(20)` after a
/// one-second pause.
pub proof fn law_start_pauses_then_foo(s: i32)
    ensures
        update_cmd(State::Start(s)) == Cmd::<State, Job>::After(
            Delay { secs: 1, nanos: 0 },
            State::Foo(20),
        ),
{
}

/// In `Foo`, whatever its value, the actor runs the `DoFoo` job (the
/// simulated remote call, which yields the end); it never skips it.
pub proof fn law_foo_runs_do_foo(v: i32)
    ensures
        update_cmd(State::Foo(v)) == Cmd::<State, Job>::Run(Job::DoFoo),
{
}

/// At the end, the actor stays at the end, checking again after a one-second
/// pause.
pub proof fn law_end_waits_at_end()
    ensures
        update_cmd(State::End) == Cmd::<State, Job>::After(
            Delay { secs: 1, nanos: 0 },
            State::End,
        ),
{
}

/// The state that the example actor's guts see next, after they have been
/// called on `state` and the command they issued has been carried out.
pub open spec fn next_state(state: State) -> State {
    let step = step_for(update_cmd(state));
    let event = match step {
        Step::Wait { .. } => Event::Elapsed,
        Step::Work { .. } => Event::Finished(State::End),
    };
    guts_input(step, event)
}

/// The state after `n` rounds of the example actor from `state`.
pub open spec fn iterate(state: State, n: nat) -> State
    decreases n,
{
    if n == 0 {
        state
    } else {
        iterate(next_state(state), (n - 1) as nat)
    }
}

/// The end is where the example actor stays: once there, every later round
/// is at the end too.
pub proof fn law_end_is_absorbing(n: nat)
    ensures
        iterate(State::End, n) == State::End,
    decreases n,
{
    if n > 0 {
        law_end_is_absorbing((n - 1) as nat);
    }
}

/// From any state, the example actor is at the end after at most two rounds
/// (a start goes through `Foo(20)`), and stays there.
pub proof fn law_reaches_end(state: State, n: nat)
    requires
        n >= 2,
    ensures
        iterate(state, n) == State::End,
{
    let m = (n - 2) as nat;
    law_end_is_absorbing(m);
    law_end_is_absorbing((m + 1) as nat);
    assert(iterate(State::End, (m + 1) as nat) == iterate(State::End, m));
    match state {
        State::Start(_) => {
            assert(next_state(state) == State::Foo(FOO_VALUE));
            assert(iterate(state, n) == iterate(State::Foo(FOO_VALUE), (n - 1) as nat));
            assert(iterate(State::Foo(FOO_VALUE), (n - 1) as nat) == iterate(State::End, m));
        },
        State::Foo(_) => {
            assert(iterate(state, n) == iterate(State::End, (n - 1) as nat));
        },
        State::End => {
            law_end_is_absorbing(n);
        },
    }
}

} // verus!
