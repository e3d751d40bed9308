//! A worker whose behaviour is an internal state machine.
//!
//! The user supplies a function (the worker's "guts") from a state to a
//! command. Each command says what the worker does next: begin with a state,
//! wait a while before handing a state back to the guts, or run a piece of
//! asynchronous work on a state and hand its result back to the guts.
//!
//! The decisions of that loop live here: which step a command asks for
//! (`Worker::run_guts`) and which state the guts receive once the step is over
//! (`Step::resume`). Performing the step (timers, futures) is left to the
//! event loop that drives the worker.
use vstd::prelude::*;

verus! {

/// The delay, in seconds, before a worker that has just been started hands
/// its start state to its guts.
pub const START_DELAY_SECS: u64 = 5;

/// The number of nanoseconds in a second.
pub const NANOS_PER_SEC: u32 = 1_000_000_000;

/// A span of time: `secs` seconds plus `nanos` nanoseconds, as a
/// `std::time::Duration` holds it. The event loop turns it into a `Duration`
/// with `Duration::new(secs, nanos)`.
#[derive(Clone, Copy, Debug, PartialEq, Eq, Structural)]
pub struct Delay {
    pub secs: u64,
    pub nanos: u32,
}

impl Delay {
    /// The span in nanoseconds.
    pub open spec fn as_nanos(self) -> nat {
        self.secs as nat * NANOS_PER_SEC as nat + self.nanos as nat
    }
}

/// The delay before a started worker hands its start state to its guts.
pub open spec fn start_delay() -> Delay {
    Delay { secs: START_DELAY_SECS, nanos: 0 }
}

/// An error carrying a numeric code.
#[derive(Debug)]
pub struct Error {
    code: i32,
}

impl View for Error {
    type V = i32;

    closed spec fn view(&self) -> i32 {
        self.code
    }
}

impl Error {
    /// Creates an error with code `c`.
    pub fn new(c: i32) -> (e: Error)
        ensures
            e@ == c,
    {
        Error { code: c }
    }

    /// The error's code.
    pub fn code(&self) -> (c: i32)
        ensures
            c == self@,
    {
        self.code
    }
}

/// The instructions that a `Worker` understands. Each one leads, once carried
/// out, to a new state for the worker's guts.
///
/// `W` is the asynchronous work that a `Run` command names; the event loop
/// knows how to run it on a state.
#[derive(Debug, Clone, PartialEq)]
pub enum Cmd<S, W> {
    /// Start with a certain state.
    Start(S),
    /// Run the work on the state; the work yields the state to go on with.
    Run(S, W),
    /// Switch to the state after the given delay.
    After(Delay, S),
}

/// What the event loop has to do to carry out one command.
#[derive(Debug, Clone, PartialEq)]
pub enum Step<S, W> {
    /// Wait for `delay`, then hand `state` to the guts.
    Wait { delay: Delay, state: S },
    /// Run `work` on `state`, then hand the state it yields to the guts.
    Work { state: S, work: W },
}

/// How a step ended.
#[derive(Debug, Clone, PartialEq)]
pub enum Event<S> {
    /// The timer of a `Wait` step went off (or failed: either way the worker
    /// goes on).
    Elapsed,
    /// The work of a `Work` step completed and yielded this state.
    Finished(S),
}

/// The step that carries out `cmd`.
pub open spec fn step_for<S, W>(cmd: Cmd<S, W>) -> Step<S, W> {
    match cmd {
        Cmd::Start(state) => Step::Wait { delay: start_delay(), state },
        Cmd::After(delay, state) => Step::Wait { delay, state },
        Cmd::Run(state, work) => Step::Work { state, work },
    }
}

/// Whether `event` is a possible ending of `step`.
pub open spec fn ends<S, W>(step: Step<S, W>, event: Event<S>) -> bool {
    match step {
        Step::Wait { .. } => event is Elapsed,
        Step::Work { .. } => event is Finished,
    }
}

/// The state that the guts receive when `step` ends with `event`.
pub open spec fn guts_input<S, W>(step: Step<S, W>, event: Event<S>) -> S
    recommends
        ends(step, event),
{
    match step {
        Step::Wait { state, .. } => state,
        Step::Work { .. } => event->Finished_0,
    }
}

impl<S, W> Step<S, W> {
    /// The state handed to the guts when this step ends with `event`.
    pub fn resume(self, event: Event<S>) -> (input: S)
        requires
            ends(self, event),
        ensures
            input == guts_input(self, event),
    {
        match self {
            Step::Wait { state, .. } => state,
            Step::Work { .. } => match event {
                Event::Finished(state) => state,
                Event::Elapsed => unreached(),
            },
        }
    }
}

/// A worker: it holds the state it was started with; its guts drive it from
/// there.
#[derive(Debug)]
pub struct Worker<S> {
    state: S,
}

impl<S> View for Worker<S> {
    type V = S;

    closed spec fn view(&self) -> S {
        self.state
    }
}

impl<S: Clone> Worker<S> {
    /// A worker that starts in `start_state`.
    pub fn new(start_state: S) -> (w: Worker<S>)
        ensures
            w@ == start_state,
    {
        Worker { state: start_state }
    }

    /// The command that starts this worker: `Start` with (a clone of) its
    /// start state.
    pub fn start_cmd<W>(&self) -> (cmd: Cmd<S, W>)
        ensures
            cmd matches Cmd::Start(s) && cloned(self@, s),
    {
        Cmd::Start(self.state.clone())
    }

    /// The step that carries out `cmd`: `Start` waits the start delay,
    /// `After` waits its own delay, and both then hand their state to the
    /// guts; `Run` runs its work on its state.
    pub fn run_guts<W>(cmd: Cmd<S, W>) -> (step: Step<S, W>)
        ensures
            step == step_for(cmd),
    {
        match cmd {
            Cmd::Start(state) => Step::Wait { delay: Delay { secs: START_DELAY_SECS, nanos: 0 }, state },
            Cmd::After(delay, state) => Step::Wait { delay, state },
            Cmd::Run(state, work) => Step::Work { state, work },
        }
    }
}

/// Carrying out a command and resuming feeds the guts as the command says: a
/// `Start` waits the start delay and an `After` waits its own delay, and each
/// then hands on the state it carries; a `Run` runs its work on the state it
/// carries and hands on whatever state the work yields.
pub proof fn law_command_feeds_guts<S, W>(cmd: Cmd<S, W>, yielded: S)
    ensures
        match cmd {
            Cmd::Start(s) => {
                &&& step_for(cmd) == Step::<S, W>::Wait { delay: start_delay(), state: s }
                &&& start_delay().as_nanos() == 5_000_000_000
                &&& guts_input(step_for(cmd), Event::Elapsed) == s
            },
            Cmd::After(d, s) => {
                &&& step_for(cmd) == Step::<S, W>::Wait { delay: d, state: s }
                &&& guts_input(step_for(cmd), Event::Elapsed) == s
            },
            Cmd::Run(s, w) => {
                &&& step_for(cmd) == Step::Work { state: s, work: w }
                &&& ends(step_for(cmd), Event::Finished(yielded))
                &&& guts_input(step_for(cmd), Event::Finished(yielded)) == yielded
            },
        },
{
}

} // verus!
