use wrk::reschedule::{do_foo, update, Actor, Cmd, Error, Job, State, Step};
use wrk::{Delay, Event};

fn actor_round(state: State) -> State {
    let step = Actor::<State>::run_guts(update(state));
    match step {
        Step::Wait { .. } => step.resume(Event::Elapsed),
        Step::Work { work: Job::DoFoo } => step.resume(Event::Finished(do_foo())),
    }
}

#[test]
fn actor_error_keeps_its_code() {
    assert_eq!(Error::new(12).code(), 12);
}

#[test]
fn actor_start_cmd_carries_start_state() {
    let a = Actor::new(State::Start(10));
    let cmd: Cmd<State, Job> = a.start_cmd();
    assert_eq!(cmd, Cmd::Start(State::Start(10)));
}

#[test]
fn actor_steps() {
    assert_eq!(
        Actor::<State>::run_guts(Cmd::<State, Job>::Start(State::End)),
        Step::Wait { delay: Delay { secs: 5, nanos: 0 }, state: State::End }
    );
    assert_eq!(
        Actor::<State>::run_guts(Cmd::<State, Job>::After(Delay { secs: 1, nanos: 0 }, State::Foo(20))),
        Step::Wait { delay: Delay { secs: 1, nanos: 0 }, state: State::Foo(20) }
    );
    assert_eq!(
        Actor::<State>::run_guts(Cmd::<State, Job>::Run(Job::DoFoo)),
        Step::Work { work: Job::DoFoo }
    );
}

#[test]
fn update_decisions() {
    assert_eq!(update(State::Start(10)), Cmd::After(Delay { secs: 1, nanos: 0 }, State::Foo(20)));
    assert_eq!(update(State::Foo(20)), Cmd::Run(Job::DoFoo));
    assert_eq!(update(State::End), Cmd::After(Delay { secs: 1, nanos: 0 }, State::End));
}

#[test]
fn do_foo_yields_end() {
    assert_eq!(do_foo(), State::End);
}

#[test]
fn actor_reaches_end_and_stays() {
    let mut s = State::Start(10);
    s = actor_round(s);
    assert_eq!(s, State::Foo(20));
    s = actor_round(s);
    assert_eq!(s, State::End);
    for _ in 0..3 {
        s = actor_round(s);
        assert_eq!(s, State::End);
    }
}
