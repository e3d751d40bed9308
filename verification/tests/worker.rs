use wrk::worker::START_DELAY_SECS;
use wrk::{Cmd, Delay, Error, Event, Step, Worker};

#[test]
fn error_keeps_its_code() {
    assert_eq!(Error::new(7).code(), 7);
    assert_eq!(Error::new(-1).code(), -1);
}

#[test]
fn start_cmd_carries_start_state() {
    let w = Worker::new(5i32);
    let cmd: Cmd<i32, &str> = w.start_cmd();
    assert_eq!(cmd, Cmd::Start(5));
}

#[test]
fn start_waits_the_start_delay() {
    let step = Worker::run_guts(Cmd::<i32, &str>::Start(3));
    assert_eq!(step, Step::Wait { delay: Delay { secs: 5, nanos: 0 }, state: 3 });
    assert_eq!(START_DELAY_SECS, 5);
}

#[test]
fn after_waits_its_own_delay() {
    let step = Worker::run_guts(Cmd::<i32, &str>::After(Delay { secs: 0, nanos: 1_500_000 }, 4));
    assert_eq!(step, Step::Wait { delay: Delay { secs: 0, nanos: 1_500_000 }, state: 4 });
}

#[test]
fn run_runs_its_work_on_its_state() {
    let step = Worker::run_guts(Cmd::Run(6i32, "job"));
    assert_eq!(step, Step::Work { state: 6, work: "job" });
}

#[test]
fn wait_resumes_with_its_own_state() {
    let step: Step<i32, &str> = Step::Wait { delay: Delay { secs: 0, nanos: 10 }, state: 11 };
    assert_eq!(step.resume(Event::Elapsed), 11);
}

#[test]
fn work_resumes_with_what_it_yielded() {
    let step: Step<i32, &str> = Step::Work { state: 1, work: "job" };
    assert_eq!(step.resume(Event::Finished(9)), 9);
}

#[test]
fn command_then_resume_feeds_guts() {
    let fed = Worker::run_guts(Cmd::<i32, ()>::After(Delay { secs: 1, nanos: 0 }, 21)).resume(Event::Elapsed);
    assert_eq!(fed, 21);
    let fed = Worker::run_guts(Cmd::Run(21i32, ())).resume(Event::Finished(22));
    assert_eq!(fed, 22);
}
