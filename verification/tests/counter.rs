use wrk::counter::{counter_worker_func, do_count, remote_value, Job, State};
use wrk::{Cmd, Delay, Event, Step, Worker};

/// One round of the counting worker, carried out with the library's own
/// decisions: the guts' command, its step, the job's result, the resumption.
fn round(state: State) -> State {
    let step = Worker::run_guts(counter_worker_func(state));
    match step {
        Step::Wait { .. } => step.resume(Event::Elapsed),
        Step::Work { state: s, work: Job::Count } => {
            let next = do_count(s);
            step.resume(Event::Finished(next))
        }
    }
}

#[test]
fn start_counts_after_a_pause() {
    assert_eq!(counter_worker_func(State::Start(1)), Cmd::After(Delay { secs: 1, nanos: 0 }, State::Counting(1)));
}

#[test]
fn counting_below_limit_runs_count_job() {
    assert_eq!(
        counter_worker_func(State::Counting(3)),
        Cmd::Run(State::Counting(3), Job::Count)
    );
}

#[test]
fn counting_at_limit_ends() {
    assert_eq!(counter_worker_func(State::Counting(4)), Cmd::After(Delay { secs: 1, nanos: 0 }, State::End));
    assert_eq!(counter_worker_func(State::Counting(9)), Cmd::After(Delay { secs: 1, nanos: 0 }, State::End));
}

#[test]
fn end_starts_over_after_ten_seconds() {
    assert_eq!(counter_worker_func(State::End), Cmd::After(Delay { secs: 10, nanos: 0 }, State::Start(1)));
}

#[test]
fn count_job_increments() {
    assert_eq!(do_count(State::Counting(3)), State::Counting(4));
    assert_eq!(do_count(State::Counting(-5)), State::Counting(-4));
}

#[test]
fn remote_value_is_42() {
    assert_eq!(remote_value(), 42);
}

#[test]
fn counter_runs_in_a_cycle_of_six() {
    let expected = [
        State::Counting(1),
        State::Counting(2),
        State::Counting(3),
        State::Counting(4),
        State::End,
        State::Start(1),
    ];
    let mut s = State::Start(1);
    for e in expected.iter() {
        s = round(s);
        assert_eq!(s, *e);
    }
}

#[test]
fn counter_from_negative_start_reaches_end() {
    let mut s = State::Start(-2);
    for _ in 0..8 {
        s = round(s);
    }
    assert_eq!(s, State::End);
}

#[test]
fn counter_from_high_start_ends_in_two_rounds() {
    let s = round(round(State::Start(100)));
    assert_eq!(s, State::End);
}
