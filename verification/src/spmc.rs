//! A stateful service bound to an event loop, whose state other threads read
//! through an immediately ready future.
use tokio_core::reactor::Handle;
use vstd::prelude::*;
use crate::worker::Delay;

verus! {

/// `tokio_core::reactor::Handle`, a handle on an event loop, carried here as
/// an opaque value: nothing about its contents is assumed.
#[verifier::external_type_specification]
#[verifier::external_body]
pub struct ExHandle(tokio_core::reactor::Handle);

/// The period of the service's timer.
pub open spec fn spec_period() -> Delay {
    Delay { secs: 5, nanos: 0 }
}

/// The state that a service starts with.
pub const INITIAL_STATE: i32 = 42;

/// A service: its timer period, its state, and the event loop it runs on.
pub struct S {
    dur: Delay,
    state: i32,
    h: Handle,
}

/// A future that is ready at once with the value it holds.
#[derive(Debug, Clone, Copy, PartialEq, Eq, Structural)]
pub struct MyFuture {
    v: i32,
}

impl View for MyFuture {
    type V = i32;

    closed spec fn view(&self) -> i32 {
        self.v
    }
}

impl MyFuture {
    /// A future that is ready with `v`.
    pub fn new(v: i32) -> (f: MyFuture)
        ensures
            f@ == v,
    {
        MyFuture { v }
    }

    /// The outcome of polling: always ready, with the value held.
    pub fn poll(&self) -> (r: Result<i32, i32>)
        ensures
            r == Ok::<i32, i32>(self@),
    {
        Ok(self.v)
    }
}

impl S {
    /// The period of the service's timer.
    pub closed spec fn period(&self) -> Delay {
        self.dur
    }

    /// The service's state.
    pub closed spec fn value(&self) -> i32 {
        self.state
    }

    /// The event loop the service runs on.
    pub closed spec fn event_loop(&self) -> Handle {
        self.h
    }

    /// A service on the event loop of `handle`, with a period of five seconds and
    /// state 42.
    pub fn new(handle: Handle) -> (s: S)
        ensures
            s.event_loop() == handle,
            s.period() == spec_period(),
            s.period() == (Delay { secs: 5, nanos: 0 }),
            s.value() == INITIAL_STATE,
            s.value() == 42,
    {
        S { dur: Delay { secs: 5, nanos: 0 }, state: INITIAL_STATE, h: handle }
    }

    /// The period of the service's timer.
    pub fn dur(&self) -> (d: Delay)
        ensures
            d == self.period(),
    {
        self.dur
    }

    /// The event loop the service runs on.
    pub fn handle(&self) -> (h: &Handle)
        ensures
            *h == self.event_loop(),
    {
        &self.h
    }

    /// Asynchronous read access to the state: a future ready with it.
    #[allow(non_snake_case)]
    pub fn getAsync(&self) -> (f: MyFuture)
        ensures
            f@ == self.value(),
    {
        MyFuture { v: self.state }
    }
}

} // verus!
