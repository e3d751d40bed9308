//! A component with internal state that is updated periodically and read on
//! request.
use std::time::Duration;
use vstd::prelude::*;

verus! {

/// The value that an update of the state stores.
pub const UPDATED_STATE: i32 = 42;

/// A component that has internal state, periodically updates that state and
/// allows read access to it.
pub struct A {
    state: i32,
    interval: Duration,
}

impl View for A {
    type V = i32;

    closed spec fn view(&self) -> i32 {
        self.state
    }
}

impl A {
    /// How often the internal work is to be done.
    pub closed spec fn period(&self) -> Duration {
        self.interval
    }

    /// A component whose state is 0 and whose internal work is to be done
    /// every `interval`; starting that periodic work is up to the caller.
    pub fn new(interval: Duration) -> (a: A)
        ensures
            a@ == 0,
            a.period() == interval,
    {
        A { state: 0, interval }
    }

    /// How often the internal work is to be done.
    pub fn interval(&self) -> (d: Duration)
        ensures
            d == self.period(),
    {
        self.interval
    }

    /// The periodic update: the state becomes 42; the interval stays.
    pub fn update_state(&mut self)
        ensures
            final(self)@ == UPDATED_STATE,
            final(self)@ == 42,
            final(self).period() == old(self).period(),
    {
        self.state = UPDATED_STATE;
    }

    /// Read access to the state.
    pub fn get(&self) -> (v: i32)
        ensures
            v == self@,
    {
        self.state
    }
}

} // verus!
