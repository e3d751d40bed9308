//! Background workers driven by small state machines, and the state machines
//! of the example programs built on them.
pub mod worker;
pub mod counter;
pub mod reschedule;
pub mod component;
pub mod spmc;

pub use worker::{Cmd, Delay, Error, Event, Step, Worker};
