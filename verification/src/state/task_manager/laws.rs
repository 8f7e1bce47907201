//! What holds of the scheduler whatever commands it is given.
//!
//! Each law is a proof over the transitions of `SchedulerState`, the same
//! transitions the executable commands are proved against.

pub mod admission;
pub mod commands;
pub mod filters;
pub mod limit;
pub mod queue;
pub mod records;
pub mod transitions;
