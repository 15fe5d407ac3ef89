//! A recurring task whose interval outlives the process that runs it.
//!
//! The interval is one 64-bit number of seconds in a cell of durable memory
//! ([`store`], over [`region`]). Whenever the process is created or comes
//! back, the scheduler reads it and asks for one recurring timer of that
//! period ([`scheduler`]). The host drives both through the entry points of
//! [`lifecycle`]; registering the timer and running its action are the
//! host's part. What holds over whole histories of calls is in [`laws`].

pub mod laws;
pub mod lifecycle;
pub mod region;
pub mod scheduler;
pub mod store;
