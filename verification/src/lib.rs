//! Interruptible polling tasks.
//!
//! The verified core of the library: what a polling loop does next, how a
//! handle stops its background task and how long it waits for the task to
//! confirm its exit, and the interval arithmetic that the tasks share. The
//! threads, locks, channels and runtimes that carry these decisions out live
//! outside this crate's verified part.

pub mod error;
pub mod exit;
pub mod interval;
pub mod poll_loop;
pub mod sync;
pub mod sync2;
pub mod tokio;
