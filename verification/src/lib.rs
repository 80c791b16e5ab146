//! A cancelable background-task coordinator: a handle shared between one
//! producer (a fetch worker) and one polling consumer that streams progress
//! events in order, delivers exactly one terminal result per task, and
//! supports cooperative cancellation, with the consumer never blocking.

pub mod artifact;
pub mod coordinator;
pub mod handle;
pub mod network_image;
pub mod outcome;
pub mod progress;
pub mod worker;
