//! Background task orchestration: a durable queue of delivery tasks with the
//! worker that drains it, a wrapper that lets a supervisor pause and resume
//! long-running work, the vocabulary of the local control channel, and the
//! report of the unit that ends the process.
pub mod cli;
pub mod config;
pub mod email;
pub mod queue;
pub mod search;
pub mod task;
pub mod utils;
