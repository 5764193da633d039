//! A task-queue worker, as a library of decisions.
//!
//! The worker takes work items from named queues of a broker, reads each item
//! as a typed task, carries the task out on the local host and writes a result
//! record, keyed by the task's id, back to the broker with a bounded lifetime.
//!
//! Everything the worker decides is here: how a payload becomes a task, what a
//! task asks for, what its outcome is, what the record says and what the loop
//! does next. The broker, the container runtime and the clock are not: the
//! worker is a state machine that names the next piece of outside work as an
//! action and takes its result back as an event.

pub mod config;
pub mod executor;
pub mod json;
pub mod record;
pub mod task;
pub mod text;
pub mod worker;
