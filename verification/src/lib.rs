//! The execution core of a work-stealing thread pool whose tasks are callbacks.
//!
//! A task is a callback that runs once, or one that may ask to be run again. A
//! worker hands each task it takes from the queue to its [`callback::Runner`],
//! which runs a repeatable task in place a bounded number of times before it
//! puts the task back into the queue and lets the worker go on with other work.
pub mod queue;
pub mod pool;
pub mod callback;
pub mod simple;
