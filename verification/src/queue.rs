//! What a queue must offer to back a pool, and the queue that a worker keeps
//! for itself.
use vstd::prelude::*;
use crossbeam_deque::{Steal, Worker};

verus! {

/// `crossbeam_deque::Worker`: the queue that one worker owns.
#[verifier::external_type_specification]
#[verifier::external_body]
#[verifier::reject_recursive_types(T)]
pub struct ExWorker<T>(Worker<T>);

/// `crossbeam_deque::Steal`: what an attempt to steal came to.
#[verifier::external_type_specification]
#[verifier::external_body]
#[verifier::reject_recursive_types(T)]
pub struct ExSteal<T>(Steal<T>);

/// A task as it travels through the queues.
pub struct SchedUnit<T> {
    pub task: T,
}

impl<T> SchedUnit<T> {
    /// Wraps `task` for the queue.
    pub fn new(task: T) -> (unit: Self)
        ensures
            unit.task == task,
    {
        SchedUnit { task }
    }

    /// The task that `unit` carries, where there is a unit.
    pub fn task_of(unit: Option<Self>) -> (task: Option<T>)
        ensures
            task == match unit {
                Some(unit) => Some(unit.task),
                None => None,
            },
    {
        match unit {
            Some(unit) => Some(unit.task),
            None => None,
        }
    }
}

/// What a queue must offer to back a pool.
///
/// Every method takes `&self`: the queue is shared by the workers and by every
/// remote handle, and other threads push and steal while a call runs. Nothing is
/// therefore promised about what the queue holds before or after a call.
pub trait GlobalQueue {
    /// The tasks that the queue holds.
    type Task;

    /// Tries to move a batch of units into `local_queue` and to hand out one more.
    fn steal_batch_and_pop(&self, local_queue: &Worker<SchedUnit<Self::Task>>) -> Steal<
        SchedUnit<Self::Task>,
    >;

    /// Puts `unit` into the queue. The pool takes it that this always succeeds:
    /// a queue with a limit has to wait or to drop on its own account.
    fn push(&self, unit: SchedUnit<Self::Task>);
}

/// `Worker::new_fifo`: a new worker queue, which hands its units out in the
/// order in which they came. Nothing is stated about it.
#[verifier::external_body]
pub(crate) fn new_local_queue<T>() -> Worker<T> {
    Worker::new_fifo()
}

/// `Worker::pop`: takes a unit out of the worker's own queue, if it holds one.
/// The queue is changed behind a shared reference, so nothing is stated.
#[verifier::external_body]
pub(crate) fn pop_local_queue<T>(local_queue: &Worker<T>) -> Option<T> {
    local_queue.pop()
}

} // verus!
