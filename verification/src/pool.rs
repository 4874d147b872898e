//! The pool as its workers and its callers see it: the context that a worker
//! works in, the handle that reaches the pool from anywhere, and the pool itself.
use vstd::prelude::*;
use crossbeam_deque::{Steal, Worker};
use std::sync::Arc;
use crate::queue::{new_local_queue, pop_local_queue, GlobalQueue, SchedUnit};

verus! {

/// `Arc::clone`: one more pointer to the value that `shared` points to.
#[verifier::external_body]
fn share<T>(shared: &Arc<T>) -> (other: Arc<T>)
    ensures
        other == *shared,
{
    Arc::clone(shared)
}

/// What one worker holds of the pool while it runs tasks.
///
/// The context keeps a record of the tasks that were spawned through it, in the
/// order in which they were handed to the pool's queue. The record is the only
/// thing that can be said about them afterwards: the queue is shared, and any
/// worker may have taken a task the moment it was pushed.
pub struct PoolContext<G: GlobalQueue> {
    local_queue: Worker<SchedUnit<G::Task>>,
    core: Arc<G>,
    spawned: Ghost<Seq<G::Task>>,
}

impl<G: GlobalQueue> PoolContext<G> {
    /// The tasks spawned through this context so far, oldest first.
    pub closed spec fn spawned(&self) -> Seq<G::Task> {
        self.spawned@
    }

    /// The queue that backs the pool.
    pub closed spec fn queue(&self) -> G {
        *self.core
    }

    pub(crate) fn new(core: Arc<G>) -> (ctx: Self)
        ensures
            ctx.spawned() == Seq::<G::Task>::empty(),
            ctx.queue() == *core,
    {
        PoolContext { local_queue: new_local_queue(), core, spawned: Ghost(Seq::empty()) }
    }

    /// Hands `task` to the pool's queue, where any worker may take it at once.
    pub fn spawn(&mut self, task: G::Task)
        ensures
            final(self).spawned() == old(self).spawned().push(task),
            final(self).queue() == old(self).queue(),
    {
        self.core.push(SchedUnit::new(task));
        proof {
            self.spawned@ = self.spawned@.push(task);
        }
    }

    /// A handle to the same pool that may leave this worker.
    pub fn remote(&self) -> (remote: Remote<G>)
        ensures
            remote.queue() == self.queue(),
    {
        Remote { core: share(&self.core) }
    }

    /// Takes the next task out of the worker's own queue, which holds what
    /// [`PoolContext::steal`] moved there. Which task that is, and whether there
    /// is one, is the queue's affair; the record of spawned tasks stays as it is.
    pub fn pop(&mut self) -> (task: Option<G::Task>)
        ensures
            final(self).spawned() == old(self).spawned(),
            final(self).queue() == old(self).queue(),
    {
        SchedUnit::task_of(pop_local_queue(&self.local_queue))
    }

    /// Tries once to move a batch of units from the pool's queue into the
    /// worker's own and to get one more to run now. The answer is the queue's;
    /// the record of spawned tasks stays as it is.
    pub fn steal(&mut self) -> (stolen: Steal<SchedUnit<G::Task>>)
        ensures
            final(self).spawned() == old(self).spawned(),
            final(self).queue() == old(self).queue(),
    {
        self.core.steal_batch_and_pop(&self.local_queue)
    }
}

/// A handle that spawns tasks into a pool from any thread, at any time.
///
/// It holds the pool's queue and nothing of a worker or a running task. A task
/// spawned after the pool has stopped stays in the queue and never runs.
pub struct Remote<G: GlobalQueue> {
    core: Arc<G>,
}

impl<G: GlobalQueue> Remote<G> {
    /// The queue that backs the pool.
    pub closed spec fn queue(&self) -> G {
        *self.core
    }

    /// Hands `task` to the pool's queue.
    pub fn spawn(&self, task: G::Task) {
        self.core.push(SchedUnit::new(task));
    }
}

impl<G: GlobalQueue> Clone for Remote<G> {
    fn clone(&self) -> (other: Self)
        ensures
            other.queue() == self.queue(),
    {
        Remote { core: share(&self.core) }
    }
}

/// A pool: the queue that its workers take their tasks from.
pub struct ThreadPool<G: GlobalQueue> {
    core: Arc<G>,
}

impl<G: GlobalQueue> ThreadPool<G> {
    /// The queue that backs the pool.
    pub closed spec fn queue(&self) -> G {
        *self.core
    }

    /// A pool on top of `queue`.
    pub fn new(queue: G) -> (pool: Self)
        ensures
            pool.queue() == queue,
    {
        ThreadPool { core: Arc::new(queue) }
    }

    /// Hands `task` to the pool's queue.
    pub fn spawn(&self, task: G::Task) {
        self.core.push(SchedUnit::new(task));
    }

    /// A handle to this pool that may go anywhere.
    pub fn remote(&self) -> (remote: Remote<G>)
        ensures
            remote.queue() == self.queue(),
    {
        Remote { core: share(&self.core) }
    }

    /// The context for one more worker of this pool. Nothing has been spawned
    /// through it yet.
    pub fn context(&self) -> (ctx: PoolContext<G>)
        ensures
            ctx.queue() == self.queue(),
            ctx.spawned() == Seq::<G::Task>::empty(),
    {
        PoolContext::new(share(&self.core))
    }
}

} // verus!
