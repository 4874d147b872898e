//! The simplest pool: every worker takes its tasks from one shared queue.
use vstd::prelude::*;
use crossbeam_deque::{Injector, Steal, Worker};
use crate::callback::{accepts_fresh_handles, Handle, Runner, RunnerFactory, Task};
use crate::pool::{PoolContext, ThreadPool};
use crate::queue::{GlobalQueue, SchedUnit};

verus! {

/// One unbounded queue that all workers share. It knows no priorities and keeps
/// no task near the worker that spawned it.
///
/// The queue is a `crossbeam_deque::Injector`. It holds tasks that are handed
/// this very queue when they run, which is more than the verifier can follow
/// into the field, so the field is closed to it.
#[verifier::external_body]
pub struct SingleQueue(Injector<SchedUnit<Task<SingleQueue>>>);

/// `Injector::new`: an empty queue. Nothing is stated about it.
#[verifier::external_body]
fn new_injector() -> SingleQueue {
    SingleQueue(Injector::new())
}

/// `Injector::push`: puts `unit` at the back of the queue. The queue is changed
/// behind a shared reference, so nothing is stated.
#[verifier::external_body]
fn push_injector(queue: &SingleQueue, unit: SchedUnit<Task<SingleQueue>>) {
    queue.0.push(unit)
}

/// `Injector::steal_batch_and_pop`: moves some units from the queue to the back
/// of `local_queue` and hands out the one that was first among them, or reports
/// that the queue was empty or that the attempt has to be repeated. How many
/// units move is left open by the queue, and other threads take part, so nothing
/// is stated.
#[verifier::external_body]
fn steal_batch_and_pop_injector(
    queue: &SingleQueue,
    local_queue: &Worker<SchedUnit<Task<SingleQueue>>>,
) -> Steal<SchedUnit<Task<SingleQueue>>> {
    queue.0.steal_batch_and_pop(local_queue)
}

impl SingleQueue {
    /// An empty queue.
    pub fn new() -> Self {
        new_injector()
    }
}

impl GlobalQueue for SingleQueue {
    type Task = Task<SingleQueue>;

    fn steal_batch_and_pop(&self, local_queue: &Worker<SchedUnit<Self::Task>>) -> Steal<
        SchedUnit<Self::Task>,
    > {
        steal_batch_and_pop_injector(self, local_queue)
    }

    fn push(&self, unit: SchedUnit<Self::Task>) {
        push_injector(self, unit)
    }
}

/// How a pool is to be set up.
pub struct Config {
    max_thread_count: usize,
}

impl Config {
    /// The settings of a pool with `max_thread_count` workers.
    pub fn new(max_thread_count: usize) -> (config: Self)
        ensures
            config.max_thread_count() == max_thread_count,
    {
        Config { max_thread_count }
    }

    /// How many workers the pool is to have.
    #[verifier::when_used_as_spec(spec_max_thread_count)]
    pub fn max_thread_count(&self) -> (count: usize)
        ensures
            count == self.max_thread_count(),
    {
        self.max_thread_count
    }

    pub closed spec fn spec_max_thread_count(&self) -> usize {
        self.max_thread_count
    }
}

/// A pool on one shared queue, with a runner for each of its workers.
pub struct SimpleThreadPool {
    pool: ThreadPool<SingleQueue>,
    factory: RunnerFactory<SingleQueue>,
    config: Config,
}

impl SimpleThreadPool {
    /// The queue that backs the pool.
    pub closed spec fn queue(&self) -> SingleQueue {
        self.pool.queue()
    }

    /// The spin budget of the runners that the pool makes.
    pub closed spec fn max_inplace_spin(&self) -> nat {
        self.factory.max_inplace_spin()
    }

    /// The settings that the pool was made from.
    pub closed spec fn config(&self) -> Config {
        self.config
    }

    /// A pool as `config` asks for it, on a new queue and with the spin budget 4.
    /// Its workers are yet to be started: each takes what [`SimpleThreadPool::worker`]
    /// gives.
    pub fn from_config(config: Config) -> (pool: Self)
        ensures
            pool.config() == config,
            pool.max_inplace_spin() == 4,
    {
        SimpleThreadPool {
            pool: ThreadPool::new(SingleQueue::new()),
            factory: RunnerFactory::new(),
            config,
        }
    }

    /// How many workers the pool is to have.
    pub fn max_thread_count(&self) -> (count: usize)
        ensures
            count == self.config().max_thread_count(),
    {
        self.config.max_thread_count()
    }

    /// What one more worker of the pool works with: its context, through which
    /// nothing has been spawned yet, and its runner.
    pub fn worker(&mut self) -> (worker: (PoolContext<SingleQueue>, Runner<SingleQueue>))
        ensures
            worker.0.queue() == old(self).queue(),
            worker.0.spawned() == Seq::<Task<SingleQueue>>::empty(),
            worker.1.max_inplace_spin() == old(self).max_inplace_spin(),
            final(self).queue() == old(self).queue(),
            final(self).max_inplace_spin() == old(self).max_inplace_spin(),
            final(self).config() == old(self).config(),
    {
        (self.pool.context(), self.factory.produce())
    }

    /// Spawns a task that runs `t` once.
    pub fn spawn_once<F: FnOnce(&mut Handle<'_, SingleQueue>) + Send + 'static>(&self, t: F)
        requires
            accepts_fresh_handles(t),
    {
        self.pool.spawn_once(t)
    }

    /// Spawns a task that runs `t` as often as `t` asks to.
    pub fn spawn_mut<F: FnMut(&mut Handle<'_, SingleQueue>) + Send + 'static>(&self, t: F)
        requires
            accepts_fresh_handles(t),
    {
        self.pool.spawn_mut(t)
    }
}

} // verus!
