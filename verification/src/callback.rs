//! Tasks that are callbacks, and the runner that drives one of them at a time.
//!
//! A callback is either run once, or it may be run again and again: each time it
//! says whether it wants another run. The runner grants such a request in place,
//! without a trip through the queue, until the spin budget is used up; then it
//! hands the task back to the pool and reports that the worker should move on.
use vstd::prelude::*;
use core::marker::PhantomData;
use crate::pool::{PoolContext, Remote, ThreadPool};
use crate::queue::GlobalQueue;

verus! {

/// A callback that is run at most once.
///
/// Closures that take a [`Handle`] are such callbacks. A type of its own can say
/// more about what its run does than a closure can.
pub trait RunOnce<G>: Send {
    /// Whether the callback may be run. Unless it says otherwise, it may.
    open spec fn callable(&self) -> bool {
        true
    }

    /// What the callback promises about its run: `before` and `after` are the
    /// tasks that had been spawned through the worker's context when the run
    /// began and when it ended. Unless it says otherwise, it promises nothing.
    open spec fn ran(&self, before: Seq<G::Task>, after: Seq<G::Task>) -> bool where
        G: GlobalQueue,
     {
        true
    }

    /// Runs the callback on the worker that owns `ctx`.
    fn run(self: Box<Self>, ctx: &mut PoolContext<G>) where G: GlobalQueue
        requires
            self.callable(),
        ensures
            self.ran(old(ctx).spawned(), final(ctx).spawned()),
    ;
}

/// A callback that may be run any number of times.
///
/// What it promises holds of every run alike: its promises do not change from
/// one run to the next, whatever the callback keeps between them.
pub trait RunMut<G>: Send {
    /// Whether the callback may be run. Unless it says otherwise, it may.
    open spec fn callable(&self) -> bool {
        true
    }

    /// What the callback promises about each run: `before` and `after` are the
    /// tasks that had been spawned through the worker's context when the run
    /// began and when it ended, and `rerun` says whether the run asked for
    /// another one. Unless it says otherwise, it promises nothing.
    open spec fn ran(&self, before: Seq<G::Task>, after: Seq<G::Task>, rerun: bool) -> bool where
        G: GlobalQueue,
     {
        true
    }

    /// Runs the callback on the worker that owns `ctx`, and says whether it asks
    /// to be run again.
    fn run(&mut self, ctx: &mut PoolContext<G>) -> (rerun: bool) where G: GlobalQueue

        requires
            old(self).callable(),
        ensures
            old(self).ran(old(ctx).spawned(), final(ctx).spawned(), rerun),
            final(self).callable(),
            forall|before: Seq<G::Task>, after: Seq<G::Task>, again: bool|
                final(self).ran(before, after, again) == old(self).ran(before, after, again),
    ;
}

/// One unit of work for the pool.
#[verifier::reject_recursive_types(G)]
pub enum Task<G> {
    /// A callback that runs once. The slot is empty once the callback has been
    /// taken out to be run.
    Once(Option<Box<dyn RunOnce<G>>>),
    /// A callback that runs as often as it asks to.
    Mut(Box<dyn RunMut<G>>),
}

/// One run of a task's callback, as the runner saw it.
#[verifier::reject_recursive_types(G)]
pub ghost struct Run<G> {
    /// The tasks spawned through the context before the run.
    pub before: Seq<Task<G>>,
    /// The tasks spawned through the context after the run.
    pub after: Seq<Task<G>>,
    /// Whether the run asked for another one.
    pub rerun: bool,
}

impl<G: GlobalQueue<Task = Task<G>>> Task<G> {
    /// Whether a runner may be given the task: its callback is still there and
    /// may be run.
    pub open spec fn callable(self) -> bool {
        match self {
            Task::Once(Some(f)) => f.callable(),
            Task::Once(None) => false,
            Task::Mut(f) => f.callable(),
        }
    }

    /// Whether `run` is a run that the task's callback allows. A callback that
    /// runs once cannot ask for another run.
    pub open spec fn ran(self, run: Run<G>) -> bool {
        match self {
            Task::Once(Some(f)) => f.ran(run.before, run.after) && !run.rerun,
            Task::Once(None) => false,
            Task::Mut(f) => f.ran(run.before, run.after, run.rerun),
        }
    }

    /// Whether the task is `other` after some of its runs: a repeatable task
    /// that may be run and allows the runs that `other` allows.
    pub open spec fn continues(self, other: Task<G>) -> bool {
        &&& self is Mut
        &&& other is Mut
        &&& self.callable()
        &&& forall|run: Run<G>| self.ran(run) == other.ran(run)
    }

    /// How often in a row a runner with the spin budget `budget` runs the task's
    /// callback at most: once where the callback runs once.
    pub open spec fn spins(self, budget: nat) -> nat {
        if self is Once {
            1
        } else {
            budget
        }
    }

    /// Whether every run that the task allows asks for another one.
    pub open spec fn always_reruns(self) -> bool {
        forall|run: Run<G>| self.ran(run) ==> run.rerun
    }

    /// Whether no run that the task allows asks for another one.
    pub open spec fn never_reruns(self) -> bool {
        forall|run: Run<G>| self.ran(run) ==> !run.rerun
    }
}

/// The task that runs the closure `t` once.
pub open spec fn once_task<G: GlobalQueue<Task = Task<G>>, F: FnOnce(&mut Handle<'_, G>) + Send + 'static>(
    t: F,
) -> Task<G> {
    Task::Once(Some(Box::new(t)))
}

/// The task that runs the closure `t` as often as it asks to.
pub open spec fn mut_task<G: GlobalQueue<Task = Task<G>>, F: FnMut(&mut Handle<'_, G>) + Send + 'static>(
    t: F,
) -> Task<G> {
    Task::Mut(Box::new(t))
}

/// Whether the closure `t` accepts every handle on which no other run has been
/// asked for yet: such a handle is what a runner gives it.
pub open spec fn accepts_fresh_handles<G: GlobalQueue<Task = Task<G>>, F: FnOnce(
    &mut Handle<'_, G>,
)>(t: F) -> bool {
    forall|handle: &mut Handle<'_, G>|
        !handle.rerun_requested() ==> #[trigger] call_requires(t, (handle,))
}

impl<G: GlobalQueue<Task = Task<G>>> Task<G> {
    /// The task that runs the closure `t` once.
    pub fn once<F: FnOnce(&mut Handle<'_, G>) + Send + 'static>(t: F) -> (task: Self)
        ensures
            task == once_task(t),
            task.callable() == accepts_fresh_handles(t),
    {
        Task::Once(Some(Box::new(t)))
    }

    /// The task that runs the closure `t` as often as `t` asks to.
    pub fn repeatable<F: FnMut(&mut Handle<'_, G>) + Send + 'static>(t: F) -> (task: Self)
        ensures
            task == mut_task(t),
            task.callable() == accepts_fresh_handles(t),
    {
        Task::Mut(Box::new(t))
    }

    /// The task that goes on with the callback `f`.
    fn resumed(f: Box<dyn RunMut<G>>) -> (task: Self)
        ensures
            task == Task::<G>::Mut(f),
    {
        Task::Mut(f)
    }
}

/// Whether `runs` follow one another from `before` on: each run begins with what
/// the one before it left behind.
pub open spec fn chained<G>(before: Seq<Task<G>>, runs: Seq<Run<G>>) -> bool {
    forall|i: int|
        0 <= i < runs.len() ==> (#[trigger] runs[i]).before == if i == 0 {
            before
        } else {
            runs[i - 1].after
        }
}

/// What a runner with the spin budget `budget` does with `task`.
///
/// `runs` are the runs of the task's callback, in order. `before` and `after`
/// are the tasks spawned through the worker's context before and after the
/// runner had the task, and `done` is the runner's answer.
///
/// The callback is run at least once, and at most as often in a row as the
/// budget allows. Every run but the last asked for another one. The task is done
/// when its last run did not ask for another one; what has been spawned is then
/// what the callback spawned. Otherwise the budget is used up, and the task, as
/// its runs left it, is spawned once, after everything that the callback spawned.
pub open spec fn handled<G: GlobalQueue<Task = Task<G>>>(
    budget: nat,
    task: Task<G>,
    before: Seq<Task<G>>,
    runs: Seq<Run<G>>,
    after: Seq<Task<G>>,
    done: bool,
) -> bool {
    &&& 1 <= runs.len() <= task.spins(budget)
    &&& chained(before, runs)
    &&& forall|i: int| 0 <= i < runs.len() ==> task.ran(#[trigger] runs[i])
    &&& forall|i: int| 0 <= i < runs.len() - 1 ==> (#[trigger] runs[i]).rerun
    &&& done == !runs.last().rerun
    &&& done ==> after == runs.last().after
    &&& !done ==> {
        &&& runs.len() == task.spins(budget)
        &&& after.len() == runs.last().after.len() + 1
        &&& after.drop_last() == runs.last().after
        &&& after.last().continues(task)
    }
}

/// What a running closure holds of the pool: it spawns tasks through it and asks
/// through it for another run.
///
/// A handle is made for one run and is gone when the run ends. What is to
/// outlive the run takes a [`Remote`] from [`Handle::to_owned`].
pub struct Handle<'a, G: GlobalQueue> {
    ctx: &'a mut PoolContext<G>,
    rerun: bool,
}

impl<'a, G: GlobalQueue> Handle<'a, G> {
    /// Whether another run has been asked for.
    pub closed spec fn rerun_requested(&self) -> bool {
        self.rerun
    }

    /// The tasks spawned through the worker's context so far, oldest first.
    pub closed spec fn spawned(&self) -> Seq<G::Task> {
        self.ctx.spawned()
    }

    /// The queue that backs the pool.
    pub closed spec fn queue(&self) -> G {
        self.ctx.queue()
    }
}

impl<'a, G: GlobalQueue<Task = Task<G>>> Handle<'a, G> {
    /// Spawns a task that runs `t` once.
    pub fn spawn_once<F: FnOnce(&mut Handle<'_, G>) + Send + 'static>(&mut self, t: F)
        requires
            accepts_fresh_handles(t),
        ensures
            final(self).spawned() == old(self).spawned().push(once_task(t)),
            final(self).rerun_requested() == old(self).rerun_requested(),
            final(self).queue() == old(self).queue(),
    {
        self.ctx.spawn(Task::once(t));
    }

    /// Spawns a task that runs `t` as often as `t` asks to.
    pub fn spawn_mut<F: FnMut(&mut Handle<'_, G>) + Send + 'static>(&mut self, t: F)
        requires
            accepts_fresh_handles(t),
        ensures
            final(self).spawned() == old(self).spawned().push(mut_task(t)),
            final(self).rerun_requested() == old(self).rerun_requested(),
            final(self).queue() == old(self).queue(),
    {
        self.ctx.spawn(Task::repeatable(t));
    }

    /// Asks the runner to run the task again when this run has ended. For a task
    /// that runs once the request is without effect.
    pub fn rerun(&mut self)
        ensures
            final(self).rerun_requested(),
            final(self).spawned() == old(self).spawned(),
            final(self).queue() == old(self).queue(),
    {
        self.rerun = true;
    }

    /// A handle to the same pool that may outlive this run.
    pub fn to_owned(&self) -> (remote: Remote<G>)
        ensures
            remote.queue() == self.queue(),
    {
        self.ctx.remote()
    }
}

impl<G: GlobalQueue<Task = Task<G>>, F: FnOnce(&mut Handle<'_, G>) + Send> RunOnce<G> for F {
    /// A closure may be run if it accepts the handle that a runner gives it.
    open spec fn callable(&self) -> bool {
        forall|handle: &mut Handle<'_, G>|
            !handle.rerun_requested() ==> #[trigger] call_requires(*self, (handle,))
    }

    /// Runs the closure on a handle of its own. Whether the closure asked for
    /// another run is of no interest.
    ///
    /// The closure has been called, once, on a handle on which no run had been
    /// asked for and which showed the pool as `ctx` had it: what the closure
    /// ensures of its call holds of that handle. What the closure did to the
    /// context through the handle is known to the closure alone.
    fn run(self: Box<Self>, ctx: &mut PoolContext<G>)
        ensures
            exists|handle: &mut Handle<'_, G>|
                {
                    &&& !handle.rerun_requested()
                    &&& handle.spawned() == old(ctx).spawned()
                    &&& handle.queue() == old(ctx).queue()
                    &&& #[trigger] call_ensures(*self, (handle,), ())
                },
    {
        let mut handle = Handle { ctx, rerun: false };
        (*self)(&mut handle);
    }
}

impl<G: GlobalQueue<Task = Task<G>>, F: FnMut(&mut Handle<'_, G>) + Send> RunMut<G> for F {
    /// A closure may be run if it accepts the handle that a runner gives it.
    open spec fn callable(&self) -> bool {
        forall|handle: &mut Handle<'_, G>|
            !handle.rerun_requested() ==> #[trigger] call_requires(*self, (handle,))
    }

    /// Runs the closure on a handle of its own, on which no run has been asked
    /// for yet: a request counts for the run in which it was made and for no
    /// later one.
    ///
    /// The closure has been called, once, on a handle on which no run had been
    /// asked for and which showed the pool as `ctx` had it: what the closure
    /// ensures of its call holds of that handle, and the answer is whether the
    /// handle asks for another run when the call is over. What the closure did
    /// to the context through the handle is known to the closure alone.
    fn run(&mut self, ctx: &mut PoolContext<G>) -> (rerun: bool)
        ensures
            exists|handle: &mut Handle<'_, G>|
                {
                    &&& !handle.rerun_requested()
                    &&& handle.spawned() == old(ctx).spawned()
                    &&& handle.queue() == old(ctx).queue()
                    &&& #[trigger] call_ensures(*old(self), (handle,), ())
                    &&& final(handle).rerun_requested() == rerun
                },
    {
        broadcast use vstd::function::group_function_axioms;

        let mut handle = Handle { ctx, rerun: false };
        self(&mut handle);
        handle.rerun
    }
}

/// The part of a worker that runs the tasks it is given.
pub struct Runner<G: GlobalQueue> {
    max_inplace_spin: usize,
    _phantom: PhantomData<G>,
}

impl<G: GlobalQueue> Runner<G> {
    #[verifier::type_invariant]
    spec fn spins_at_least_once(self) -> bool {
        self.max_inplace_spin >= 1
    }

    /// The spin budget: how often in a row the runner runs a task's callback
    /// before it hands the task back to the pool.
    pub closed spec fn max_inplace_spin(&self) -> nat {
        self.max_inplace_spin as nat
    }
}

impl<G: GlobalQueue<Task = Task<G>>> Runner<G> {
    /// Runs `task` until it is done or has used up the spin budget, and says
    /// whether it is done. A task that is not done has been handed back to the
    /// pool through `ctx`, and the worker should turn to other tasks.
    ///
    /// The task must still hold its callback: a task that runs once cannot be
    /// handled a second time. Whatever goes wrong inside a callback is the
    /// callback's affair; the runner neither catches nor repeats anything.
    pub fn handle(&mut self, ctx: &mut PoolContext<G>, task: Task<G>) -> (done: bool)
        requires
            task.callable(),
        ensures
            *final(self) == *old(self),
            exists|runs: Seq<Run<G>>| #[trigger]
                handled(
                    old(self).max_inplace_spin(),
                    task,
                    old(ctx).spawned(),
                    runs,
                    final(ctx).spawned(),
                    done,
                ),
    {
        proof {
            use_type_invariant(&*self);
        }
        let ghost before = ctx.spawned();
        match task {
            Task::Mut(mut f) => {
                let ghost mut runs: Seq<Run<G>> = Seq::empty();
                let mut tried_times: usize = 0;
                loop
                    invariant_except_break
                        tried_times < self.max_inplace_spin,
                    invariant
                        *self == *old(self),
                        self.max_inplace_spin >= 1,
                        before == old(ctx).spawned(),
                        Task::<G>::Mut(f).continues(task),
                        tried_times <= self.max_inplace_spin,
                        runs.len() == tried_times,
                        chained(before, runs),
                        ctx.spawned() == if tried_times == 0 {
                            before
                        } else {
                            runs.last().after
                        },
                        forall|i: int| 0 <= i < runs.len() ==> task.ran(#[trigger] runs[i]),
                        forall|i: int| 0 <= i < runs.len() ==> (#[trigger] runs[i]).rerun,
                    ensures
                        tried_times == self.max_inplace_spin,
                    decreases self.max_inplace_spin - tried_times,
                {
                    let ghost current = Task::<G>::Mut(f);
                    let ghost start = ctx.spawned();
                    let rerun = f.run(ctx);
                    proof {
                        let run = Run::<G> { before: start, after: ctx.spawned(), rerun };
                        assert(current.ran(run));
                        assert forall|other: Run<G>|
                            Task::<G>::Mut(f).ran(other) == task.ran(other) by {
                            assert(current.ran(other) == task.ran(other));
                        }
                        runs = runs.push(run);
                    }
                    if !rerun {
                        proof {
                            assert(handled(
                                self.max_inplace_spin(),
                                task,
                                before,
                                runs,
                                ctx.spawned(),
                                true,
                            ));
                        }
                        return true;
                    }
                    tried_times += 1;
                    if tried_times == self.max_inplace_spin {
                        break ;
                    }
                }
                ctx.spawn(Task::resumed(f));
                proof {
                    assert(ctx.spawned().drop_last() =~= runs.last().after);
                    assert(handled(
                        self.max_inplace_spin(),
                        task,
                        before,
                        runs,
                        ctx.spawned(),
                        false,
                    ));
                }
                false
            },
            Task::Once(slot) => {
                let f = slot.unwrap();
                f.run(ctx);
                proof {
                    let run = Run::<G> { before, after: ctx.spawned(), rerun: false };
                    assert(handled(
                        self.max_inplace_spin(),
                        task,
                        before,
                        seq![run],
                        ctx.spawned(),
                        true,
                    ));
                }
                true
            },
        }
    }
}

/// Makes the runners of a pool, one for each worker, all with the spin budget
/// that is set when they are made.
pub struct RunnerFactory<G: GlobalQueue> {
    max_inplace_spin: usize,
    _phantom: PhantomData<G>,
}

impl<G: GlobalQueue> RunnerFactory<G> {
    #[verifier::type_invariant]
    spec fn spins_at_least_once(self) -> bool {
        self.max_inplace_spin >= 1
    }

    /// The spin budget that the next runner gets.
    pub closed spec fn max_inplace_spin(&self) -> nat {
        self.max_inplace_spin as nat
    }

    /// This factory with the spin budget `count`.
    pub closed spec fn with_max_inplace_spin(self, count: usize) -> Self {
        RunnerFactory { max_inplace_spin: count, _phantom: PhantomData }
    }

    /// The runner that this factory makes.
    pub closed spec fn produced(self) -> Runner<G> {
        Runner { max_inplace_spin: self.max_inplace_spin, _phantom: PhantomData }
    }

    /// A factory with the spin budget 4.
    pub fn new() -> (factory: Self)
        ensures
            factory.max_inplace_spin() == 4,
    {
        RunnerFactory { max_inplace_spin: 4, _phantom: PhantomData }
    }

    /// Sets the spin budget of the runners made from now on.
    pub fn set_max_inplace_spin(&mut self, count: usize)
        requires
            count >= 1,
        ensures
            *final(self) == old(self).with_max_inplace_spin(count),
            final(self).max_inplace_spin() == count,
    {
        self.max_inplace_spin = count;
    }

    /// Makes a runner with the spin budget that is set now.
    pub fn produce(&mut self) -> (runner: Runner<G>)
        ensures
            runner == old(self).produced(),
            runner.max_inplace_spin() == old(self).max_inplace_spin(),
            *final(self) == *old(self),
    {
        proof {
            use_type_invariant(&*self);
        }
        Runner { max_inplace_spin: self.max_inplace_spin, _phantom: PhantomData }
    }
}

impl<G: GlobalQueue<Task = Task<G>>> Remote<G> {
    /// Spawns a task that runs `t` once.
    pub fn spawn_once<F: FnOnce(&mut Handle<'_, G>) + Send + 'static>(&self, t: F)
        requires
            accepts_fresh_handles(t),
    {
        self.spawn(Task::once(t));
    }

    /// Spawns a task that runs `t` as often as `t` asks to.
    pub fn spawn_mut<F: FnMut(&mut Handle<'_, G>) + Send + 'static>(&self, t: F)
        requires
            accepts_fresh_handles(t),
    {
        self.spawn(Task::repeatable(t));
    }
}

impl<G: GlobalQueue<Task = Task<G>>> ThreadPool<G> {
    /// Spawns a task that runs `t` once.
    pub fn spawn_once<F: FnOnce(&mut Handle<'_, G>) + Send + 'static>(&self, t: F)
        requires
            accepts_fresh_handles(t),
    {
        self.spawn(Task::once(t));
    }

    /// Spawns a task that runs `t` as often as `t` asks to.
    pub fn spawn_mut<F: FnMut(&mut Handle<'_, G>) + Send + 'static>(&self, t: F)
        requires
            accepts_fresh_handles(t),
    {
        self.spawn(Task::repeatable(t));
    }
}

/// A task that runs once is run exactly once and is then done: the runner does
/// not hand it back to the pool, so what has been spawned is what the one run
/// spawned.
pub proof fn once_task_runs_once<G: GlobalQueue<Task = Task<G>>>(
    budget: nat,
    task: Task<G>,
    before: Seq<Task<G>>,
    runs: Seq<Run<G>>,
    after: Seq<Task<G>>,
    done: bool,
)
    requires
        task is Once,
        handled(budget, task, before, runs, after, done),
    ensures
        done,
        runs.len() == 1,
        runs[0].before == before,
        after == runs[0].after,
{
}

/// A repeatable task whose every run asked for another one has been run exactly
/// as often as the spin budget says. It is not done, and the runner has handed
/// it back to the pool exactly once: one task has been spawned beyond what the
/// runs spawned, and it is the task as its runs left it.
pub proof fn rerunning_task_spins_out<G: GlobalQueue<Task = Task<G>>>(
    budget: nat,
    task: Task<G>,
    before: Seq<Task<G>>,
    runs: Seq<Run<G>>,
    after: Seq<Task<G>>,
    done: bool,
)
    requires
        task is Mut,
        handled(budget, task, before, runs, after, done),
        forall|i: int| 0 <= i < runs.len() ==> (#[trigger] runs[i]).rerun,
    ensures
        !done,
        runs.len() == budget,
        after.len() == runs.last().after.len() + 1,
        after.drop_last() == runs.last().after,
        after.last().continues(task),
{
}

/// A repeatable task whose callback promises to ask for another run every time
/// uses up the spin budget and is handed back, whatever its runs were.
pub proof fn always_rerunning_task_spins_out<G: GlobalQueue<Task = Task<G>>>(
    budget: nat,
    task: Task<G>,
    before: Seq<Task<G>>,
    runs: Seq<Run<G>>,
    after: Seq<Task<G>>,
    done: bool,
)
    requires
        task is Mut,
        task.always_reruns(),
        handled(budget, task, before, runs, after, done),
    ensures
        !done,
        runs.len() == budget,
        after.len() == runs.last().after.len() + 1,
        after.drop_last() == runs.last().after,
        after.last().continues(task),
{
    assert forall|i: int| 0 <= i < runs.len() implies (#[trigger] runs[i]).rerun by {
        assert(task.ran(runs[i]));
    }
    rerunning_task_spins_out(budget, task, before, runs, after, done);
}

/// A repeatable task whose first run did not ask for another one has been run
/// exactly once and is done. The runner has not handed it back to the pool:
/// what has been spawned is what the one run spawned.
pub proof fn settled_task_runs_once<G: GlobalQueue<Task = Task<G>>>(
    budget: nat,
    task: Task<G>,
    before: Seq<Task<G>>,
    runs: Seq<Run<G>>,
    after: Seq<Task<G>>,
    done: bool,
)
    requires
        task is Mut,
        handled(budget, task, before, runs, after, done),
        !runs[0].rerun,
    ensures
        done,
        runs.len() == 1,
        runs[0].before == before,
        after == runs[0].after,
{
}

/// A repeatable task whose callback promises never to ask for another run is
/// run once and is done, whatever the spin budget is.
pub proof fn never_rerunning_task_runs_once<G: GlobalQueue<Task = Task<G>>>(
    budget: nat,
    task: Task<G>,
    before: Seq<Task<G>>,
    runs: Seq<Run<G>>,
    after: Seq<Task<G>>,
    done: bool,
)
    requires
        task is Mut,
        task.never_reruns(),
        handled(budget, task, before, runs, after, done),
    ensures
        done,
        runs.len() == 1,
        runs[0].before == before,
        after == runs[0].after,
{
    assert(task.ran(runs[0]));
    settled_task_runs_once(budget, task, before, runs, after, done);
}

/// A runner keeps the spin budget that its factory had when it made the runner:
/// a budget set afterwards is that of the runners made from then on.
pub proof fn produced_runner_keeps_budget<G: GlobalQueue>(factory: RunnerFactory<G>, count: usize)
    ensures
        factory.produced().max_inplace_spin() == factory.max_inplace_spin(),
        factory.with_max_inplace_spin(count).produced().max_inplace_spin() == count,
        factory.with_max_inplace_spin(count).max_inplace_spin() == count,
{
}

} // verus!
