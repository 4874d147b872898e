use callback_pool::callback::{Handle, Runner, RunnerFactory, Task};
use callback_pool::pool::{PoolContext, Remote, ThreadPool};
use callback_pool::simple::SingleQueue;
use crossbeam_deque::Steal;
use std::sync::{Arc, Mutex};

fn take(ctx: &mut PoolContext<SingleQueue>) -> Option<Task<SingleQueue>> {
    if let Some(task) = ctx.pop() {
        return Some(task);
    }
    loop {
        match ctx.steal() {
            Steal::Success(unit) => return Some(unit.task),
            Steal::Empty => return None,
            Steal::Retry => {}
        }
    }
}

fn run_all(ctx: &mut PoolContext<SingleQueue>, runner: &mut Runner<SingleQueue>) -> usize {
    let mut handled = 0;
    while let Some(task) = take(ctx) {
        runner.handle(ctx, task);
        handled += 1;
    }
    handled
}

#[test]
fn remote_spawns_into_the_same_pool() {
    let pool = ThreadPool::new(SingleQueue::new());
    let mut ctx = pool.context();
    let mut runner = RunnerFactory::new().produce();
    let hits = Arc::new(Mutex::new(Vec::new()));

    let remote = pool.remote();
    let seen = hits.clone();
    remote.spawn_once(move |_| seen.lock().unwrap().push("once"));
    let seen = hits.clone();
    remote.clone().spawn_mut(move |_| seen.lock().unwrap().push("mut"));

    assert_eq!(run_all(&mut ctx, &mut runner), 2);
    assert_eq!(*hits.lock().unwrap(), vec!["once", "mut"]);
}

#[test]
fn handle_to_owned_outlives_the_run() {
    let pool = ThreadPool::new(SingleQueue::new());
    let mut ctx = pool.context();
    let mut runner = RunnerFactory::new().produce();
    let kept: Arc<Mutex<Option<Remote<SingleQueue>>>> = Arc::new(Mutex::new(None));
    let hits = Arc::new(Mutex::new(0));

    let slot = kept.clone();
    pool.spawn_once(move |handle: &mut Handle<'_, SingleQueue>| {
        *slot.lock().unwrap() = Some(handle.to_owned());
    });
    assert_eq!(run_all(&mut ctx, &mut runner), 1);

    let remote = kept.lock().unwrap().take().expect("the handle that was kept");
    let seen = hits.clone();
    remote.spawn_once(move |_| *seen.lock().unwrap() += 1);
    assert_eq!(run_all(&mut ctx, &mut runner), 1);
    assert_eq!(*hits.lock().unwrap(), 1);
}

#[test]
fn context_remote_reaches_other_workers() {
    let pool = ThreadPool::new(SingleQueue::new());
    let first = pool.context();
    let mut second = pool.context();
    let mut runner = RunnerFactory::new().produce();
    let hits = Arc::new(Mutex::new(0));

    let seen = hits.clone();
    first.remote().spawn_once(move |_| *seen.lock().unwrap() += 1);
    assert_eq!(run_all(&mut second, &mut runner), 1);
    assert_eq!(*hits.lock().unwrap(), 1);
}

#[test]
fn task_spawned_in_a_run_is_open_to_other_workers() {
    let pool = ThreadPool::new(SingleQueue::new());
    let mut first = pool.context();
    let mut second = pool.context();
    let mut runner = RunnerFactory::new().produce();
    let hits = Arc::new(Mutex::new(0));

    let seen = hits.clone();
    pool.spawn_once(move |handle: &mut Handle<'_, SingleQueue>| {
        handle.spawn_mut(move |_| *seen.lock().unwrap() += 1);
    });
    let task = take(&mut first).expect("the spawned task");
    assert!(runner.handle(&mut first, task));
    assert_eq!(*hits.lock().unwrap(), 0);
    assert_eq!(run_all(&mut second, &mut runner), 1);
    assert_eq!(*hits.lock().unwrap(), 1);
    assert!(take(&mut first).is_none());
}

#[test]
fn yielded_task_goes_behind_waiting_tasks() {
    let pool = ThreadPool::new(SingleQueue::new());
    let mut ctx = pool.context();
    let mut factory = RunnerFactory::new();
    factory.set_max_inplace_spin(2);
    let mut runner = factory.produce();
    let order = Arc::new(Mutex::new(Vec::new()));

    let seen = order.clone();
    pool.spawn_mut(move |handle| {
        let mut seen = seen.lock().unwrap();
        seen.push('a');
        if seen.iter().filter(|c| **c == 'a').count() < 3 {
            handle.rerun();
        }
    });
    let seen = order.clone();
    pool.spawn_once(move |_| seen.lock().unwrap().push('b'));

    assert_eq!(run_all(&mut ctx, &mut runner), 3);
    assert_eq!(*order.lock().unwrap(), vec!['a', 'a', 'b', 'a']);
}

#[test]
fn many_remotes_lose_and_repeat_no_task() {
    let pool = ThreadPool::new(SingleQueue::new());
    let hits = Arc::new(Mutex::new(vec![0usize; 10_000]));
    let remotes: Vec<Remote<SingleQueue>> = (0..8).map(|_| pool.remote()).collect();

    // The remotes take turns, so that their pushes are interleaved.
    for id in 0..10_000 {
        let seen = hits.clone();
        remotes[id % remotes.len()].spawn_once(move |_| seen.lock().unwrap()[id] += 1);
    }

    let mut ctx = pool.context();
    let mut runner = RunnerFactory::new().produce();
    assert_eq!(run_all(&mut ctx, &mut runner), 10_000);
    assert!(hits.lock().unwrap().iter().all(|count| *count == 1));
    assert!(take(&mut ctx).is_none());
}
