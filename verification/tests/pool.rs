use std::sync::atomic::AtomicUsize;
use std::sync::atomic::Ordering;
use std::sync::Arc;
use std::sync::Mutex;
use thread_pool::Control;
use thread_pool::Message;
use thread_pool::ThreadPool;
use thread_pool::ThreadPoolError;
use thread_pool::WorkerLoop;

/// Starts no thread: the worker's loop itself is kept as the handle, and the
/// test takes the workers' turns.
fn keep_loop(worker: WorkerLoop) -> WorkerLoop {
    worker
}

/// Queues a job that adds one to `counter`.
fn count_on(pool: &ThreadPool<WorkerLoop>, counter: &Arc<AtomicUsize>) {
    let counter = Arc::clone(counter);
    pool.execute(move || {
        counter.fetch_add(1, Ordering::SeqCst);
    })
    .unwrap();
}

/// Gives the workers their turns one after the other until all have stopped,
/// and returns how many turns ran a job.
fn run_round_robin(workers: &mut Vec<WorkerLoop>) -> usize {
    let mut jobs = 0;
    while workers.iter().any(|worker| !worker.is_stopped()) {
        for worker in workers.iter_mut() {
            if let Some(Control::Continue) = worker.step() {
                jobs += 1;
            }
        }
    }
    jobs
}

#[test]
fn it_works() {
    assert_eq!(2 + 2, 4);
}

#[test]
fn four_workers_run_eight_counting_jobs() {
    let counter = Arc::new(AtomicUsize::new(0));
    let pool = ThreadPool::new(4, keep_loop).unwrap();
    for _ in 0..8 {
        count_on(&pool, &counter);
    }
    let mut workers = pool.shutdown().unwrap();
    assert_eq!(workers.len(), 4);
    let jobs = run_round_robin(&mut workers);
    assert_eq!(jobs, 8);
    assert_eq!(counter.load(Ordering::SeqCst), 8);
}

#[test]
fn zero_workers_is_refused() {
    let created = ThreadPool::new(0, keep_loop);
    assert!(matches!(created, Err(ThreadPoolError::SizeLteZero)));
}

#[test]
fn zero_workers_starts_nothing() {
    let started = Arc::new(AtomicUsize::new(0));
    let seen = Arc::clone(&started);
    let created = ThreadPool::new(0, move |worker: WorkerLoop| {
        seen.fetch_add(1, Ordering::SeqCst);
        worker
    });
    assert!(matches!(created, Err(ThreadPoolError::SizeLteZero)));
    assert_eq!(started.load(Ordering::SeqCst), 0);
}

#[test]
fn every_positive_size_is_accepted() {
    for size in 1..=16 {
        let pool = ThreadPool::new(size, keep_loop).unwrap();
        assert_eq!(pool.size(), size);
    }
}

#[test]
fn workers_are_started_once_each_in_order() {
    let started: Arc<Mutex<Vec<usize>>> = Arc::new(Mutex::new(Vec::new()));
    let seen = Arc::clone(&started);
    let pool = ThreadPool::new(5, move |worker: WorkerLoop| {
        seen.lock().unwrap().push(worker.id());
        assert!(!worker.is_stopped());
        worker
    })
    .unwrap();
    assert_eq!(pool.size(), 5);
    assert_eq!(*started.lock().unwrap(), vec![0, 1, 2, 3, 4]);
}

#[test]
fn shutdown_returns_the_handles_in_worker_order() {
    let pool = ThreadPool::new(3, |worker: WorkerLoop| (worker.id() * 10, worker)).unwrap();
    let handles = pool.shutdown().unwrap();
    let tags: Vec<usize> = handles.iter().map(|handle| handle.0).collect();
    let ids: Vec<usize> = handles.iter().map(|handle| handle.1.id()).collect();
    assert_eq!(tags, vec![0, 10, 20]);
    assert_eq!(ids, vec![0, 1, 2]);
}

#[test]
fn one_termination_signal_is_planned_for_each_worker() {
    for size in 1..=6 {
        let pool = ThreadPool::new(size, keep_loop).unwrap();
        let signals = pool.termination_signals();
        assert_eq!(signals.len(), size);
        assert!(signals.iter().all(|signal| matches!(signal, Message::Terminate)));
    }
}

#[test]
fn shutdown_stops_every_worker_with_one_signal_each() {
    let pool = ThreadPool::new(3, keep_loop).unwrap();
    let mut workers = pool.shutdown().unwrap();
    for worker in workers.iter_mut() {
        assert!(!worker.is_stopped());
        assert_eq!(worker.step(), Some(Control::Stop));
        assert!(worker.is_stopped());
    }
}

#[test]
fn each_job_runs_exactly_once() {
    for size in 1..=5 {
        for count in [0usize, 1, 2, 7, 40] {
            let counters: Vec<Arc<AtomicUsize>> =
                (0..count).map(|_| Arc::new(AtomicUsize::new(0))).collect();
            let pool = ThreadPool::new(size, keep_loop).unwrap();
            for counter in &counters {
                count_on(&pool, counter);
            }
            let mut workers = pool.shutdown().unwrap();
            assert_eq!(run_round_robin(&mut workers), count);
            for counter in &counters {
                assert_eq!(counter.load(Ordering::SeqCst), 1);
            }
        }
    }
}

#[test]
fn jobs_are_taken_in_the_order_they_were_queued() {
    let order: Arc<Mutex<Vec<usize>>> = Arc::new(Mutex::new(Vec::new()));
    let pool = ThreadPool::new(3, keep_loop).unwrap();
    for job in 0..9 {
        let order = Arc::clone(&order);
        pool.execute(move || order.lock().unwrap().push(job)).unwrap();
    }
    let mut workers = pool.shutdown().unwrap();
    run_round_robin(&mut workers);
    assert_eq!(*order.lock().unwrap(), vec![0, 1, 2, 3, 4, 5, 6, 7, 8]);
}

#[test]
fn execute_returns_while_no_worker_takes_jobs() {
    let counter = Arc::new(AtomicUsize::new(0));
    let pool = ThreadPool::new(2, keep_loop).unwrap();
    for _ in 0..1000 {
        count_on(&pool, &counter);
    }
    assert_eq!(counter.load(Ordering::SeqCst), 0);
    let mut workers = pool.shutdown().unwrap();
    assert_eq!(run_round_robin(&mut workers), 1000);
    assert_eq!(counter.load(Ordering::SeqCst), 1000);
}

#[test]
fn jobs_queued_before_shutdown_run_under_any_schedule() {
    let mut seed: u64 = 0x2545_f491_4f6c_dd1d;
    for round in 0..50 {
        let size = 1 + round % 6;
        let count = (round * 7) % 23;
        let counter = Arc::new(AtomicUsize::new(0));
        let pool = ThreadPool::new(size, keep_loop).unwrap();
        for _ in 0..count {
            count_on(&pool, &counter);
        }
        let mut workers = pool.shutdown().unwrap();
        let mut turns = 0;
        while workers.iter().any(|worker| !worker.is_stopped()) {
            seed = seed.wrapping_mul(6364136223846793005).wrapping_add(1442695040888963407);
            let chosen = (seed >> 33) as usize % size;
            let was_stopped = workers[chosen].is_stopped();
            let control = workers[chosen].step();
            if was_stopped {
                assert_eq!(control, Some(Control::Stop));
            } else {
                assert!(control.is_some());
                turns += 1;
            }
        }
        assert_eq!(turns, count + size);
        assert_eq!(counter.load(Ordering::SeqCst), count);
        for worker in workers.iter_mut() {
            assert_eq!(worker.step(), Some(Control::Stop));
        }
    }
}

#[test]
fn one_worker_may_run_every_job() {
    let counter = Arc::new(AtomicUsize::new(0));
    let pool = ThreadPool::new(3, keep_loop).unwrap();
    for _ in 0..5 {
        count_on(&pool, &counter);
    }
    let mut workers = pool.shutdown().unwrap();
    for _ in 0..5 {
        assert_eq!(workers[1].step(), Some(Control::Continue));
    }
    assert_eq!(counter.load(Ordering::SeqCst), 5);
    assert_eq!(workers[1].step(), Some(Control::Stop));
    assert_eq!(workers[0].step(), Some(Control::Stop));
    assert_eq!(workers[2].step(), Some(Control::Stop));
}

#[test]
fn workers_can_take_jobs_while_the_pool_lives() {
    let loops: Arc<Mutex<Vec<WorkerLoop>>> = Arc::new(Mutex::new(Vec::new()));
    let stash = Arc::clone(&loops);
    let pool = ThreadPool::new(2, move |worker: WorkerLoop| {
        stash.lock().unwrap().push(worker);
    })
    .unwrap();
    let counter = Arc::new(AtomicUsize::new(0));
    for _ in 0..3 {
        let counter = Arc::clone(&counter);
        pool.execute(move || {
            counter.fetch_add(1, Ordering::SeqCst);
        })
        .unwrap();
    }
    let mut workers = loops.lock().unwrap();
    assert_eq!(workers[0].step(), Some(Control::Continue));
    assert_eq!(workers[1].step(), Some(Control::Continue));
    assert_eq!(workers[0].step(), Some(Control::Continue));
    assert_eq!(counter.load(Ordering::SeqCst), 3);
    assert_eq!(pool.shutdown().unwrap().len(), 2);
    assert_eq!(workers[1].step(), Some(Control::Stop));
    assert_eq!(workers[0].step(), Some(Control::Stop));
}

#[test]
fn execute_fails_when_every_worker_is_gone() {
    let pool = ThreadPool::new(2, |worker: WorkerLoop| drop(worker)).unwrap();
    match pool.execute(|| {}) {
        Err(ThreadPoolError::Failure(text)) => {
            assert_eq!(text, "Failure: sending on a closed channel");
        }
        other => panic!("expected a refusal, got {:?}", other),
    }
}

#[test]
fn shutdown_fails_when_every_worker_is_gone() {
    let pool = ThreadPool::new(2, |worker: WorkerLoop| drop(worker)).unwrap();
    match pool.shutdown() {
        Err(ThreadPoolError::Failure(text)) => {
            assert_eq!(text, "Failure: sending on a closed channel");
        }
        other => panic!("expected a refusal, got {:?}", other),
    }
}
