use httpserver::pool::{PoolError, ThreadPool, WorkerState};
use httpserver::schedule::completion_bound;

#[test]
fn zero_size_is_a_configuration_error() {
    assert_eq!(ThreadPool::new(0).unwrap_err(), PoolError::ZeroSize);
}

#[test]
fn new_pool_is_idle_and_empty() {
    let p = ThreadPool::new(2).unwrap();
    assert_eq!(p.size, 2);
    assert_eq!(p.queue, Vec::<u64>::new());
    assert_eq!(p.workers, vec![WorkerState::Idle, WorkerState::Idle]);
    assert_eq!(p.executed, Vec::<u64>::new());
    assert!(!p.shutting_down);
}

#[test]
fn jobs_flow_through_exactly_once() {
    let mut p = ThreadPool::new(2).unwrap();
    let a = p.submit();
    let b = p.submit();
    let c = p.submit();
    assert_eq!((a, b, c), (0, 1, 2));
    assert_eq!(p.queue, vec![0, 1, 2]);

    // The two workers take the two oldest jobs, in order.
    assert_eq!(p.take_job(0), 0);
    assert_eq!(p.take_job(1), 1);
    assert_eq!(p.workers, vec![WorkerState::Running(0), WorkerState::Running(1)]);
    assert_eq!(p.queue, vec![2]);

    // Completions are recorded once each; a freed worker takes the next job.
    assert_eq!(p.finish_job(1), 1);
    assert_eq!(p.take_job(1), 2);
    assert_eq!(p.finish_job(0), 0);
    assert_eq!(p.finish_job(1), 2);
    assert_eq!(p.executed, vec![1, 0, 2]);
    assert_eq!(p.queue, Vec::<u64>::new());
    assert_eq!(p.workers, vec![WorkerState::Idle, WorkerState::Idle]);
}

#[test]
fn saturated_pool_queues_instead_of_rejecting() {
    // More slow jobs than workers: the excess waits in the queue.
    let mut p = ThreadPool::new(2).unwrap();
    for _ in 0..2 {
        let id = p.submit();
        let w = id as usize;
        assert_eq!(p.take_job(w), id);
    }
    assert_eq!(p.workers, vec![WorkerState::Running(0), WorkerState::Running(1)]);
    // Every worker is busy, yet three more submissions are all accepted.
    let d = p.submit();
    let e = p.submit();
    let f = p.submit();
    assert_eq!((d, e, f), (2, 3, 4));
    assert_eq!(p.queue, vec![2, 3, 4]);
    // Nothing was dropped and nothing ran early.
    assert_eq!(p.executed, Vec::<u64>::new());
}

#[test]
fn shutdown_drains_then_terminates_every_worker() {
    let mut p = ThreadPool::new(2).unwrap();
    for _ in 0..3 {
        p.submit();
    }
    p.begin_shutdown();
    assert!(p.shutting_down);
    // In-flight work is still served after shutdown begins.
    while !p.queue.is_empty() {
        let id = p.take_job(0);
        assert_eq!(p.finish_job(0), id);
    }
    p.retire_worker(0);
    p.retire_worker(1);
    assert_eq!(p.workers, vec![WorkerState::Terminated, WorkerState::Terminated]);
    // Clean join: everything submitted was executed exactly once.
    let mut done = p.executed.clone();
    done.sort();
    assert_eq!(done, vec![0, 1, 2]);
}

#[test]
fn completion_bound_is_ceiling_of_rounds() {
    // K jobs of duration d over N workers: ceil(K / N) * d.
    assert_eq!(completion_bound(1, 1, 5), 5);
    assert_eq!(completion_bound(4, 2, 5), 10);
    assert_eq!(completion_bound(5, 2, 5), 15);
    assert_eq!(completion_bound(10, 3, 2), 8);
    assert_eq!(completion_bound(3, 8, 7), 7);
}
