use simple_server::pool::{PoolError, WorkerPool};
use std::sync::atomic::{AtomicUsize, Ordering};
use std::sync::mpsc::channel;
use std::sync::Arc;
use std::time::Duration;

const PATIENCE: Duration = Duration::from_secs(10);

/// Keeps the calling worker busy for a while.
fn linger(time: Duration) {
    let (_keep, never) = channel::<()>();
    let _ = never.recv_timeout(time);
}

#[test]
fn pool_of_no_workers_is_refused() {
    assert_eq!(WorkerPool::new(0).err(), Some(PoolError::ZeroSize));
}

#[test]
fn pool_reports_its_size() {
    assert_eq!(WorkerPool::new(1).ok().unwrap().size(), 1);
    assert_eq!(WorkerPool::new(4).ok().unwrap().size(), 4);
}

#[test]
fn submitted_job_runs() {
    let pool = WorkerPool::new(2).ok().unwrap();
    let (done, finished) = channel();
    pool.submit(move || {
        done.send(41 + 1).unwrap();
    });
    assert_eq!(finished.recv_timeout(PATIENCE), Ok(42));
}

#[test]
fn more_slow_jobs_than_workers_all_run_exactly_once() {
    let workers = 3;
    let jobs = 12;
    let pool = WorkerPool::new(workers).ok().unwrap();
    let (done, finished) = channel();
    for id in 0..jobs {
        let done = done.clone();
        pool.submit(move || {
            linger(Duration::from_millis(30));
            done.send(id).unwrap();
        });
    }
    drop(done);
    let mut runs = vec![0; jobs];
    for _ in 0..jobs {
        let id: usize = finished.recv_timeout(PATIENCE).unwrap();
        runs[id] += 1;
    }
    assert!(finished.recv_timeout(PATIENCE).is_err());
    assert_eq!(runs, vec![1; jobs]);
}

#[test]
fn submit_returns_before_the_job_finishes() {
    let pool = WorkerPool::new(1).ok().unwrap();
    let (release, gate) = channel::<()>();
    let (done, finished) = channel();
    pool.submit(move || {
        gate.recv_timeout(PATIENCE).unwrap();
        done.send(()).unwrap();
    });
    assert!(finished.try_recv().is_err());
    release.send(()).unwrap();
    assert_eq!(finished.recv_timeout(PATIENCE), Ok(()));
}

#[test]
fn no_more_jobs_run_at_once_than_there_are_workers() {
    let workers = 3;
    let jobs = 15;
    let pool = WorkerPool::new(workers).ok().unwrap();
    let running = Arc::new(AtomicUsize::new(0));
    let peak = Arc::new(AtomicUsize::new(0));
    let (done, finished) = channel();
    for _ in 0..jobs {
        let running = running.clone();
        let peak = peak.clone();
        let done = done.clone();
        pool.submit(move || {
            let now = running.fetch_add(1, Ordering::SeqCst) + 1;
            peak.fetch_max(now, Ordering::SeqCst);
            linger(Duration::from_millis(20));
            running.fetch_sub(1, Ordering::SeqCst);
            done.send(()).unwrap();
        });
    }
    for _ in 0..jobs {
        finished.recv_timeout(PATIENCE).unwrap();
    }
    let peak = peak.load(Ordering::SeqCst);
    assert!(peak >= 1);
    assert!(peak <= workers, "peak {} over {} workers", peak, workers);
    assert_eq!(running.load(Ordering::SeqCst), 0);
}

#[test]
fn single_worker_runs_jobs_one_at_a_time() {
    let pool = WorkerPool::new(1).ok().unwrap();
    let running = Arc::new(AtomicUsize::new(0));
    let peak = Arc::new(AtomicUsize::new(0));
    let (done, finished) = channel();
    for _ in 0..6 {
        let running = running.clone();
        let peak = peak.clone();
        let done = done.clone();
        pool.submit(move || {
            let now = running.fetch_add(1, Ordering::SeqCst) + 1;
            peak.fetch_max(now, Ordering::SeqCst);
            linger(Duration::from_millis(10));
            running.fetch_sub(1, Ordering::SeqCst);
            done.send(()).unwrap();
        });
    }
    for _ in 0..6 {
        finished.recv_timeout(PATIENCE).unwrap();
    }
    assert_eq!(peak.load(Ordering::SeqCst), 1);
}

#[test]
fn pool_serves_on_after_a_job_that_fails() {
    let pool = WorkerPool::new(1).ok().unwrap();
    let (done, finished) = channel();
    let failing = done.clone();
    pool.submit(move || {
        let _held = failing;
        panic!("this job fails on purpose");
    });
    for id in 0..3 {
        let done = done.clone();
        pool.submit(move || {
            done.send(id).unwrap();
        });
    }
    drop(done);
    let mut served = Vec::new();
    for _ in 0..3 {
        served.push(finished.recv_timeout(PATIENCE).unwrap());
    }
    served.sort();
    assert_eq!(served, vec![0, 1, 2]);
}
