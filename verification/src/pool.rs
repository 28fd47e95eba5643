//! The bounded worker pool: a fixed number of long-lived workers behind one
//! job queue.

use vstd::prelude::*;

verus! {

/// The pool of the `threadpool` crate, carried as an opaque value.
#[verifier::external_type_specification]
#[verifier::external_body]
pub struct ExThreadPool(threadpool::ThreadPool);

/// `threadpool::ThreadPool::new` starts `num_threads` worker threads. It
/// panics when asked for none, so a caller must ask for at least one. Nothing
/// is claimed of the pool that comes back.
pub assume_specification[ threadpool::ThreadPool::new ](num_threads: usize) -> (pool:
    threadpool::ThreadPool)
    requires
        num_threads > 0,
;

/// `threadpool::ThreadPool::execute` puts `job` on the pool's queue and
/// returns; a worker calls it later, once, so it must be callable. Nothing is
/// returned and nothing is claimed of when the job runs.
pub assume_specification<F>[ threadpool::ThreadPool::execute::<F> ](
    pool: &threadpool::ThreadPool,
    job: F,
) where F: FnOnce() + Send + 'static
    requires
        job.requires(()),
;

/// Why a pool could not be built.
#[derive(Clone, Copy, Debug, PartialEq, Eq, Structural)]
pub enum PoolError {
    /// A pool needs at least one worker.
    ZeroSize,
}

/// A pool of workers whose number is fixed when the pool is built.
pub struct WorkerPool {
    pool: threadpool::ThreadPool,
    size: usize,
}

impl WorkerPool {
    #[verifier::type_invariant]
    spec fn has_a_worker(self) -> bool {
        self.size >= 1
    }

    /// The number of workers, which is the most jobs that run at one time.
    pub closed spec fn workers(self) -> nat {
        self.size as nat
    }

    /// Builds a pool of `size` workers. A pool of no workers is refused.
    pub fn new(size: usize) -> (built: Result<WorkerPool, PoolError>)
        ensures
            size == 0 <==> built is Err,
            built matches Ok(pool) ==> pool.workers() == size,
            built matches Err(e) ==> e == PoolError::ZeroSize,
    {
        if size == 0 {
            Err(PoolError::ZeroSize)
        } else {
            Ok(WorkerPool { pool: threadpool::ThreadPool::new(size), size })
        }
    }

    /// The number of workers.
    pub fn size(&self) -> (n: usize)
        ensures
            n == self.workers(),
            n >= 1,
    {
        proof {
            use_type_invariant(self);
        }
        self.size
    }

    /// Hands `job` to the pool and returns at once. The job waits in the
    /// queue until a worker is free.
    pub fn submit<F>(&self, job: F) where F: FnOnce() + Send + 'static
        requires
            job.requires(()),
    {
        self.pool.execute(job);
    }
}

} // verus!
