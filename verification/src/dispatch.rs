//! How an accepted connection gets its handler run: on a thread of its own,
//! or on one of a fixed number of pooled workers.

use vstd::prelude::*;
use crate::pool::{PoolError, WorkerPool};

verus! {

/// Workers of the pool when nothing else is asked for.
pub const DEFAULT_WORKERS: usize = 4;

/// The dispatch strategy.
#[derive(Clone, Copy, Debug, PartialEq, Eq, Structural)]
pub enum Mode {
    /// One new thread for each connection, without limit.
    Unbounded,
    /// A pool of `workers` threads; connections beyond that wait in a queue.
    Bounded { workers: usize },
}

/// Dispatches jobs according to a [`Mode`]. In bounded mode it owns the pool.
pub struct Dispatcher {
    pool: Option<WorkerPool>,
}

impl Dispatcher {
    /// The mode this dispatcher was built for.
    pub closed spec fn mode(self) -> Mode {
        match self.pool {
            Some(pool) => Mode::Bounded { workers: pool.workers() as usize },
            None => Mode::Unbounded,
        }
    }

    /// Builds the dispatcher for `mode`. Bounded mode starts its workers
    /// here, and is refused when it asks for none.
    pub fn new(mode: Mode) -> (built: Result<Dispatcher, PoolError>)
        ensures
            built is Err <==> mode == (Mode::Bounded { workers: 0 }),
            built matches Ok(dispatcher) ==> dispatcher.mode() == mode,
            built matches Err(e) ==> e == PoolError::ZeroSize,
    {
        match mode {
            Mode::Unbounded => Ok(Dispatcher { pool: None }),
            Mode::Bounded { workers } => match WorkerPool::new(workers) {
                Ok(pool) => Ok(Dispatcher { pool: Some(pool) }),
                Err(e) => Err(e),
            },
        }
    }

    /// Dispatches `job` without waiting for it. In bounded mode the job is
    /// queued on the pool and nothing is left to do. In unbounded mode the
    /// job is handed back untouched: it is for the caller to give it a thread
    /// of its own.
    pub fn dispatch<F>(&self, job: F) -> (left: Option<F>) where F: FnOnce() + Send + 'static
        requires
            job.requires(()),
        ensures
            self.mode() is Bounded ==> left is None,
            self.mode() is Unbounded ==> left == Some(job),
    {
        match &self.pool {
            Some(pool) => {
                pool.submit(job);
                None
            },
            None => Some(job),
        }
    }
}

} // verus!
