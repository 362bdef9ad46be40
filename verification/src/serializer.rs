//! The execution serializer: one worker thread, the only place from which
//! the engine is ever entered.

use vstd::prelude::*;
use vstd::string::StringExecFns;
use crate::text::decimal;
use crate::text::push_decimal;

verus! {

/// The number of threads that may enter the engine.
pub const WORKER_THREADS: usize = 1;

/// Declares `rayon::ThreadPool`, of which nothing is known here but that
/// it is a value.
#[verifier::external_type_specification]
#[verifier::external_body]
pub struct ExThreadPool(rayon::ThreadPool);

/// Declares `rayon::ThreadPoolBuildError`, the error of a pool that could
/// not be built. Nothing is known of what it holds.
#[verifier::external_type_specification]
#[verifier::external_body]
pub struct ExThreadPoolBuildError(rayon::ThreadPoolBuildError);

/// Why no serializer could be made.
#[derive(Debug)]
pub enum SerializerError {
    /// The worker thread could not be started.
    Spawn(rayon::ThreadPoolBuildError),
    /// The pool runs `found` threads, which is not the number that may
    /// enter the engine.
    Workers { found: usize },
}

/// Runs closures one after the other on its worker thread.
pub struct Serializer {
    pool: rayon::ThreadPool,
    /// The number of threads that the pool reported when it was taken over.
    workers: usize,
}

/// The name of the worker thread with the given index.
pub open spec fn spec_worker_name(index: usize) -> Seq<char> {
    "lwip-TCP-"@ + decimal(index as nat)
}

/// Names the worker thread with the given index.
pub fn worker_name(index: usize) -> (name: String)
    ensures
        name@ == spec_worker_name(index),
{
    let mut name = String::from_str("lwip-TCP-");
    push_decimal(&mut name, index);
    name
}

/// Builds a thread pool with `rayon::ThreadPoolBuilder`: `new`, then
/// `num_threads` with `threads`, `thread_name` with `worker_name`, and
/// `build`. Nothing is claimed of the result: whether the threads can be
/// started is up to the system.
#[verifier::external_body]
fn build_pool(threads: usize) -> (built: Result<rayon::ThreadPool, rayon::ThreadPoolBuildError>) {
    rayon::ThreadPoolBuilder::new().num_threads(threads).thread_name(|i| worker_name(i)).build()
}

/// Calls `rayon::ThreadPool::install`, which runs `op` inside the pool,
/// waits for it and returns what it returned. The contract claims just
/// that: the result is one that `op` can return. A panic of `op` would
/// come out of `install`; an `op` whose precondition holds has none.
#[verifier::external_body]
fn install<R: Send, OP: FnOnce() -> R + Send>(pool: &rayon::ThreadPool, op: OP) -> (result: R)
    requires
        op.requires(()),
    ensures
        op.ensures((), result),
{
    pool.install(op)
}

/// Calls `rayon::ThreadPool::current_num_threads`, which returns the
/// number of threads in the pool. Nothing is claimed of the number.
#[verifier::external_body]
fn pool_threads(pool: &rayon::ThreadPool) -> (count: usize) {
    pool.current_num_threads()
}

impl Serializer {
    #[verifier::type_invariant]
    spec fn single_worker(self) -> bool {
        self.workers == WORKER_THREADS
    }

    /// The pool that holds the worker thread.
    pub closed spec fn pool(&self) -> rayon::ThreadPool {
        self.pool
    }

    /// The number of threads that the pool reported when the serializer
    /// took it over.
    pub closed spec fn spec_workers(&self) -> usize {
        self.workers
    }

    /// The number of threads that the pool reported when the serializer
    /// took it over: with every serializer, the one that may enter the
    /// engine.
    #[verifier::when_used_as_spec(spec_workers)]
    pub fn workers(&self) -> (count: usize)
        ensures
            count == self.spec_workers(),
            count == WORKER_THREADS,
    {
        proof {
            use_type_invariant(self);
        }
        self.workers
    }

    /// Makes a serializer of a pool that reports `threads` threads. A pool
    /// of one thread is taken over as it is. Any other is refused: with
    /// more threads than one, closures would enter the engine side by side.
    pub fn from_pool(pool: rayon::ThreadPool, threads: usize) -> (res: Result<
        Serializer,
        SerializerError,
    >)
        ensures
            threads == WORKER_THREADS ==> (res matches Ok(serializer) && serializer.pool() == pool
                && serializer.workers() == threads),
            threads != WORKER_THREADS ==> (res matches Err(SerializerError::Workers { found })
                && found == threads),
    {
        if threads == WORKER_THREADS {
            Ok(Serializer { pool, workers: threads })
        } else {
            Err(SerializerError::Workers { found: threads })
        }
    }

    /// Makes a serializer of what building its pool came to. A failure to
    /// build is passed on. A pool that was built is asked for the number of
    /// its threads, and is taken over if that is one and refused otherwise.
    pub fn from_built(built: Result<rayon::ThreadPool, rayon::ThreadPoolBuildError>) -> (res: Result<
        Serializer,
        SerializerError,
    >)
        ensures
            match built {
                Ok(pool) => match res {
                    Ok(serializer) => serializer.pool() == pool && serializer.workers()
                        == WORKER_THREADS,
                    Err(SerializerError::Workers { found }) => found != WORKER_THREADS,
                    Err(SerializerError::Spawn(_)) => false,
                },
                Err(error) => res matches Err(SerializerError::Spawn(e)) && e == error,
            },
    {
        match built {
            Ok(pool) => {
                let threads = pool_threads(&pool);
                Self::from_pool(pool, threads)
            },
            Err(error) => Err(SerializerError::Spawn(error)),
        }
    }

    /// Starts the worker thread: builds a pool of one thread and takes it
    /// over. What comes back is a serializer of one worker, or the reason
    /// why there is none: the system did not let the thread start, or the
    /// pool that was built reports another number of threads than one.
    pub fn new() -> (res: Result<Serializer, SerializerError>)
        ensures
            match res {
                Ok(serializer) => serializer.workers() == WORKER_THREADS,
                Err(SerializerError::Workers { found }) => found != WORKER_THREADS,
                Err(SerializerError::Spawn(_)) => true,
            },
    {
        Self::from_built(build_pool(WORKER_THREADS))
    }

    /// Runs `op` on the worker thread, waits until it is done, and returns
    /// its result. An error that `op` returns comes back as its result,
    /// like any other value.
    pub fn run<R: Send, OP: FnOnce() -> R + Send>(&self, op: OP) -> (result: R)
        requires
            op.requires(()),
        ensures
            op.ensures((), result),
    {
        install(&self.pool, op)
    }
}

} // verus!
