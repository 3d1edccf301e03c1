use vstd::prelude::*;

use threadpool::ThreadPool;

verus! {

/// A pool of worker threads; nothing of its workers or jobs is visible here.
#[verifier::external_type_specification]
#[verifier::external_body]
pub struct ExThreadPool(ThreadPool);

/// Calls `threadpool::ThreadPool::new`, which starts a pool of `num_threads` workers
/// and panics when `num_threads` is zero.
#[verifier::external_body]
pub(crate) fn new_pool(num_threads: usize) -> ThreadPool
    requires
        num_threads >= 1,
{
    ThreadPool::new(num_threads)
}

/// Calls `ThreadPool::active_count`: how many jobs the workers run at the moment of the call,
/// which they change at any time, so nothing is stated of it.
#[verifier::external_body]
pub(crate) fn active_jobs(pool: &ThreadPool) -> usize {
    pool.active_count()
}

/// Calls `ThreadPool::set_num_threads` on `pool` and hands the pool back: from then on the
/// pool may run `num_threads` workers. It panics when `num_threads` is zero. The pool's state
/// is shared with its clones and workers, so nothing is stated of it afterwards.
#[verifier::external_body]
pub(crate) fn resize_pool(pool: ThreadPool, num_threads: usize) -> ThreadPool
    requires
        num_threads >= 1,
{
    let mut pool = pool;
    pool.set_num_threads(num_threads);
    pool
}

/// Calls `num_cpus::get`, the number of logical CPUs this process may use,
/// which its documentation promises is at least one.
#[verifier::external_body]
pub(crate) fn cpu_count() -> (n: usize)
    ensures
        n >= 1,
{
    num_cpus::get()
}

} // verus!
