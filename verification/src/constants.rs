use vstd::prelude::*;

verus! {

/// Default root to start crawling from.
pub const DEFAULT_ROOT: &'static str = "/usr/lib";

/// Initial number of threads in the threadpool.
pub const INIT_THREADS: usize = 3;

/// Maximum threads in threadpool.
pub const MAX_THREADS: usize = 14;

/// The watermark beyond which the scheduler starts
/// scaling up the threadpool.
pub const THROTTLE_WMARK: usize = 10;

/// Duration in seconds between threadpool evaluations by the scheduler.
pub const SCHED_SLEEP_S: u64 = 1;

/// Duration in milliseconds between threadpool evaluations by the scheduler.
pub const SCHED_SLEEP_MS: u64 = 100;

/// Timeout in seconds for the amount of time
/// each thread in the pool waits for directory
/// paths to crawl.
pub const CHAN_TIMEOUT_S: u64 = 10;

/// Default location of the index directory.
/// Must exist and be empty!
pub const INDEX_DIR: &'static str = "/tmp/index";

/// Default heap size, in bytes, of the index writer.
pub const INDEX_HEAP_SIZE: usize = 50_000_000;

} // verus!
