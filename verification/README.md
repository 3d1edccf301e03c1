# finde_rs

A directory crawler that indexes the files it finds. A pool of worker threads takes
directories from a work queue, lists them, and sends the sub-directories back to the queue
and the file paths on to an indexer; a scheduler grows the pool by one thread while the queue
is long and halves it while the queue is short, within a lower and an upper bound.

- `src/` is the verified library: the scaling policy and the scheduler's decisions
  (`scheduler.rs`), the crawler's settings, its workers' steps and its channel bookkeeping
  (`crawler.rs`), the listing of a walked directory (`fileresource.rs`), the resource
  interface (`resource.rs`, `haslen.rs`), and the trusted wrappers around crossbeam's
  channels (`channel.rs`) and the thread pool and CPU count (`pool.rs`).
- `app/` is the command-line program: argument parsing, logging, the threads, the walk
  over the disk, and the tantivy index.
- `tests/` runs the library.
