use vstd::prelude::*;

use std::sync::Arc;

use crossbeam::channel::{Receiver, SendError, Sender};
use threadpool::ThreadPool;

use crate::channel::{
    queue_is_empty, send_refused, sent_ok, unbounded_channel, wait_gave, Inbox, Outbox, Received,
};
use crate::constants::{INDEX_HEAP_SIZE, INIT_THREADS};
use crate::pool::{cpu_count, new_pool};
use crate::resource::{Resource, ResourceError, Response};

verus! {

/// Why a crawl, or a step of one, failed.
#[derive(Clone, Debug, PartialEq, Eq)]
pub enum CrawlError {
    /// The resource could not hand out its root.
    Resource(ResourceError),
    /// A channel lost every peer on its other side.
    Disconnected,
    /// The crawl ended with directories still waiting in the work queue.
    Unfinished,
}

/// The sizes a crawler runs with.
#[derive(Clone, Copy, Debug, PartialEq, Eq)]
pub struct Settings {
    /// Worker threads started at first, and the least the scheduler scales down to.
    pub initial_threads: usize,
    /// The most worker threads the scheduler scales up to.
    pub max_threads: usize,
    /// Heap size, in bytes, of the index writer.
    pub indexer_heap_size: usize,
}

/// The settings for the given options, with `cpus` CPUs available: each option that is
/// absent takes its default (`INIT_THREADS`, the CPU count, `INDEX_HEAP_SIZE`).
pub open spec fn settings_for(
    initial_threads: Option<usize>,
    max_threads: Option<usize>,
    indexer_heap_size: Option<usize>,
    cpus: usize,
) -> Settings {
    Settings {
        initial_threads: match initial_threads {
            Some(n) => n,
            None => INIT_THREADS,
        },
        max_threads: match max_threads {
            Some(n) => n,
            None => cpus,
        },
        indexer_heap_size: match indexer_heap_size {
            Some(n) => n,
            None => INDEX_HEAP_SIZE,
        },
    }
}

/// What one bounded wait for a directory to crawl amounts to: the directory,
/// nothing (the wait timed out), or an error (no sender is left).
pub open spec fn outcome_of<T>(received: Received<T>) -> Result<Option<T>, CrawlError> {
    match received {
        Received::Message(m) => Ok(Some(m)),
        Received::TimedOut => Ok(None),
        Received::Disconnected => Err(CrawlError::Disconnected),
    }
}

/// `empty` is whether `receiver` reported holding no message.
pub closed spec fn emptiness_reported<T>(receiver: &Receiver<T>, empty: bool) -> bool {
    call_ensures(queue_is_empty::<T>, (receiver,), empty)
}

/// `pool` is the pool that starting `n` workers gave.
pub closed spec fn made_pool(n: usize, pool: ThreadPool) -> bool {
    call_ensures(new_pool, (n,), pool)
}

/// `sender` and `receiver` are the two ends of the one fresh channel that was made.
pub closed spec fn made_channel<T>(sender: Sender<T>, receiver: Receiver<T>) -> bool {
    call_ensures(unbounded_channel::<T>, (), (sender, receiver))
}

/// `n` is the number of CPUs that the system reported.
pub closed spec fn cpus_reported(n: usize) -> bool {
    call_ensures(cpu_count, (), n)
}

/// `got` is what `resource` handed out when asked for its root.
pub open spec fn gave_root<T, R: Resource<T> + ?Sized>(resource: &R, got: Result<T, ResourceError>) -> bool {
    call_ensures(R::get_path, (resource,), got)
}

/// `response` is what `resource` listed under `dir`.
pub open spec fn gave_listing<T, R: Resource<T> + ?Sized>(resource: &R, dir: T, response: Response<T>) -> bool {
    call_ensures(R::get_dirs_and_leaves, (resource, &dir), response)
}

/// The record of sending each of `items`, in order, with success.
pub open spec fn sends_of<U>(items: Seq<U>) -> Seq<(U, bool)> {
    Seq::new(items.len(), |i: int| (items[i], true))
}

/// The record of sending the items before `i` with success, then item `i` refused,
/// and nothing after it.
pub open spec fn sends_refused_at<U>(items: Seq<U>, i: int) -> Seq<(U, bool)> {
    sends_of(items.take(i)).push((items[i], false))
}

/// Routing `response` may have ended in `res`, with `sent` the record of sends on the
/// work queue and `indexed` that on the indexer queue, before and after: with success
/// only when every directory, then every file, was sent with success, counting both;
/// with an error only when a send was refused, and then nothing was sent after it: a
/// directory refused and no file sent, or all directories sent and a file refused.
/// With nothing to send, it always succeeds.
pub open spec fn routed<T>(
    response: Response<T>,
    res: Result<CrawlStep, CrawlError>,
    sent_before: Seq<(T, bool)>,
    sent_after: Seq<(T, bool)>,
    indexed_before: Seq<(String, bool)>,
    indexed_after: Seq<(String, bool)>,
) -> bool {
    match response {
        Response::DirFileResponse { dirs, files } => {
            &&& res matches Ok(step) ==> {
                &&& step matches CrawlStep::Crawled { dirs: sent_dirs, files: sent_files }
                &&& sent_dirs == dirs@.len()
                &&& sent_files == files@.len()
                &&& sent_after == sent_before + sends_of(dirs@)
                &&& indexed_after == indexed_before + sends_of(files@)
            }
            &&& res matches Err(e) ==> {
                &&& e == CrawlError::Disconnected
                &&& {
                    ||| exists|i: int| {
                        &&& 0 <= i < dirs@.len()
                        &&& sent_after == sent_before + #[trigger] sends_refused_at(dirs@, i)
                        &&& indexed_after == indexed_before
                    }
                    ||| {
                        &&& sent_after == sent_before + sends_of(dirs@)
                        &&& exists|i: int| {
                            &&& 0 <= i < files@.len()
                            &&& indexed_after == indexed_before + #[trigger] sends_refused_at(files@, i)
                        }
                    }
                }
            }
            &&& dirs@.len() == 0 && files@.len() == 0
                ==> res == Ok::<CrawlStep, CrawlError>(CrawlStep::Crawled { dirs: 0, files: 0 })
        },
    }
}

/// A worker's step whose one wait gave `received` may have ended in `res`, with the records
/// of sends on the work queue and the indexer queue before and after: done on a timeout,
/// and failed on a disconnected queue, in both cases sending nothing; and on a directory,
/// the routing of what `resource` listed under it.
pub open spec fn step_follows<T, R: Resource<T> + ?Sized>(
    received: Received<T>,
    res: Result<CrawlStep, CrawlError>,
    sent_before: Seq<(T, bool)>,
    sent_after: Seq<(T, bool)>,
    indexed_before: Seq<(String, bool)>,
    indexed_after: Seq<(String, bool)>,
    resource: &R,
) -> bool {
    match received {
        Received::TimedOut => {
            &&& res == Ok::<CrawlStep, CrawlError>(CrawlStep::Finished)
            &&& sent_after == sent_before
            &&& indexed_after == indexed_before
        },
        Received::Disconnected => {
            &&& res == Err::<CrawlStep, CrawlError>(CrawlError::Disconnected)
            &&& sent_after == sent_before
            &&& indexed_after == indexed_before
        },
        Received::Message(dir) => exists|response: Response<T>|
            gave_listing(resource, dir, response)
                && #[trigger] routed(response, res, sent_before, sent_after, indexed_before, indexed_after),
    }
}

/// What one step of a crawling worker did.
#[derive(Clone, Copy, Debug, PartialEq, Eq)]
pub enum CrawlStep {
    /// No directory came within the timeout: the worker is done.
    Finished,
    /// A directory was listed: so many sub-directories went to the work queue,
    /// and so many files to the indexer.
    Crawled { dirs: usize, files: usize },
}

/// The abstract state of a crawler: its settings, its index directory, and the handles
/// it shares with its threads.
#[verifier::reject_recursive_types(T)]
pub struct CrawlerView<T> {
    pub settings: Settings,
    pub index_dir: Seq<char>,
    pub pool: ThreadPool,
    pub crawler_chan: Sender<T>,
    pub processor_chan: Receiver<T>,
    pub resource: Arc<Box<dyn Resource<T>>>,
}

/// A crawler: a pool of worker threads that take directories from a work queue, list them,
/// and send the sub-directories back to the queue and the files on to an indexer.
#[verifier::reject_recursive_types(T)]
pub struct Crawler<T> {
    pool: ThreadPool,
    crawler_chan: Sender<T>,
    processor_chan: Receiver<T>,
    resource: Arc<Box<dyn Resource<T>>>,
    initial_threads: usize,
    max_threads: usize,
    index_dir: String,
    indexer_heap_size: usize,
}

impl<T> View for Crawler<T> {
    type V = CrawlerView<T>;

    closed spec fn view(&self) -> CrawlerView<T> {
        CrawlerView {
            settings: Settings {
                initial_threads: self.initial_threads,
                max_threads: self.max_threads,
                indexer_heap_size: self.indexer_heap_size,
            },
            index_dir: self.index_dir@,
            pool: self.pool,
            crawler_chan: self.crawler_chan,
            processor_chan: self.processor_chan,
            resource: self.resource,
        }
    }
}

impl<T> Crawler<T> {
    /// The settings for the given options with `cpus` CPUs available; see `settings_for`.
    pub fn settings_with(
        initial_threads: Option<usize>,
        max_threads: Option<usize>,
        indexer_heap_size: Option<usize>,
        cpus: usize,
    ) -> (s: Settings)
        ensures
            s == settings_for(initial_threads, max_threads, indexer_heap_size, cpus),
    {
        Settings {
            initial_threads: match initial_threads {
                Some(n) => n,
                None => INIT_THREADS,
            },
            max_threads: match max_threads {
                Some(n) => n,
                None => cpus,
            },
            indexer_heap_size: match indexer_heap_size {
                Some(n) => n,
                None => INDEX_HEAP_SIZE,
            },
        }
    }

    /// A crawler over `resource`, with a pool of its initial number of threads and a fresh,
    /// empty work queue. An absent option takes its default: `INIT_THREADS` threads at first,
    /// as many threads at most as there are CPUs, and an index heap of `INDEX_HEAP_SIZE`.
    pub fn new(
        resource: Box<dyn Resource<T>>,
        initial_threads: Option<usize>,
        max_threads: Option<usize>,
        index_dir: String,
        indexer_heap_size: Option<usize>,
    ) -> (c: Crawler<T>)
        requires
            initial_threads != Some(0usize),
        ensures
            exists|cpus: usize| {
                &&& cpus >= 1
                &&& max_threads is None ==> cpus_reported(cpus)
                &&& c@.settings == #[trigger] settings_for(initial_threads, max_threads, indexer_heap_size, cpus)
            },
            c@.index_dir == index_dir@,
            made_pool(c@.settings.initial_threads, c@.pool),
            made_channel(c@.crawler_chan, c@.processor_chan),
    {
        let cpus: usize = match max_threads {
            Some(_) => 1,
            None => {
                let n = cpu_count();
                assert(cpus_reported(n));
                n
            },
        };
        let settings = Self::settings_with(initial_threads, max_threads, indexer_heap_size, cpus);
        let (crawler_chan, processor_chan) = unbounded_channel();
        assert(made_channel(crawler_chan, processor_chan));
        let pool = new_pool(settings.initial_threads);
        assert(made_pool(settings.initial_threads, pool));
        let c = Crawler {
            pool,
            crawler_chan,
            processor_chan,
            resource: Arc::new(resource),
            initial_threads: settings.initial_threads,
            max_threads: settings.max_threads,
            index_dir,
            indexer_heap_size: settings.indexer_heap_size,
        };
        assert(c@.settings == settings_for(initial_threads, max_threads, indexer_heap_size, cpus));
        assert(max_threads is None ==> cpus_reported(cpus));
        c
    }

    /// What one wait for a directory amounts to; see `outcome_of`.
    pub fn outcome(received: Received<T>) -> (res: Result<Option<T>, CrawlError>)
        ensures
            res == outcome_of(received),
    {
        match received {
            Received::Message(m) => Ok(Some(m)),
            Received::TimedOut => Ok(None),
            Received::Disconnected => Err(CrawlError::Disconnected),
        }
    }

    /// Waits once, up to `timeout` seconds, for a directory to crawl: `Ok(Some(..))` with
    /// the one that comes, `Ok(None)` when none comes in time, and an error when the queue is
    /// empty and has no sender left.
    pub fn recv_from_channel_with_timeout(receiver: &mut Inbox<T>, timeout: u64) -> (res: Result<Option<T>, CrawlError>)
        ensures
            final(receiver).channel() == old(receiver).channel(),
            final(receiver).waits().len() == old(receiver).waits().len() + 1,
            final(receiver).waits().drop_last() == old(receiver).waits(),
            wait_gave(&old(receiver).channel(), timeout, final(receiver).waits().last()),
            res == outcome_of(final(receiver).waits().last()),
    {
        let received = receiver.wait(timeout);
        assert(final(receiver).waits().drop_last() == old(receiver).waits());
        Self::outcome(received)
    }

    /// Sends each of `items`, in order, on `sender`; stops at the first send that finds
    /// no receiver left, and fails. On success it has sent them all, and gives their number.
    pub fn send_all<U>(sender: &mut Outbox<U>, items: Vec<U>) -> (res: Result<usize, CrawlError>)
        ensures
            final(sender).channel() == old(sender).channel(),
            res matches Ok(n) ==> n == items@.len()
                && final(sender).attempts() == old(sender).attempts() + sends_of(items@),
            res matches Err(e) ==> e == CrawlError::Disconnected
                && exists|i: int| 0 <= i < items@.len()
                    && final(sender).attempts() == old(sender).attempts() + #[trigger] sends_refused_at(items@, i),
            items@.len() == 0 ==> res == Ok::<usize, CrawlError>(0),
    {
        let ghost all = items@;
        let ghost before = sender.attempts();
        let ghost channel = sender.channel();
        let total: usize = items.len();
        let mut sent: usize = 0;
        broadcast use vstd::std_specs::vec::axiom_spec_into_iter;
        for item in it: items.into_iter()
            invariant
                it.seq() == all,
                all.len() == total,
                sent == it.index(),
                sent <= total,
                channel == old(sender).channel(),
                before == old(sender).attempts(),
                sender.channel() == channel,
                sender.attempts() == before + sends_of(all.take(sent as int)),
        {
            let ghost message = item;
            let outcome = sender.send(item);
            match outcome {
                Ok(()) => {
                    assert(sends_of(all.take(sent + 1)) == sends_of(all.take(sent as int)).push((message, true)));
                },
                Err(e) => {
                    assert(sender.attempts() == before + sends_refused_at(all, sent as int));
                    return Err(CrawlError::Disconnected);
                },
            }
            sent = sent + 1;
        }
        assert(all.take(sent as int) == all);
        Ok(sent)
    }

    /// Routes a listing: its directories to the work queue `sender`, then its files to the
    /// indexer queue `result`. On success it gives how many of each it sent: all of them.
    pub fn dispatch(response: Response<T>, sender: &mut Outbox<T>, result: &mut Outbox<String>) -> (res: Result<CrawlStep, CrawlError>)
        ensures
            final(sender).channel() == old(sender).channel(),
            final(result).channel() == old(result).channel(),
            routed(
                response,
                res,
                old(sender).attempts(),
                final(sender).attempts(),
                old(result).attempts(),
                final(result).attempts(),
            ),
    {
        match response {
            Response::DirFileResponse { dirs, files } => {
                let dirs_sent = Self::send_all(sender, dirs)?;
                let files_sent = Self::send_all(result, files)?;
                Ok(CrawlStep::Crawled { dirs: dirs_sent, files: files_sent })
            },
        }
    }

    /// Asks `resource` for what lies under `dir`.
    fn list_dir<R: Resource<T> + ?Sized>(resource: &R, dir: &T) -> (response: Response<T>)
        ensures
            gave_listing(resource, *dir, response),
    {
        resource.get_dirs_and_leaves(dir)
    }

    /// Asks `resource` for its root.
    fn root_of<R: Resource<T> + ?Sized>(resource: &R) -> (got: Result<T, ResourceError>)
        ensures
            gave_root(resource, got),
    {
        resource.get_path()
    }

    /// One step of a crawling worker: waits up to `timeout` seconds for a directory on
    /// `receiver`; when none comes the worker is done; otherwise it lists the directory
    /// through `resource` and routes the listing, directories back to `sender` and files
    /// on to `result`.
    pub fn crawl_once(
        sender: &mut Outbox<T>,
        receiver: &mut Inbox<T>,
        result: &mut Outbox<String>,
        resource: &Arc<Box<dyn Resource<T>>>,
        timeout: u64,
    ) -> (res: Result<CrawlStep, CrawlError>)
        ensures
            res matches Err(e) ==> e == CrawlError::Disconnected,
            final(sender).channel() == old(sender).channel(),
            final(receiver).channel() == old(receiver).channel(),
            final(result).channel() == old(result).channel(),
            final(receiver).waits().len() == old(receiver).waits().len() + 1,
            final(receiver).waits().drop_last() == old(receiver).waits(),
            wait_gave(&old(receiver).channel(), timeout, final(receiver).waits().last()),
            step_follows::<T, dyn Resource<T>>(
                final(receiver).waits().last(),
                res,
                old(sender).attempts(),
                final(sender).attempts(),
                old(result).attempts(),
                final(result).attempts(),
                &***resource,
            ),
    {
        let got = Self::recv_from_channel_with_timeout(receiver, timeout);
        match got {
            Err(e) => Err(e),
            Ok(None) => Ok(CrawlStep::Finished),
            Ok(Some(root)) => {
                let ghost dir = root;
                let response = Self::list_dir::<dyn Resource<T>>(&***resource, &root);
                let ghost listing = response;
                let res = Self::dispatch(response, sender, result);
                assert(gave_listing::<T, dyn Resource<T>>(&***resource, dir, listing));
                assert(routed(listing, res, old(sender).attempts(), final(sender).attempts(), old(result).attempts(), final(result).attempts()));
                res
            },
        }
    }

    /// Puts the resource's root on the work queue through `queue`, once: fails when the
    /// resource cannot hand out its root, sending nothing, or when the queue has no receiver
    /// left.
    pub fn seed(&self, queue: &mut Outbox<T>) -> (res: Result<(), CrawlError>)
        requires
            old(queue).channel() == self@.crawler_chan,
        ensures
            final(queue).channel() == old(queue).channel(),
            exists|got: Result<T, ResourceError>| {
                &&& #[trigger] gave_root::<T, dyn Resource<T>>(&**self@.resource, got)
                &&& match got {
                    Err(e) => {
                        &&& res == Err::<(), CrawlError>(CrawlError::Resource(e))
                        &&& final(queue).attempts() == old(queue).attempts()
                    },
                    Ok(root) => {
                        &&& final(queue).attempts() == old(queue).attempts().push((root, res is Ok))
                        &&& res is Ok ==> sent_ok(&self@.crawler_chan, root)
                        &&& res is Err ==> res == Err::<(), CrawlError>(CrawlError::Disconnected)
                            && send_refused(&self@.crawler_chan, root)
                    },
                }
            },
    {
        let got = Self::root_of::<dyn Resource<T>>(&**self.resource);
        assert(gave_root::<T, dyn Resource<T>>(&**self@.resource, got));
        let root = match got {
            Ok(root) => root,
            Err(e) => {
                return Err(CrawlError::Resource(e));
            },
        };
        let outcome = queue.send(root);
        match outcome {
            Ok(()) => Ok(()),
            Err(_) => Err(CrawlError::Disconnected),
        }
    }

    /// The last check of a crawl: it is complete only when the work queue is empty.
    pub fn finish(&self) -> (res: Result<(), CrawlError>)
        ensures
            exists|empty: bool| {
                &&& emptiness_reported(&self@.processor_chan, empty)
                &&& res == if empty {
                    Ok::<(), CrawlError>(())
                } else {
                    Err(CrawlError::Unfinished)
                }
            },
    {
        let empty = queue_is_empty(&self.processor_chan);
        assert(emptiness_reported(&self@.processor_chan, empty));
        if !empty {
            return Err(CrawlError::Unfinished);
        }
        Ok(())
    }

    /// The sizes this crawler runs with.
    pub fn settings(&self) -> (s: Settings)
        ensures
            s == self@.settings,
    {
        Settings {
            initial_threads: self.initial_threads,
            max_threads: self.max_threads,
            indexer_heap_size: self.indexer_heap_size,
        }
    }

    /// Where the index is written.
    pub fn index_dir(&self) -> (d: &String)
        ensures
            d@ == self@.index_dir,
    {
        &self.index_dir
    }

    /// The pool of worker threads.
    pub fn pool(&self) -> (r: &ThreadPool)
        ensures
            *r == self@.pool,
    {
        &self.pool
    }

    /// The sending side of the work queue.
    pub fn crawler_chan(&self) -> (r: &Sender<T>)
        ensures
            *r == self@.crawler_chan,
    {
        &self.crawler_chan
    }

    /// The receiving side of the work queue.
    pub fn processor_chan(&self) -> (r: &Receiver<T>)
        ensures
            *r == self@.processor_chan,
    {
        &self.processor_chan
    }

    /// The resource being crawled.
    pub fn resource(&self) -> (r: &Arc<Box<dyn Resource<T>>>)
        ensures
            *r == self@.resource,
    {
        &self.resource
    }
}

/// An option that is given is kept as given; one that is absent takes its default:
/// 3 threads at first, as many threads at most as there are CPUs, a heap of 50,000,000 bytes.
pub proof fn lemma_options_are_kept_or_defaulted(
    initial_threads: Option<usize>,
    max_threads: Option<usize>,
    indexer_heap_size: Option<usize>,
    cpus: usize,
)
    ensures
        settings_for(initial_threads, max_threads, indexer_heap_size, cpus).initial_threads
            == if initial_threads is Some { initial_threads->0 } else { 3 },
        settings_for(initial_threads, max_threads, indexer_heap_size, cpus).max_threads
            == if max_threads is Some { max_threads->0 } else { cpus },
        settings_for(initial_threads, max_threads, indexer_heap_size, cpus).indexer_heap_size
            == if indexer_heap_size is Some { indexer_heap_size->0 } else { 50_000_000 },
{
}

/// A routing that succeeds has sent every listed directory on the work queue and every
/// listed file to the indexer, each queued, in listing order and nothing else, and counts
/// them all.
pub proof fn lemma_routing_success_sends_everything<T>(
    response: Response<T>,
    res: Result<CrawlStep, CrawlError>,
    sent_before: Seq<(T, bool)>,
    sent_after: Seq<(T, bool)>,
    indexed_before: Seq<(String, bool)>,
    indexed_after: Seq<(String, bool)>,
)
    requires
        routed(response, res, sent_before, sent_after, indexed_before, indexed_after),
        res is Ok,
    ensures
        response matches Response::DirFileResponse { dirs, files } && {
            &&& res matches Ok(CrawlStep::Crawled { dirs: n_dirs, files: n_files })
            &&& n_dirs == dirs@.len()
            &&& n_files == files@.len()
            &&& sent_after.len() == sent_before.len() + dirs@.len()
            &&& forall|k: int| 0 <= k < sent_before.len() ==> sent_after[k] == sent_before[k]
            &&& forall|k: int| 0 <= k < dirs@.len() ==> sent_after[sent_before.len() + k] == (dirs@[k], true)
            &&& indexed_after.len() == indexed_before.len() + files@.len()
            &&& forall|k: int| 0 <= k < indexed_before.len() ==> indexed_after[k] == indexed_before[k]
            &&& forall|k: int| 0 <= k < files@.len() ==> indexed_after[indexed_before.len() + k] == (files@[k], true)
        },
{
}

/// A routing that fails was refused a send, and sent nothing after it: either the send of
/// directory `i` was refused, after directories `0..i` were queued, and no file was sent;
/// or every directory was queued, then the send of file `i` was refused after files `0..i`.
pub proof fn lemma_routing_failure_stops_at_the_refusal<T>(
    response: Response<T>,
    res: Result<CrawlStep, CrawlError>,
    sent_before: Seq<(T, bool)>,
    sent_after: Seq<(T, bool)>,
    indexed_before: Seq<(String, bool)>,
    indexed_after: Seq<(String, bool)>,
)
    requires
        routed(response, res, sent_before, sent_after, indexed_before, indexed_after),
        res is Err,
    ensures
        res == Err::<CrawlStep, CrawlError>(CrawlError::Disconnected),
        response matches Response::DirFileResponse { dirs, files } && {
            ||| exists|i: int| {
                &&& 0 <= i < dirs@.len()
                &&& sent_after.len() == sent_before.len() + i + 1
                &&& (forall|k: int| 0 <= k < sent_before.len() ==> sent_after[k] == sent_before[k])
                &&& (forall|k: int| 0 <= k < i ==> sent_after[sent_before.len() + k] == (dirs@[k], true))
                &&& #[trigger] sent_after[sent_before.len() + i] == (dirs@[i], false)
                &&& indexed_after == indexed_before
            }
            ||| {
                &&& sent_after.len() == sent_before.len() + dirs@.len()
                &&& (forall|k: int| 0 <= k < sent_before.len() ==> sent_after[k] == sent_before[k])
                &&& (forall|k: int| 0 <= k < dirs@.len() ==> sent_after[sent_before.len() + k] == (dirs@[k], true))
                &&& exists|i: int| {
                    &&& 0 <= i < files@.len()
                    &&& indexed_after.len() == indexed_before.len() + i + 1
                    &&& (forall|k: int| 0 <= k < indexed_before.len() ==> indexed_after[k] == indexed_before[k])
                    &&& (forall|k: int| 0 <= k < i ==> indexed_after[indexed_before.len() + k] == (files@[k], true))
                    &&& #[trigger] indexed_after[indexed_before.len() + i] == (files@[i], false)
                }
            }
        },
{
    match response {
        Response::DirFileResponse { dirs, files } => {
            if exists|i: int| {
                &&& 0 <= i < dirs@.len()
                &&& sent_after == sent_before + #[trigger] sends_refused_at(dirs@, i)
                &&& indexed_after == indexed_before
            } {
                let i = choose|i: int| {
                    &&& 0 <= i < dirs@.len()
                    &&& sent_after == sent_before + #[trigger] sends_refused_at(dirs@, i)
                    &&& indexed_after == indexed_before
                };
                assert(sent_after[sent_before.len() + i] == (dirs@[i], false));
            } else {
                let i = choose|i: int| {
                    &&& 0 <= i < files@.len()
                    &&& indexed_after == indexed_before + #[trigger] sends_refused_at(files@, i)
                };
                assert(indexed_after[indexed_before.len() + i] == (files@[i], false));
            }
        },
    }
}

/// A worker's step, in full: on a timeout it is done and sends nothing; on a disconnected
/// work queue it fails and sends nothing; on a directory that it crawls with success, it has
/// queued on the work queue every sub-directory that the resource listed under it, and on the
/// indexer queue every file, in listing order and nothing else, and counts them all.
pub proof fn lemma_crawl_step_routes_the_listing<T, R: Resource<T> + ?Sized>(
    received: Received<T>,
    res: Result<CrawlStep, CrawlError>,
    sent_before: Seq<(T, bool)>,
    sent_after: Seq<(T, bool)>,
    indexed_before: Seq<(String, bool)>,
    indexed_after: Seq<(String, bool)>,
    resource: &R,
)
    requires
        step_follows(received, res, sent_before, sent_after, indexed_before, indexed_after, resource),
    ensures
        received is TimedOut ==> res == Ok::<CrawlStep, CrawlError>(CrawlStep::Finished)
            && sent_after == sent_before && indexed_after == indexed_before,
        received is Disconnected ==> res == Err::<CrawlStep, CrawlError>(CrawlError::Disconnected)
            && sent_after == sent_before && indexed_after == indexed_before,
        received matches Received::Message(dir) ==> res != Ok::<CrawlStep, CrawlError>(CrawlStep::Finished),
        received matches Received::Message(dir) ==> res is Ok ==> exists|response: Response<T>| {
            &&& #[trigger] gave_listing(resource, dir, response)
            &&& response matches Response::DirFileResponse { dirs, files } && {
                &&& res matches Ok(CrawlStep::Crawled { dirs: n_dirs, files: n_files })
                &&& n_dirs == dirs@.len()
                &&& n_files == files@.len()
                &&& sent_after.len() == sent_before.len() + dirs@.len()
                &&& forall|k: int| 0 <= k < sent_before.len() ==> sent_after[k] == sent_before[k]
                &&& forall|k: int| 0 <= k < dirs@.len() ==> sent_after[sent_before.len() + k] == (dirs@[k], true)
                &&& indexed_after.len() == indexed_before.len() + files@.len()
                &&& forall|k: int| 0 <= k < indexed_before.len() ==> indexed_after[k] == indexed_before[k]
                &&& forall|k: int| 0 <= k < files@.len() ==> indexed_after[indexed_before.len() + k] == (files@[k], true)
            }
        },
{
    if let Received::Message(dir) = received {
        let response = choose|response: Response<T>|
            gave_listing(resource, dir, response)
                && #[trigger] routed(response, res, sent_before, sent_after, indexed_before, indexed_after);
        if res is Ok {
            lemma_routing_success_sends_everything(response, res, sent_before, sent_after, indexed_before, indexed_after);
        }
    }
}

} // verus!
