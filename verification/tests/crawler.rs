use crossbeam::channel::{unbounded, Receiver, Sender};
use finde_rs::channel::{Inbox, Outbox, Received};
use finde_rs::constants::{INDEX_HEAP_SIZE, INIT_THREADS};
use finde_rs::crawler::{CrawlError, CrawlStep, Crawler};
use finde_rs::resource::{Resource, ResourceError, Response};
use std::path::PathBuf;
use std::sync::Arc;

#[should_panic]
#[test]
fn test_root_from_disconnected_channel() {
    let (_, empty_receiver): (Sender<PathBuf>, Receiver<PathBuf>) = unbounded();

    let _ = Crawler::recv_from_channel_with_timeout(&mut Inbox::new(&empty_receiver), 0).expect("Failed to read");
    ()
}

#[test]
fn test_root_from_channel() {
    let (sender, receiver): (Sender<PathBuf>, Receiver<PathBuf>) = unbounded();
    let _ = sender.send(PathBuf::from("TESTM"));
    let mut inbox = Inbox::new(&receiver);

    let mut root_path = Crawler::recv_from_channel_with_timeout(&mut inbox, 100);
    assert_eq!(root_path.unwrap(), Some(PathBuf::from("TESTM".to_string())));

    root_path = Crawler::recv_from_channel_with_timeout(&mut inbox, 1);
    assert_eq!(root_path.unwrap(), None)
}

#[test]
fn disconnected_channel_gives_the_disconnected_error() {
    let (_, receiver): (Sender<u32>, Receiver<u32>) = unbounded();
    assert_eq!(
        Crawler::recv_from_channel_with_timeout(&mut Inbox::new(&receiver), 0),
        Err(CrawlError::Disconnected)
    );
}

#[test]
fn queued_messages_come_out_before_disconnection() {
    let (sender, receiver): (Sender<u32>, Receiver<u32>) = unbounded();
    sender.send(4).unwrap();
    sender.send(5).unwrap();
    drop(sender);
    let mut inbox = Inbox::new(&receiver);
    assert_eq!(Crawler::recv_from_channel_with_timeout(&mut inbox, 0), Ok(Some(4)));
    assert_eq!(Crawler::recv_from_channel_with_timeout(&mut inbox, 0), Ok(Some(5)));
    assert_eq!(
        Crawler::recv_from_channel_with_timeout(&mut inbox, 0),
        Err(CrawlError::Disconnected)
    );
}

#[test]
fn outcome_maps_each_kind_of_wait() {
    assert_eq!(Crawler::<u8>::outcome(Received::Message(3)), Ok(Some(3)));
    assert_eq!(Crawler::<u8>::outcome(Received::TimedOut), Ok(None));
    assert_eq!(
        Crawler::<u8>::outcome(Received::Disconnected),
        Err(CrawlError::Disconnected)
    );
}

#[test]
fn settings_take_the_defaults_for_absent_options() {
    let s = Crawler::<PathBuf>::settings_with(None, None, None, 8);
    assert_eq!(s.initial_threads, INIT_THREADS);
    assert_eq!(s.max_threads, 8);
    assert_eq!(s.indexer_heap_size, INDEX_HEAP_SIZE);
    assert_eq!(s.indexer_heap_size, 50_000_000);
    let s = Crawler::<PathBuf>::settings_with(Some(6), Some(12), Some(1000), 8);
    assert_eq!(s.initial_threads, 6);
    assert_eq!(s.max_threads, 12);
    assert_eq!(s.indexer_heap_size, 1000);
}

/// A resource over a fixed tree: "/" holds "/a" and "/b" and the file "/f";
/// "/a" holds the file "/a/g"; "/b" is empty.
struct Tree {
    root: Option<String>,
}

impl Resource<String> for Tree {
    fn get_dirs_and_leaves(&self, path: &String) -> Response<String> {
        match path.as_str() {
            "/" => Response::DirFileResponse {
                dirs: vec!["/a".to_string(), "/b".to_string()],
                files: vec!["/f".to_string()],
            },
            "/a" => Response::DirFileResponse {
                dirs: vec![],
                files: vec!["/a/g".to_string()],
            },
            _ => Response::DirFileResponse { dirs: vec![], files: vec![] },
        }
    }

    fn get_path(&self) -> Result<String, ResourceError> {
        match &self.root {
            Some(r) => Ok(r.clone()),
            None => Err(ResourceError { message: "no root".to_string() }),
        }
    }
}

#[test]
fn new_takes_the_options_and_the_cpu_count() {
    let c = Crawler::new(
        Box::new(Tree { root: Some("/".to_string()) }),
        None,
        None,
        "/tmp/idx".to_string(),
        None,
    );
    let s = c.settings();
    assert_eq!(s.initial_threads, INIT_THREADS);
    assert!(s.max_threads >= 1);
    assert_eq!(s.max_threads, num_cpus::get());
    assert_eq!(s.indexer_heap_size, INDEX_HEAP_SIZE);
    assert_eq!(c.index_dir(), "/tmp/idx");
    assert_eq!(c.pool().max_count(), INIT_THREADS);

    let c = Crawler::new(
        Box::new(Tree { root: Some("/".to_string()) }),
        Some(2),
        Some(7),
        "/x".to_string(),
        Some(99),
    );
    let s = c.settings();
    assert_eq!((s.initial_threads, s.max_threads, s.indexer_heap_size), (2, 7, 99));
    assert_eq!(c.pool().max_count(), 2);
}

#[test]
fn seed_puts_the_root_on_the_work_queue() {
    let c = Crawler::new(Box::new(Tree { root: Some("/".to_string()) }), Some(1), Some(1), "/x".to_string(), None);
    assert_eq!(c.seed(&mut Outbox::new(c.crawler_chan())), Ok(()));
    assert_eq!(c.processor_chan().len(), 1);
    assert_eq!(c.finish(), Err(CrawlError::Unfinished));
    assert_eq!(c.processor_chan().recv().unwrap(), "/".to_string());
    assert_eq!(c.finish(), Ok(()));
}

#[test]
fn seed_reports_a_resource_without_root() {
    let c = Crawler::new(Box::new(Tree { root: None }), Some(1), Some(1), "/x".to_string(), None);
    assert_eq!(
        c.seed(&mut Outbox::new(c.crawler_chan())),
        Err(CrawlError::Resource(ResourceError { message: "no root".to_string() }))
    );
    assert_eq!(c.finish(), Ok(()));
}

#[test]
fn send_all_sends_in_order() {
    let (s, r) = unbounded::<u32>();
    let mut out = Outbox::new(&s);
    assert_eq!(Crawler::<u32>::send_all(&mut out, vec![3, 1, 2]), Ok(3));
    assert_eq!(r.try_iter().collect::<Vec<_>>(), vec![3, 1, 2]);
    assert_eq!(Crawler::<u32>::send_all(&mut out, vec![]), Ok(0));
    drop(r);
    assert_eq!(Crawler::<u32>::send_all(&mut out, vec![1, 2]), Err(CrawlError::Disconnected));
    assert_eq!(Crawler::<u32>::send_all(&mut out, vec![]), Ok(0));
}

#[test]
fn dispatch_routes_dirs_to_the_work_queue_and_files_to_the_indexer() {
    let (work_tx, work_rx) = unbounded::<String>();
    let (index_tx, index_rx) = unbounded::<String>();
    let response = Response::DirFileResponse {
        dirs: vec!["/a".to_string(), "/b".to_string()],
        files: vec!["/f".to_string()],
    };
    assert_eq!(
        Crawler::dispatch(response, &mut Outbox::new(&work_tx), &mut Outbox::new(&index_tx)),
        Ok(CrawlStep::Crawled { dirs: 2, files: 1 })
    );
    assert_eq!(work_rx.try_iter().collect::<Vec<_>>(), vec!["/a".to_string(), "/b".to_string()]);
    assert_eq!(index_rx.try_iter().collect::<Vec<_>>(), vec!["/f".to_string()]);
}

#[test]
fn dispatch_fails_when_the_indexer_is_gone() {
    let (work_tx, _work_rx) = unbounded::<String>();
    let (index_tx, index_rx) = unbounded::<String>();
    drop(index_rx);
    let response = Response::DirFileResponse { dirs: vec![], files: vec!["/f".to_string()] };
    assert_eq!(Crawler::dispatch(response, &mut Outbox::new(&work_tx), &mut Outbox::new(&index_tx)), Err(CrawlError::Disconnected));
}

#[test]
fn crawl_once_walks_the_whole_tree_then_finishes() {
    let (work_tx, work_rx) = unbounded::<String>();
    let (index_tx, index_rx) = unbounded::<String>();
    let resource: Arc<Box<dyn Resource<String>>> = Arc::new(Box::new(Tree { root: Some("/".to_string()) }));
    work_tx.send("/".to_string()).unwrap();
    let mut steps = Vec::new();
    let mut work_out = Outbox::new(&work_tx);
    let mut work_in = Inbox::new(&work_rx);
    let mut index_out = Outbox::new(&index_tx);
    loop {
        let step = Crawler::crawl_once(&mut work_out, &mut work_in, &mut index_out, &resource, 0).unwrap();
        steps.push(step);
        if step == CrawlStep::Finished {
            break;
        }
    }
    assert_eq!(
        steps,
        vec![
            CrawlStep::Crawled { dirs: 2, files: 1 },
            CrawlStep::Crawled { dirs: 0, files: 1 },
            CrawlStep::Crawled { dirs: 0, files: 0 },
            CrawlStep::Finished,
        ]
    );
    assert_eq!(index_rx.try_iter().collect::<Vec<_>>(), vec!["/f".to_string(), "/a/g".to_string()]);
}

#[test]
fn dispatch_of_an_empty_listing_succeeds_even_without_receivers() {
    let (work_tx, work_rx) = unbounded::<String>();
    let (index_tx, index_rx) = unbounded::<String>();
    drop(work_rx);
    drop(index_rx);
    let response = Response::DirFileResponse { dirs: vec![], files: vec![] };
    assert_eq!(
        Crawler::dispatch(response, &mut Outbox::new(&work_tx), &mut Outbox::new(&index_tx)),
        Ok(CrawlStep::Crawled { dirs: 0, files: 0 })
    );
}

#[test]
fn dispatch_stops_at_a_refused_directory_before_any_file() {
    let (work_tx, work_rx) = unbounded::<String>();
    let (index_tx, index_rx) = unbounded::<String>();
    drop(work_rx);
    let response = Response::DirFileResponse {
        dirs: vec!["/a".to_string()],
        files: vec!["/f".to_string()],
    };
    assert_eq!(Crawler::dispatch(response, &mut Outbox::new(&work_tx), &mut Outbox::new(&index_tx)), Err(CrawlError::Disconnected));
    assert_eq!(index_rx.try_iter().count(), 0);
}

#[test]
fn crawl_once_takes_one_directory_per_step() {
    let (work_tx, work_rx) = unbounded::<String>();
    let (index_tx, index_rx) = unbounded::<String>();
    let resource: Arc<Box<dyn Resource<String>>> = Arc::new(Box::new(Tree { root: Some("/".to_string()) }));
    work_tx.send("/b".to_string()).unwrap();
    work_tx.send("/a".to_string()).unwrap();
    let mut work_out = Outbox::new(&work_tx);
    let mut work_in = Inbox::new(&work_rx);
    let mut index_out = Outbox::new(&index_tx);
    assert_eq!(
        Crawler::crawl_once(&mut work_out, &mut work_in, &mut index_out, &resource, 0),
        Ok(CrawlStep::Crawled { dirs: 0, files: 0 })
    );
    assert_eq!(work_rx.len(), 1);
    assert_eq!(
        Crawler::crawl_once(&mut work_out, &mut work_in, &mut index_out, &resource, 0),
        Ok(CrawlStep::Crawled { dirs: 0, files: 1 })
    );
    assert_eq!(work_rx.len(), 0);
    assert_eq!(index_rx.try_iter().collect::<Vec<_>>(), vec!["/a/g".to_string()]);
}

#[test]
fn crawl_once_fails_on_a_refused_directory_and_sends_no_file() {
    let (work_tx, work_rx) = unbounded::<String>();
    let (index_tx, index_rx) = unbounded::<String>();
    let resource: Arc<Box<dyn Resource<String>>> = Arc::new(Box::new(Tree { root: Some("/".to_string()) }));
    work_tx.send("/".to_string()).unwrap();
    let (dead_tx, dead_rx) = unbounded::<String>();
    drop(dead_rx);
    let mut dead_out = Outbox::new(&dead_tx);
    let mut work_in = Inbox::new(&work_rx);
    let mut index_out = Outbox::new(&index_tx);
    assert_eq!(
        Crawler::crawl_once(&mut dead_out, &mut work_in, &mut index_out, &resource, 0),
        Err(CrawlError::Disconnected)
    );
    assert_eq!(index_rx.try_iter().count(), 0);
    drop(work_tx);
}

#[test]
fn seed_puts_exactly_one_root() {
    let c = Crawler::new(Box::new(Tree { root: Some("/".to_string()) }), Some(1), Some(1), "/x".to_string(), None);
    assert_eq!(c.seed(&mut Outbox::new(c.crawler_chan())), Ok(()));
    assert_eq!(c.processor_chan().try_iter().collect::<Vec<_>>(), vec!["/".to_string()]);
}
