use crossbeam::channel::unbounded;
use finde_rs::haslen::HasLen;

struct Fixed(usize);

impl HasLen for Fixed {
    fn len(&self) -> usize {
        self.0
    }
}

#[test]
fn is_empty_follows_len() {
    assert!(Fixed(0).is_empty());
    assert!(!Fixed(3).is_empty());
}

#[test]
fn receiver_len_counts_waiting_messages() {
    let (s, r) = unbounded::<u8>();
    assert_eq!(HasLen::len(&r), 0);
    assert!(HasLen::is_empty(&r));
    s.send(1).unwrap();
    s.send(2).unwrap();
    assert_eq!(HasLen::len(&r), 2);
    assert!(!HasLen::is_empty(&r));
}
