use jumpstarter::bridge::{DutQueue, DUT_QUEUE_CAPACITY};

#[test]
fn queue_keeps_order() {
    let mut q = DutQueue::new();
    assert_eq!(q.len(), 0);
    assert_eq!(q.send(b"abc"), 3);
    assert_eq!(q.len(), 3);
    assert_eq!(q.next(), Some(b'a'));
    assert_eq!(q.next(), Some(b'b'));
    assert_eq!(q.send(b"d"), 1);
    assert_eq!(q.next(), Some(b'c'));
    assert_eq!(q.next(), Some(b'd'));
    assert_eq!(q.next(), None);
}

#[test]
fn overflow_is_dropped() {
    let mut q = DutQueue::new();
    assert_eq!(q.room(), DUT_QUEUE_CAPACITY);
    let big: Vec<u8> = (0..1100u32).map(|i| (i % 251) as u8).collect();
    assert_eq!(q.send(&big), 1023);
    assert_eq!(q.room(), 0);
    assert_eq!(q.send(b"x"), 0);
    for i in 0..1023u32 {
        assert_eq!(q.next(), Some((i % 251) as u8));
    }
    assert_eq!(q.next(), None);
    assert_eq!(q.room(), 1023);
}
