use wolfssl_async::buffer::ByteQueue;

#[test]
fn fresh_queue_is_empty() {
    let q = ByteQueue::new();
    assert!(q.is_empty());
    assert_eq!(q.len(), 0);
    assert_eq!(q.peek_all(), Vec::<u8>::new());
}

#[test]
fn append_then_take_is_fifo() {
    let mut q = ByteQueue::new();
    q.append(&[1, 2, 3]);
    q.append(&[4, 5]);
    assert_eq!(q.len(), 5);
    assert_eq!(q.take_up_to(2), vec![1, 2]);
    assert_eq!(q.take_up_to(2), vec![3, 4]);
    assert_eq!(q.take_up_to(2), vec![5]);
    assert!(q.is_empty());
}

#[test]
fn take_up_to_caps_at_length() {
    let mut q = ByteQueue::new();
    q.append(&[7, 8, 9]);
    assert_eq!(q.take_up_to(100), vec![7, 8, 9]);
    assert!(q.is_empty());
    assert_eq!(q.take_up_to(4), Vec::<u8>::new());
}

#[test]
fn interleaved_append_and_take_never_reorders() {
    let mut q = ByteQueue::new();
    let mut out: Vec<u8> = Vec::new();
    q.append(&[0, 1, 2]);
    out.extend(q.take_up_to(2));
    q.append(&[3, 4]);
    out.extend(q.take_up_to(1));
    q.append(&[5]);
    out.extend(q.take_up_to(10));
    assert_eq!(out, vec![0, 1, 2, 3, 4, 5]);
}

#[test]
fn peek_does_not_consume() {
    let mut q = ByteQueue::new();
    q.append(&[10, 20, 30]);
    assert_eq!(q.peek_all(), vec![10, 20, 30]);
    assert_eq!(q.peek_all(), vec![10, 20, 30]);
    assert_eq!(q.len(), 3);
}

#[test]
fn consume_drops_head_bytes() {
    let mut q = ByteQueue::new();
    q.append(&[10, 20, 30, 40]);
    q.consume(3);
    assert_eq!(q.peek_all(), vec![40]);
    q.consume(0);
    assert_eq!(q.peek_all(), vec![40]);
    q.consume(1);
    assert!(q.is_empty());
}
