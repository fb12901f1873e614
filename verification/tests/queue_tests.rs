use tock::queue::RingBuffer;

#[test]
fn fifo_order() {
    let mut q: RingBuffer<u32> = RingBuffer::new(3);
    assert!(!q.has_elements());
    assert!(q.enqueue(1));
    assert!(q.enqueue(2));
    assert_eq!(q.dequeue(), Some(1));
    assert!(q.enqueue(3));
    assert!(q.enqueue(4));
    assert!(q.is_full());
    assert_eq!(q.len(), 3);
    assert_eq!(q.dequeue(), Some(2));
    assert_eq!(q.dequeue(), Some(3));
    assert_eq!(q.dequeue(), Some(4));
    assert_eq!(q.dequeue(), None);
}

#[test]
fn full_queue_refuses() {
    let mut q: RingBuffer<u8> = RingBuffer::new(1);
    assert!(q.enqueue(9));
    assert!(!q.enqueue(10));
    assert_eq!(q.len(), 1);
    assert_eq!(q.dequeue(), Some(9));
    assert!(!q.has_elements());
}

#[test]
fn wraps_round_many_times() {
    let mut q: RingBuffer<usize> = RingBuffer::new(2);
    for i in 0..10 {
        assert!(q.enqueue(i));
        assert_eq!(q.dequeue(), Some(i));
    }
    assert_eq!(q.len(), 0);
}
