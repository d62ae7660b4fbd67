use snake_matrix::rb::RbError;
use snake_matrix::rb::RingBuffer;

#[test]
fn new_buffer_is_empty() {
    let rb: RingBuffer<u32, 8> = RingBuffer::new();
    assert_eq!(rb.len(), 0);
    assert_eq!(rb.capacity(), 8);
}

#[test]
fn put_then_get_is_fifo() {
    let mut rb: RingBuffer<u32, 8> = RingBuffer::new();
    assert!(rb.put(1).is_ok());
    assert!(rb.put(2).is_ok());
    assert!(rb.put(3).is_ok());
    assert_eq!(rb.len(), 3);
    assert_eq!(rb.get(), Ok(1));
    assert_eq!(rb.get(), Ok(2));
    assert_eq!(rb.get(), Ok(3));
    assert_eq!(rb.len(), 0);
}

#[test]
fn get_from_empty_reports_is_empty() {
    let mut rb: RingBuffer<u32, 4> = RingBuffer::new();
    assert_eq!(rb.get(), Err(RbError::IsEmpty));
}

#[test]
fn put_into_full_reports_no_more_space() {
    let mut rb: RingBuffer<u32, 4> = RingBuffer::new();
    // One slot stays spare: capacity 4 holds 3 elements.
    assert!(rb.put(10).is_ok());
    assert!(rb.put(11).is_ok());
    assert!(rb.put(12).is_ok());
    assert_eq!(rb.put(13), Err(RbError::NoMoreSpace));
    assert_eq!(rb.len(), 3);
    assert_eq!(rb.get(), Ok(10));
}

#[test]
fn wraps_around_the_backing_store() {
    let mut rb: RingBuffer<u32, 4> = RingBuffer::new();
    for round in 0..10u32 {
        assert!(rb.put(round).is_ok());
        assert!(rb.put(round + 100).is_ok());
        assert_eq!(rb.get(), Ok(round));
        assert_eq!(rb.get(), Ok(round + 100));
    }
    assert_eq!(rb.len(), 0);
}

#[test]
fn peek_head_sees_the_newest_element() {
    let mut rb: RingBuffer<u32, 8> = RingBuffer::new();
    assert!(rb.put(5).is_ok());
    assert_eq!(rb.peek_head(), 5);
    assert!(rb.put(6).is_ok());
    assert_eq!(rb.peek_head(), 6);
    assert_eq!(rb.get(), Ok(5));
    assert_eq!(rb.peek_head(), 6);
}

#[test]
fn iter_walks_oldest_to_newest() {
    let mut rb: RingBuffer<u32, 4> = RingBuffer::new();
    // Force a wrapped layout first.
    assert!(rb.put(0).is_ok());
    assert!(rb.put(1).is_ok());
    assert_eq!(rb.get(), Ok(0));
    assert_eq!(rb.get(), Ok(1));
    assert!(rb.put(7).is_ok());
    assert!(rb.put(8).is_ok());
    assert!(rb.put(9).is_ok());
    let mut it = rb.iter();
    assert_eq!(it.next(), Some(7));
    assert_eq!(it.next(), Some(8));
    assert_eq!(it.next(), Some(9));
    assert_eq!(it.next(), None);
    // Iteration does not drain.
    assert_eq!(rb.len(), 3);
}
