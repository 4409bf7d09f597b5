use rp2040_kbd::ring_buffer::RingBuffer;

#[test]
fn can_push_pop() {
    let mut rb: RingBuffer<i32, 16> = RingBuffer::new();
    assert!(rb.try_pop().is_none());
    assert!(rb.try_push(0));
    assert_eq!(Some(0), rb.try_pop());
    assert!(rb.try_pop().is_none());
}

#[test]
fn can_wrap() {
    let mut rb: RingBuffer<i32, 8> = RingBuffer::new();
    assert!(rb.try_pop().is_none());
    for i in 0..256 {
        assert!(rb.try_push(i));
        assert_eq!(Some(i), rb.try_pop());
    }
    assert!(rb.try_pop().is_none());
}

#[test]
fn can_fill_drain() {
    let mut rb: RingBuffer<i32, 128> = RingBuffer::new();
    assert!(rb.try_pop().is_none());
    for i in 0..128 {
        assert!(rb.try_push(i));
    }
    for i in 0..128 {
        assert_eq!(Some(i), rb.try_pop());
    }
    assert!(rb.try_pop().is_none());
}

#[test]
fn ring_buffer_wrap_chunks() {
    let mut rb: RingBuffer<u8, 128> = RingBuffer::new();
    assert!(rb.try_pop().is_none());
    for i in 0..128 {
        for j in 0..i {
            rb.try_push(j);
        }
        for j in 0..i {
            let val = rb.try_pop();
            assert_eq!(Some(j), val);
        }
        assert!(rb.try_pop().is_none());
    }
}

#[test]
fn full_ring_refuses_push_and_clone_keeps_items() {
    let mut rb: RingBuffer<u8, 2> = RingBuffer::new();
    assert!(rb.try_push(1));
    assert!(rb.try_push(2));
    assert!(!rb.try_push(3));
    let mut copy = rb.clone();
    assert_eq!(copy.try_pop(), Some(1));
    assert_eq!(copy.try_pop(), Some(2));
    assert_eq!(rb.try_pop(), Some(1));
}
