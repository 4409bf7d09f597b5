use rp2040_kbd::queue::Queue;

#[test]
fn push_to_cap() {
    let mut queue: Queue<u8, 128> = Queue::new();
    assert!(queue.pop_front().is_none());
    for i in 0..u8::MAX {
        queue.push_back(i);
        let val = queue.pop_front();
        assert_eq!(Some(i), val);
    }
    assert!(queue.pop_front().is_none());
}

#[test]
fn fill_clear() {
    let mut queue: Queue<u8, 128> = Queue::new();
    assert!(queue.pop_front().is_none());
    for i in 0..128 {
        queue.push_back(i);
    }
    for i in 0..128 {
        assert_eq!(Some(&i), queue.peek());
        assert_eq!(Some(i), queue.pop_front());
    }
    assert!(queue.pop_front().is_none());
    for i in 0..128 {
        queue.push_back(i);
    }
    for i in 0..128 {
        assert_eq!(Some(&i), queue.peek());
        assert_eq!(Some(i), queue.pop_front());
    }
    assert!(queue.pop_front().is_none());
}

#[test]
fn wrap() {
    let mut queue: Queue<u8, 128> = Queue::new();
    assert!(queue.peek().is_none());
    assert!(queue.pop_front().is_none());
    queue.push_back(1);
    queue.push_back(2);
    queue.push_back(3);
    assert_eq!(&1, queue.peek().unwrap());
    assert_eq!(1, queue.pop_front().unwrap());
    assert_eq!(&2, queue.peek().unwrap());
    assert_eq!(2, queue.pop_front().unwrap());
    assert_eq!(&3, queue.peek().unwrap());
    assert_eq!(3, queue.pop_front().unwrap());
    assert!(queue.pop_front().is_none());
    for i in 27..27 + 64 {
        queue.push_back(i);
        assert_eq!(Some(&i), queue.peek());
        assert_eq!(Some(i), queue.pop_front());
        assert!(queue.peek().is_none());
        assert!(queue.pop_front().is_none());
    }
    assert!(queue.peek().is_none());
    assert!(queue.pop_front().is_none());
}

#[test]
fn queue_wrap_chunks() {
    let mut queue: Queue<u8, 128> = Queue::new();
    assert!(queue.pop_front().is_none());
    for i in 0..128 {
        for j in 0..i {
            queue.push_back(j);
        }
        for j in 0..i {
            let val = queue.pop_front();
            assert_eq!(Some(j), val);
        }
        assert!(queue.pop_front().is_none());
    }
}

#[test]
fn full_queue_refuses_push() {
    let mut queue: Queue<u8, 4> = Queue::new();
    for i in 0..4 {
        assert!(queue.push_back(i));
    }
    assert!(!queue.push_back(9));
    assert_eq!(queue.pop_front(), Some(0));
}

#[test]
fn filling_the_ring_away_from_slot_zero_empties_it() {
    let mut queue: Queue<u8, 4> = Queue::new();
    assert!(queue.push_back(1));
    assert_eq!(queue.pop_front(), Some(1));
    for i in 0..3 {
        assert!(queue.push_back(i));
    }
    // The fourth item closes the ring on itself: the queue reads as empty.
    assert!(queue.push_back(3));
    assert!(queue.peek().is_none());
    assert!(queue.pop_front().is_none());
}
