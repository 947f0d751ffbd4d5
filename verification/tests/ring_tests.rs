use observability::RingBuffer;

#[test]
fn capacity_invariant_under_fill() {
    // len() == min(N, C) after N pushes into a buffer of capacity C.
    let mut b: RingBuffer<u64> = RingBuffer::new(5);
    for n in 1u64..=12 {
        b.push(n);
        let expected = if n <= 5 { n as usize } else { 5 };
        assert_eq!(b.len(), expected);
    }
    assert_eq!(b.capacity(), 5);
}

#[test]
fn fifo_eviction_drops_oldest() {
    // C + 1 distinct pushes leave elements 2..=C+1 in push order.
    let mut b: RingBuffer<u64> = RingBuffer::new(3);
    for n in 1u64..=4 {
        b.push(n);
    }
    assert_eq!(b.snapshot(), vec![2, 3, 4]);
}

#[test]
fn snapshots_without_write_are_equal() {
    let mut b: RingBuffer<u64> = RingBuffer::new(4);
    b.push(10);
    b.push(20);
    let s1 = b.snapshot();
    let s2 = b.snapshot();
    assert_eq!(s1, s2);
    assert_eq!(s1, vec![10, 20]);
}

#[test]
fn clear_then_push_like_fresh() {
    let mut b: RingBuffer<u64> = RingBuffer::new(2);
    b.push(1);
    b.push(2);
    b.push(3);
    b.clear();
    assert_eq!(b.len(), 0);
    assert_eq!(b.capacity(), 2);
    b.push(7);
    assert_eq!(b.len(), 1);
    assert_eq!(b.snapshot(), vec![7]);
}

#[test]
fn interleaved_pushers_fill_to_capacity() {
    // Concurrent pushes are serialized into one total order; simulate a
    // round-robin interleaving of 4 pushers with 30 distinct elements each
    // into a capacity-100 buffer: len() == min(4 * 30, 100), and every held
    // element is one of the pushed values, with no duplicates.
    let pushers: u64 = 4;
    let per_pusher: u64 = 30;
    let mut b: RingBuffer<u64> = RingBuffer::new(100);
    for round in 0..per_pusher {
        for p in 0..pushers {
            // Element (p, round) encoded so that all elements are distinct.
            b.push(p * 1000 + round);
        }
    }
    assert_eq!(b.len(), 100);
    let snap = b.snapshot();
    let mut seen = snap.clone();
    seen.sort_unstable();
    seen.dedup();
    assert_eq!(seen.len(), snap.len());
    for x in &snap {
        assert!(x % 1000 < per_pusher && x / 1000 < pushers);
    }
}

#[test]
fn filter_equals_snapshot_subsequence() {
    let mut b: RingBuffer<u64> = RingBuffer::new(10);
    for n in 1u64..=8 {
        b.push(n);
    }
    let even = b.filter(|x: &u64| x % 2 == 0);
    assert_eq!(even, vec![2, 4, 6, 8]);
    let expected: Vec<u64> = b.snapshot().into_iter().filter(|x| x % 2 == 0).collect();
    assert_eq!(even, expected);
}

#[test]
fn get_reads_oldest_first() {
    let mut b: RingBuffer<u64> = RingBuffer::new(3);
    b.push(5);
    b.push(6);
    assert_eq!(*b.get(0), 5);
    assert_eq!(*b.get(1), 6);
}
