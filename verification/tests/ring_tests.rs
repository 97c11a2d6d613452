use audio_engine::ring::ring_capacity_samples;
use audio_engine::RingBuffer;

#[test]
fn push_and_pop_are_fifo() {
    let mut rb: RingBuffer<i32> = RingBuffer::with_capacity(3, 0);
    assert_eq!(rb.len(), 0);
    assert!(rb.push(10));
    assert!(rb.push(20));
    assert!(rb.push(30));
    assert_eq!(rb.pop(), Some(10));
    assert_eq!(rb.pop(), Some(20));
    assert!(rb.push(40));
    assert!(rb.push(50));
    assert_eq!(rb.pop(), Some(30));
    assert_eq!(rb.pop(), Some(40));
    assert_eq!(rb.pop(), Some(50));
    assert_eq!(rb.pop(), None);
}

#[test]
fn full_buffer_drops_new_samples() {
    // The producer never blocks: a full buffer drops what is pushed.
    let mut rb: RingBuffer<u8> = RingBuffer::with_capacity(2, 0);
    assert!(rb.push(1));
    assert!(rb.push(2));
    assert!(!rb.push(3));
    assert_eq!(rb.len(), 2);
    assert_eq!(rb.pop(), Some(1));
    assert_eq!(rb.pop(), Some(2));
    assert_eq!(rb.pop(), None);
}

#[test]
fn underrun_pads_with_silence() {
    // The consumer never blocks: short reads are padded with silence.
    let mut rb: RingBuffer<i16> = RingBuffer::with_capacity(8, 0);
    rb.push(7);
    rb.push(-3);
    let out = rb.pop_chunk(5, 0);
    assert_eq!(out, vec![7, -3, 0, 0, 0]);
    assert_eq!(rb.len(), 0);
}

#[test]
fn chunk_of_available_data_drains_exactly() {
    let mut rb: RingBuffer<u32> = RingBuffer::with_capacity(4, 0);
    for s in 1..=4 {
        rb.push(s);
    }
    let out = rb.pop_chunk(2, 0);
    assert_eq!(out, vec![1, 2]);
    assert_eq!(rb.len(), 2);
    let out = rb.pop_chunk(2, 0);
    assert_eq!(out, vec![3, 4]);
    assert_eq!(rb.len(), 0);
    let out = rb.pop_chunk(3, 9);
    assert_eq!(out, vec![9, 9, 9]);
}

#[test]
fn wrap_around_keeps_order() {
    let mut rb: RingBuffer<usize> = RingBuffer::with_capacity(4, 0);
    for round in 0..10 {
        assert!(rb.push(round * 2));
        assert!(rb.push(round * 2 + 1));
        assert_eq!(rb.pop(), Some(round * 2));
        assert_eq!(rb.pop(), Some(round * 2 + 1));
    }
}

#[test]
fn capacity_is_two_seconds_of_interleaved_samples() {
    assert_eq!(ring_capacity_samples(44_100, 2), 176_400);
    assert_eq!(ring_capacity_samples(48_000, 1), 96_000);
    assert_eq!(ring_capacity_samples(1, 1), 2);
}
