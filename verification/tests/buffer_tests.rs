use stt_core::buffer::SampleBuffer;

#[test]
fn samples_come_out_in_capture_order() {
    let mut b = SampleBuffer::new(8);
    assert!(b.produce(1));
    assert!(b.produce(2));
    assert!(b.produce(3));
    assert_eq!(b.len(), 3);
    let drained = b.drain_up_to(2);
    assert_eq!(drained, vec![1, 2]);
    let rest = b.drain_up_to(10);
    assert_eq!(rest, vec![3]);
    assert_eq!(b.len(), 0);
}

#[test]
fn overflow_drops_the_newest_sample() {
    let mut b = SampleBuffer::new(2);
    assert!(b.produce(10));
    assert!(b.produce(20));
    assert!(!b.produce(30));
    assert_eq!(b.len(), 2);
    assert_eq!(b.drain_up_to(4), vec![10, 20]);
}

#[test]
fn draining_makes_room_again() {
    let mut b = SampleBuffer::new(2);
    assert!(b.produce(1));
    assert!(b.produce(2));
    assert!(!b.produce(3));
    assert_eq!(b.drain_up_to(1), vec![1]);
    assert!(b.produce(4));
    assert_eq!(b.drain_up_to(2), vec![2, 4]);
}

#[test]
fn draining_an_empty_buffer_returns_nothing() {
    let mut b = SampleBuffer::new(4);
    assert!(b.drain_up_to(4).is_empty());
    assert_eq!(b.capacity(), 4);
}
