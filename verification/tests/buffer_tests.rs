use curupira::buffer::SharedBuffer;

#[test]
fn shared_buffer_keeps_only_recent_samples() {
    let mut buffer = SharedBuffer::new(2);

    for sample in 0..12 {
        buffer.push(sample as f32);
    }

    assert_eq!(buffer.snapshot(), vec![2.0, 3.0, 4.0, 5.0, 6.0, 7.0, 8.0, 9.0, 10.0, 11.0]);
}

#[test]
fn shared_buffer_keeps_everything_until_full() {
    let mut buffer = SharedBuffer::new(1);
    for sample in 0..5u8 {
        buffer.push(sample);
    }
    assert_eq!(buffer.snapshot(), vec![0, 1, 2, 3, 4]);
    buffer.push(5);
    assert_eq!(buffer.snapshot(), vec![1, 2, 3, 4, 5]);
}

#[test]
fn shared_buffer_starts_empty() {
    let buffer: SharedBuffer<i16> = SharedBuffer::new(48_000);
    assert!(buffer.snapshot().is_empty());
}

#[test]
fn shared_buffer_without_room_never_drops_samples() {
    let mut buffer = SharedBuffer::new(0);
    for sample in 0..4u8 {
        buffer.push(sample);
    }
    assert_eq!(buffer.snapshot(), vec![0, 1, 2, 3]);
}
