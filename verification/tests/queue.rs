use tone_pipeline::stream::{
    format_is_implemented, SampleFormat, SampleQueue, StereoSample, MAX_QUEUE_CAPACITY,
    REASONABLE_BUFFER_SIZE,
};

#[test]
fn force_push_evicts_oldest() {
    // Ten force-pushes into a queue of capacity four: the queue ends exactly
    // full, holding the last four pushed values in push order.
    let mut q = SampleQueue::new(4);
    for a in 1u32..=10 {
        q.push_or_evict(StereoSample::from_mono(a));
    }
    assert_eq!(q.len(), 4);
    assert_eq!(q.capacity(), 4);
    for expected in 7u32..=10 {
        let s = q.pop();
        assert_eq!(s, StereoSample::from_mono(expected));
    }
    assert_eq!(q.len(), 0);
}

#[test]
fn force_push_below_capacity_keeps_everything() {
    let mut q = SampleQueue::new(8);
    for a in 1u32..=3 {
        q.push_or_evict(StereoSample::from_mono(a));
    }
    assert_eq!(q.len(), 3);
    for expected in 1u32..=3 {
        assert_eq!(q.pop(), StereoSample::from_mono(expected));
    }
}

#[test]
fn pop_from_empty_yields_silence_every_time() {
    let mut q = SampleQueue::new(16);
    for _ in 0..5 {
        let s = q.pop();
        assert_eq!(s, StereoSample::default());
        assert_eq!(s.left, 0);
        assert_eq!(s.right, 0);
        assert_eq!(q.len(), 0);
    }
}

#[test]
fn pack_roundtrips_distinct_channels() {
    let s = StereoSample { left: 0xDEAD_BEEF, right: 0x0102_0304 };
    let bits = s.pack();
    assert_eq!(StereoSample::unpack(bits), s);
    assert_eq!(StereoSample::new_silence().pack(), 0);
}

#[test]
fn queue_carries_amplitude_bit_patterns() {
    // The queue holds IEEE-754 bit patterns; a pushed amplitude comes back
    // bit-exact, and silence decodes to amplitude zero.
    let mut q = SampleQueue::new(2);
    q.push_or_evict(StereoSample::from_mono(0.5f32.to_bits()));
    let s = q.pop();
    assert_eq!(f32::from_bits(s.left), 0.5);
    assert_eq!(f32::from_bits(s.right), 0.5);
    let silent = q.pop();
    assert_eq!(f32::from_bits(silent.left), 0.0);
}

#[test]
fn drain_serves_queued_frames_then_silence() {
    let mut q = SampleQueue::new(8);
    for a in 10u32..13 {
        q.push_or_evict(StereoSample::from_mono(a));
    }
    let out = q.drain(5);
    assert_eq!(out.len(), 5);
    assert_eq!(out[0], StereoSample::from_mono(10));
    assert_eq!(out[1], StereoSample::from_mono(11));
    assert_eq!(out[2], StereoSample::from_mono(12));
    assert_eq!(out[3], StereoSample::default());
    assert_eq!(out[4], StereoSample::default());
    assert_eq!(q.len(), 0);
}

#[test]
fn drain_leaves_surplus_frames_queued() {
    let mut q = SampleQueue::new(8);
    for a in 1u32..=6 {
        q.push_or_evict(StereoSample::from_mono(a));
    }
    let out = q.drain(4);
    assert_eq!(out.len(), 4);
    assert_eq!(out[3], StereoSample::from_mono(4));
    assert_eq!(q.len(), 2);
    assert_eq!(q.pop(), StereoSample::from_mono(5));
}

#[test]
fn only_thirty_two_bit_float_format_is_implemented() {
    assert!(format_is_implemented(SampleFormat::Float32));
    assert!(!format_is_implemented(SampleFormat::Float64));
    assert!(!format_is_implemented(SampleFormat::SignedInt16));
    assert!(!format_is_implemented(SampleFormat::UnsignedInt8));
}

#[test]
fn capacity_constants_are_usable() {
    assert!(REASONABLE_BUFFER_SIZE <= MAX_QUEUE_CAPACITY);
    let q = SampleQueue::new(REASONABLE_BUFFER_SIZE);
    assert_eq!(q.capacity(), 2048);
}
