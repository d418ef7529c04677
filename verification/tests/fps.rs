use glass::fps::{FrameRing, FRAME_RING_LEN};

#[test]
fn span_needs_two_frames() {
    let mut ring = FrameRing::new(0u64);
    assert_eq!(ring.span(), None);
    ring.record_frame(10);
    assert_eq!(ring.span(), None);
    ring.record_frame(20);
    assert_eq!(ring.span(), Some((10, 20, 2)));
    ring.record_frame(35);
    assert_eq!(ring.span(), Some((10, 35, 3)));
    assert_eq!(ring.frame_count(), 3);
}

#[test]
fn span_covers_last_window_after_wrap() {
    let mut ring = FrameRing::new(0u64);
    for t in 1..=100u64 {
        ring.record_frame(t);
    }
    // The window holds the last 64 frames: 37..=100.
    assert_eq!(ring.span(), Some((37, 100, FRAME_RING_LEN)));
    assert_eq!(ring.frame_count(), 100);
}

#[test]
fn reset_forgets_recorded_frames() {
    let mut ring = FrameRing::new(0u64);
    for t in 1..=5u64 {
        ring.record_frame(t);
    }
    ring.reset();
    assert_eq!(ring.frame_count(), 0);
    assert_eq!(ring.span(), None);
    ring.record_frame(50);
    ring.record_frame(60);
    // Recording resumed at slot 5; the window's oldest slot is still slot 0.
    assert_eq!(ring.span(), Some((1, 60, 2)));
}
