//! The single-slot, newest-wins mailbox on its own.

use pixel_forge::frame::{Frame, Texture};
use pixel_forge::mailbox::FrameMailbox;

fn frame_with_seed(seed: u8) -> Frame {
    let data = vec![seed; 16];
    Frame::new(Texture { row_pitch: 8, data }, 2, 2)
}

#[test]
fn new_mailbox_is_empty() {
    let m = FrameMailbox::new();
    assert!(m.is_empty());
    assert!(m.peek().is_none());
}

#[test]
fn put_makes_the_frame_visible() {
    let mut m = FrameMailbox::new();
    m.put(frame_with_seed(1));
    assert!(!m.is_empty());
    let f = m.peek().expect("a frame is present");
    assert_eq!(f.materialize().expect("well formed"), vec![1u8; 16]);
}

#[test]
fn put_overwrites_unread_frames() {
    let mut m = FrameMailbox::new();
    m.put(frame_with_seed(1));
    m.put(frame_with_seed(2));
    let f = m.peek().expect("a frame is present");
    assert_eq!(f.materialize().expect("well formed"), vec![2u8; 16]);
}

#[test]
fn peek_does_not_consume() {
    let mut m = FrameMailbox::new();
    m.put(frame_with_seed(3));
    assert!(m.peek().is_some());
    assert!(m.peek().is_some());
    assert!(!m.is_empty());
}

#[test]
fn take_consumes_the_frame() {
    let mut m = FrameMailbox::new();
    m.put(frame_with_seed(4));
    let f = m.take().expect("a frame was present");
    assert_eq!(f.materialize().expect("well formed"), vec![4u8; 16]);
    assert!(m.is_empty());
    assert!(m.take().is_none());
}

#[test]
fn clear_empties_the_slot() {
    let mut m = FrameMailbox::new();
    m.put(frame_with_seed(5));
    m.clear();
    assert!(m.is_empty());
}
