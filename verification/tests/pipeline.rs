//! End-to-end scenarios for the capture controller: lifecycle, frame
//! delivery, resizes, and the stop handshake.

use pixel_forge::capture::{Capture, CaptureError};
use pixel_forge::capture_utils::CaptureTarget;
use pixel_forge::frame::{Size, Texture};
use pixel_forge::monitor::Monitor;
use pixel_forge::pool::ArrivalAction;
use pixel_forge::window::{Window, WindowProbe};

fn monitor_target() -> CaptureTarget {
    CaptureTarget::Monitor(Monitor::from_handle(7))
}

fn good_probe() -> WindowProbe {
    WindowProbe {
        visible: true,
        owning_process: 42,
        current_process: 1,
        client_rect_ok: true,
        styles: 0,
        ex_styles: 0,
    }
}

/// A packed texture (no row padding) of the given size, filled with a
/// repeating byte pattern derived from `seed`.
fn packed_texture(size: Size, seed: u8) -> Texture {
    let row_pitch = size.width * 4;
    let len = (size.height as usize) * (row_pitch as usize);
    let mut data = Vec::with_capacity(len);
    for i in 0..len {
        data.push((seed as usize).wrapping_add(i) as u8);
    }
    Texture { row_pitch, data }
}

/// Drive a controller into its running phase at the given content size.
fn running_capture(size: Size) -> Capture {
    let mut c = Capture::new();
    assert!(c.start(&monitor_target()).is_ok());
    assert!(c.active());
    c.on_session_started(size);
    c
}

/// The full cooperative stop: request, let the loop acknowledge, finish.
fn stop_cleanly(c: &mut Capture) {
    let _wake = c.stop();
    c.on_loop_exited();
    assert!(c.stop_wait_done());
    let joined = c.finish_stop(true);
    assert!(joined);
}

#[test]
fn frame_before_start_is_not_running() {
    let c = Capture::new();
    assert!(!c.active());
    assert_eq!(c.frame(), Err(CaptureError::NotRunning));
}

#[test]
fn frame_before_first_arrival_is_no_frame_available() {
    let c = running_capture(Size { width: 16, height: 8 });
    assert_eq!(c.frame(), Err(CaptureError::NoFrameAvailable));
}

#[test]
fn frame_after_stop_is_not_running() {
    let size = Size { width: 16, height: 8 };
    let mut c = running_capture(size);
    let action = c.on_frame_arrived(size, packed_texture(size, 1));
    assert_eq!(action, ArrivalAction::Deliver);
    stop_cleanly(&mut c);
    assert!(!c.active());
    assert_eq!(c.frame(), Err(CaptureError::NotRunning));
}

#[test]
fn newest_arrival_wins() {
    let size = Size { width: 4, height: 2 };
    let mut c = running_capture(size);
    let first = packed_texture(size, 10);
    let second = packed_texture(size, 200);
    assert_eq!(c.on_frame_arrived(size, first), ArrivalAction::Deliver);
    assert_eq!(c.on_frame_arrived(size, second.clone()), ArrivalAction::Deliver);
    let buffer = c.frame().expect("a frame was delivered");
    assert_eq!(buffer, second.data);
}

#[test]
fn every_arrival_is_observable_in_order() {
    let size = Size { width: 3, height: 3 };
    let mut c = running_capture(size);
    for seed in [5u8, 50, 150, 250] {
        let texture = packed_texture(size, seed);
        let expected = texture.data.clone();
        assert_eq!(c.on_frame_arrived(size, texture), ArrivalAction::Deliver);
        assert_eq!(c.frame().expect("delivered"), expected);
    }
}

#[test]
fn resize_event_is_silent_until_next_stable_event() {
    let old_size = Size { width: 8, height: 4 };
    let new_size = Size { width: 6, height: 10 };
    let mut c = running_capture(old_size);
    let old_texture = packed_texture(old_size, 3);
    let expected_old = old_texture.data.clone();
    assert_eq!(c.on_frame_arrived(old_size, old_texture), ArrivalAction::Deliver);

    // The resize event itself: pool recreation requested, no frame update.
    let action = c.on_frame_arrived(new_size, packed_texture(new_size, 77));
    assert_eq!(action, ArrivalAction::RecreatePool(new_size));
    assert_eq!(c.frame().expect("old frame still there"), expected_old);

    // The next stable-size event delivers at the new size.
    let new_texture = packed_texture(new_size, 99);
    let expected_new = new_texture.data.clone();
    assert_eq!(c.on_frame_arrived(new_size, new_texture), ArrivalAction::Deliver);
    assert_eq!(c.frame().expect("new frame"), expected_new);
}

#[test]
fn end_to_end_stable_then_resize_then_stop() {
    let first_size = Size { width: 800, height: 600 };
    let second_size = Size { width: 1024, height: 768 };
    let mut c = running_capture(first_size);

    // Five stable arrivals: a frame is available after the first, and the
    // shape is unchanged after the fifth.
    let mut last = Vec::new();
    for event in 0..5u8 {
        let texture = packed_texture(first_size, event);
        last = texture.data.clone();
        assert_eq!(c.on_frame_arrived(first_size, texture), ArrivalAction::Deliver);
        let buffer = c.frame().expect("stable arrival delivers");
        assert_eq!(buffer.len(), 800 * 600 * 4);
        assert_eq!(buffer, last);
    }

    // The sixth event reveals a resize: no visible update.
    let action = c.on_frame_arrived(second_size, packed_texture(second_size, 6));
    assert_eq!(action, ArrivalAction::RecreatePool(second_size));
    let buffer = c.frame().expect("previous frame still current");
    assert_eq!(buffer.len(), 800 * 600 * 4);
    assert_eq!(buffer, last);

    // The seventh event delivers at the new size.
    let texture = packed_texture(second_size, 7);
    let expected = texture.data.clone();
    assert_eq!(c.on_frame_arrived(second_size, texture), ArrivalAction::Deliver);
    let buffer = c.frame().expect("new size delivers");
    assert_eq!(buffer.len(), 1024 * 768 * 4);
    assert_eq!(buffer, expected);

    // Stopping clears the mailbox; a later call reports the capture gone.
    stop_cleanly(&mut c);
    assert_eq!(c.frame(), Err(CaptureError::NotRunning));
}

#[test]
fn target_closed_before_first_frame_unblocks_start() {
    let size = Size { width: 32, height: 32 };
    let mut c = running_capture(size);
    // No frame yet; the wait for the first frame would still be polling.
    assert!(!c.start_wait_done());

    // The target closes: the wait may end, the start call returns.
    let wake = c.on_target_closed();
    assert!(wake);
    assert!(c.start_wait_done());

    // Still active but no frame ever arrived.
    assert_eq!(c.frame(), Err(CaptureError::NoFrameAvailable));

    // Once the stop completes, the capture reports as gone.
    c.on_loop_exited();
    let _wake = c.stop();
    let joined = c.finish_stop(true);
    assert!(joined);
    assert_eq!(c.frame(), Err(CaptureError::NotRunning));
}

#[test]
fn arrival_after_stop_request_is_ignored() {
    let size = Size { width: 8, height: 8 };
    let mut c = running_capture(size);
    let kept = packed_texture(size, 1);
    let expected = kept.data.clone();
    assert_eq!(c.on_frame_arrived(size, kept), ArrivalAction::Deliver);

    let _wake = c.stop();
    // A late callback must not touch the mailbox or issue platform calls.
    let action = c.on_frame_arrived(size, packed_texture(size, 2));
    assert_eq!(action, ArrivalAction::Ignore);
    assert_eq!(c.frame().expect("unchanged"), expected);
}

#[test]
fn start_while_active_fails_fast() {
    let mut c = running_capture(Size { width: 4, height: 4 });
    assert_eq!(c.start(&monitor_target()), Err(CaptureError::AlreadyStarted));
    assert!(c.active());
}

#[test]
fn start_rejects_invalid_window_target() {
    let mut c = Capture::new();
    let mut probe = good_probe();
    probe.visible = false;
    let target = CaptureTarget::Window(Window::from_handle(11), probe);
    assert_eq!(c.start(&target), Err(CaptureError::InvalidCaptureTarget));
    assert!(!c.active());
}

#[test]
fn start_accepts_valid_window_target() {
    let mut c = Capture::new();
    let target = CaptureTarget::Window(Window::from_handle(11), good_probe());
    assert!(c.start(&target).is_ok());
    assert!(c.active());
}

#[test]
fn unresponsive_stop_still_releases_the_controller() {
    let size = Size { width: 4, height: 4 };
    let mut c = running_capture(size);
    assert_eq!(c.on_frame_arrived(size, packed_texture(size, 9)), ArrivalAction::Deliver);

    // The loop never acknowledges; the bounded wait gives up.
    let wake = c.stop();
    assert!(wake);
    assert!(!c.stop_wait_done());
    let joined = c.finish_stop(false);
    assert!(!joined);

    // The thread may be leaked, but the controller is released and clean.
    assert!(!c.active());
    assert_eq!(c.frame(), Err(CaptureError::NotRunning));
}

#[test]
fn restart_after_stop_works() {
    let size = Size { width: 4, height: 4 };
    let mut c = running_capture(size);
    stop_cleanly(&mut c);
    assert!(c.start(&monitor_target()).is_ok());
    c.on_session_started(size);
    let texture = packed_texture(size, 21);
    let expected = texture.data.clone();
    assert_eq!(c.on_frame_arrived(size, texture), ArrivalAction::Deliver);
    assert_eq!(c.frame().expect("delivered after restart"), expected);
}

#[test]
fn start_failure_leaves_no_running_state() {
    let mut c = Capture::new();
    assert!(c.start(&monitor_target()).is_ok());
    c.on_start_failed();
    // The thread returned at once and is joinable; no frame ever arrives.
    assert!(c.stop_wait_done());
    let _wake = c.stop();
    let joined = c.finish_stop(true);
    assert!(joined);
    assert_eq!(c.frame(), Err(CaptureError::NotRunning));
}
