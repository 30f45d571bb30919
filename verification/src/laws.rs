//! The laws the pipeline obeys, proved over the controller's specification
//! steps.
//!
//! Each law here is stated over [`CaptureState`] and the step functions that
//! every executable transition is proved to implement, so it holds of any
//! run of the executable controller as well.

use vstd::prelude::*;

verus! {

use crate::capture::{
    arrive_step, closed_step, delivered_view, frame_result, session_started_step, start_step,
    start_wait_done, stop_finish_step, CaptureError, CaptureState,
};
use crate::frame::{Frame, FrameError, Size, Texture};
use crate::pool::arrival_frame;

/// The state after a whole run of frame-arrived events at one content size.
pub open spec fn run_arrivals(s: CaptureState, content_size: Size, textures: Seq<Texture>)
    -> CaptureState
    decreases textures.len(),
{
    if textures.len() == 0 {
        s
    } else {
        run_arrivals(
            arrive_step(s, content_size, textures[0]),
            content_size,
            textures.drop_first(),
        )
    }
}

/// Newest wins: across any run of frame-arrived events at an unchanged
/// content size, the mailbox holds exactly the frame of the last event, and
/// a `frame` call after each event sees that event's buffer — never an older
/// one.
pub proof fn lemma_newest_wins(s: CaptureState, content_size: Size, textures: Seq<Texture>)
    requires
        s.phase is Running,
        !s.stop_requested,
        s.last_size == content_size,
        textures.len() > 0,
    ensures
        run_arrivals(s, content_size, textures).slot
            == Some(arrival_frame(textures.last(), content_size)),
        s.thread_held ==> frame_result(run_arrivals(s, content_size, textures))
            == delivered_view(arrival_frame(textures.last(), content_size)),
    decreases textures.len(),
{
    let s1 = arrive_step(s, content_size, textures[0]);
    assert(s1.slot == Some(arrival_frame(textures[0], content_size)));
    assert(run_arrivals(s, content_size, textures)
        == run_arrivals(s1, content_size, textures.drop_first()));
    if textures.len() == 1 {
        assert(textures.drop_first().len() == 0);
        assert(run_arrivals(s1, content_size, textures.drop_first()) == s1);
        assert(textures.last() == textures[0]);
    } else {
        lemma_newest_wins(s1, content_size, textures.drop_first());
        assert(textures.drop_first().last() == textures.last());
    }
}

/// A resize event is silent: an arrival whose content size differs from the
/// pool's never changes what the consumer sees, only re-records the size —
/// and the very next arrival at the new size delivers its frame.
pub proof fn lemma_resize_then_stable(
    s: CaptureState,
    new_size: Size,
    resized: Texture,
    stable: Texture,
)
    requires
        s.phase is Running,
        !s.stop_requested,
        new_size != s.last_size,
    ensures
        arrive_step(s, new_size, resized).slot == s.slot,
        frame_result(arrive_step(s, new_size, resized)) == frame_result(s),
        arrive_step(s, new_size, resized).last_size == new_size,
        arrive_step(arrive_step(s, new_size, resized), new_size, stable).slot
            == Some(arrival_frame(stable, new_size)),
{
}

/// Materialization is repeatable: materializing the same frame twice yields
/// identical byte buffers, because the result is a function of the frame
/// alone.
pub proof fn lemma_materialize_idempotent(f: Frame, first: Seq<u8>, second: Seq<u8>)
    requires
        f.materialize_result() == Ok::<Seq<u8>, FrameError>(first),
        f.materialize_result() == Ok::<Seq<u8>, FrameError>(second),
    ensures
        first == second,
{
}

/// The error a `frame` call owes in each state: `NotRunning` without an
/// active capture, whatever the mailbox holds; `NoFrameAvailable` on an
/// empty mailbox while one is active.
pub proof fn lemma_frame_errors_by_state(s: CaptureState)
    ensures
        !s.thread_held ==> frame_result(s) == Err::<Seq<u8>, CaptureError>(
            CaptureError::NotRunning,
        ),
        s.thread_held && s.slot is None ==> frame_result(s) == Err::<Seq<u8>, CaptureError>(
            CaptureError::NoFrameAvailable,
        ),
{
}

/// Before any frame has arrived, `frame` fails with `NoFrameAvailable`: the
/// mailbox is still empty right after a start and right after the session
/// comes up.
pub proof fn lemma_no_frame_before_first_arrival(s: CaptureState, initial_size: Size)
    requires
        s.inv(),
        !s.thread_held,
    ensures
        frame_result(start_step(s)) == Err::<Seq<u8>, CaptureError>(
            CaptureError::NoFrameAvailable,
        ),
        frame_result(session_started_step(start_step(s), initial_size))
            == Err::<Seq<u8>, CaptureError>(CaptureError::NoFrameAvailable),
{
}

/// After a completed stop, `frame` fails with `NotRunning`, whatever state
/// the stop found the controller in.
pub proof fn lemma_not_running_after_stop(s: CaptureState)
    ensures
        frame_result(stop_finish_step(s)) == Err::<Seq<u8>, CaptureError>(
            CaptureError::NotRunning,
        ),
{
}

/// A materialized buffer is exactly `height * width * 4` bytes: whenever a
/// `frame` call succeeds, the buffer has precisely that many bytes — no
/// padding or border bytes survive — and its contents are the cropped rows
/// of the frame's surface.
pub proof fn lemma_materialized_buffer_length(s: CaptureState, f: Frame, buffer: Seq<u8>)
    requires
        s.slot == Some(f),
        frame_result(s) == Ok::<Seq<u8>, CaptureError>(buffer),
    ensures
        buffer.len() == f.height * f.width * 4,
        buffer == crate::frame::cropped_bytes(
            f.texture.data@,
            f.height as int,
            f.width as int,
            f.texture.row_pitch as int,
        ),
{
    assert(f.height * (4 * f.width as int) == f.height * f.width * 4) by (nonlinear_arith);
}

/// A target that closes before any frame arrives unblocks the wait for the
/// first frame — a start that awaits one returns instead of hanging — and
/// produces no frame of its own, so a later `frame` call finds the mailbox
/// still empty while the capture is active.
pub proof fn lemma_target_closed_unblocks_start(s: CaptureState)
    requires
        s.inv(),
        s.session_phase(),
    ensures
        start_wait_done(closed_step(s)),
        closed_step(s).slot == s.slot,
        s.slot is None ==> frame_result(closed_step(s)) == Err::<Seq<u8>, CaptureError>(
            CaptureError::NoFrameAvailable,
        ),
{
}

} // verus!
