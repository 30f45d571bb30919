//! The capture controller: lifecycle, frame access, and the stop handshake.
//!
//! A controller runs at most one capture session at a time. Starting a
//! session hands a dedicated platform thread the work of initializing the
//! capture subsystem and pumping its message loop; that thread reports back
//! purely through events (`on_session_started`, `on_frame_arrived`,
//! `on_target_closed`, `on_loop_exited`), which this module folds into the
//! controller's state. The consumer side reads frames out of the mailbox and
//! drives the cooperative shutdown: request the stop, wake the pumping
//! thread, wait a bounded time for it to acknowledge, then release it —
//! joined if it responded, abandoned if not, so the caller is never hung on a
//! target that vanished uncooperatively.
//!
//! Every transition is written twice: once as a specification step over
//! [`CaptureState`], and once as executable code proved to implement exactly
//! that step. The laws the pipeline obeys — newest-wins delivery, silent
//! resizes, the error a `frame` call owes in each state — are proved over the
//! specification steps.

use vstd::prelude::*;

verus! {

use crate::capture_utils::{CaptureTarget, target_acceptable};
use crate::direct_x::DirectXError;
use crate::frame::{cropped_bytes, Frame, FrameError, Size, Texture};
use crate::mailbox::FrameMailbox;
use crate::pool::{arrival_frame, ArrivalAction, FramePoolManager};
use crate::window::Window;

/// Errors surfaced by the capture controller.
#[derive(Clone, Copy, PartialEq, Eq, Structural, Debug)]
pub enum CaptureError {
    /// The mailbox holds no frame yet.
    NoFrameAvailable,
    /// No capture is active on this controller.
    NotRunning,
    /// A capture is already active on this controller; it must be stopped
    /// before another is started.
    AlreadyStarted,
    /// The requested target is not a capturable window.
    InvalidCaptureTarget,
    /// The current frame could not be materialized.
    FrameConversionError(FrameError),
    /// The graphics device could not be created as required.
    DirectXError(DirectXError),
    /// The capture thread failed before the session came up.
    CaptureThreadError,
    /// Any other platform error, carried as the platform's own code.
    WindowsError { code: i32 },
}

/// Where the controller stands in its lifecycle.
#[derive(Clone, Copy, PartialEq, Eq, Structural, Debug)]
pub enum Phase {
    /// No capture has been started.
    Idle,
    /// The capture thread is bringing the platform session up.
    Starting,
    /// The session is up and frames may arrive.
    Running,
    /// A stop has been requested; the message loop has yet to be released.
    Stopping,
    /// The session is over and the thread handle has been released.
    Stopped,
}

/// The controller's full abstract state: its view, and what all the
/// specification steps are written over.
pub struct CaptureState {
    /// Lifecycle position.
    pub phase: Phase,
    /// Whether the capture thread's handle is held (not yet joined or
    /// abandoned); exactly what `active` reports.
    pub thread_held: bool,
    /// Consumer-to-producer signal asking the message loop to exit.
    pub stop_requested: bool,
    /// Producer-to-consumer signal that the message loop has exited.
    pub producer_responsive: bool,
    /// Whether the pumping thread's identifier is on record, so a wake-up
    /// message can be injected into its queue.
    pub wake_capable: bool,
    /// The content size the frame pool was last created at.
    pub last_size: Size,
    /// The mailbox slot.
    pub slot: Option<Frame>,
}

impl CaptureState {
    /// What always holds of a controller between operations.
    pub open spec fn inv(self) -> bool {
        &&& (self.phase is Idle ==> !self.thread_held && self.slot is None
            && !self.stop_requested && !self.producer_responsive && !self.wake_capable)
        &&& (self.slot is Some ==> self.thread_held)
        &&& (self.producer_responsive ==> self.phase is Stopping || self.phase is Stopped)
        &&& (self.phase is Starting ==> self.thread_held)
        &&& (self.phase is Running ==> self.thread_held)
        &&& (self.phase is Stopping ==> self.stop_requested && self.thread_held)
        &&& (self.wake_capable ==> self.phase is Running || self.phase is Stopping)
    }

    /// Whether the capture thread is considered live enough for its events
    /// to be folded in: from session start until its handle is released.
    pub open spec fn session_phase(self) -> bool {
        self.phase is Starting || self.phase is Running || self.phase is Stopping
    }
}

/// A freshly constructed controller: idle, empty mailbox, no signals.
pub open spec fn initial_state() -> CaptureState {
    CaptureState {
        phase: Phase::Idle,
        thread_held: false,
        stop_requested: false,
        producer_responsive: false,
        wake_capable: false,
        last_size: Size { width: 0, height: 0 },
        slot: None,
    }
}

/// Starting a capture: the thread is spawned and both shutdown signals are
/// reset. The mailbox is untouched (it is empty here whenever the start is
/// accepted, because stops clear it).
pub open spec fn start_step(s: CaptureState) -> CaptureState {
    CaptureState {
        phase: Phase::Starting,
        thread_held: true,
        stop_requested: false,
        producer_responsive: false,
        wake_capable: false,
        ..s
    }
}

/// The platform session came up: frames may now arrive, the pool stands at
/// the target's current content size, and the pumping thread's identifier is
/// on record for wake-up messages.
pub open spec fn session_started_step(s: CaptureState, initial_size: Size) -> CaptureState {
    CaptureState { phase: Phase::Running, wake_capable: true, last_size: initial_size, ..s }
}

/// The capture thread failed before the session came up: no running state is
/// ever observed, and the thread (which returned at once) reports the loop
/// as exited.
pub open spec fn start_failed_step(s: CaptureState) -> CaptureState {
    CaptureState { phase: Phase::Stopped, producer_responsive: true, ..s }
}

/// One frame-arrived event. Outside a running, not-yet-stopping session it
/// changes nothing. A changed content size re-records the size and delivers
/// nothing. A stable size deposits the wrapped surface, overwriting any
/// unread frame.
pub open spec fn arrive_step(s: CaptureState, content_size: Size, texture: Texture) -> CaptureState {
    if !(s.phase is Running) || s.stop_requested {
        s
    } else if content_size != s.last_size {
        CaptureState { last_size: content_size, ..s }
    } else {
        CaptureState { slot: Some(arrival_frame(texture, content_size)), ..s }
    }
}

/// The action the platform loop owes after a frame-arrived event.
pub open spec fn arrive_action(s: CaptureState, content_size: Size) -> ArrivalAction {
    if !(s.phase is Running) || s.stop_requested {
        ArrivalAction::Ignore
    } else if content_size != s.last_size {
        ArrivalAction::RecreatePool(content_size)
    } else {
        ArrivalAction::Deliver
    }
}

/// The target vanished: request the stop. Resources are not torn down here —
/// that happens once, in order, during the controller's own teardown.
pub open spec fn closed_step(s: CaptureState) -> CaptureState {
    if s.session_phase() {
        CaptureState { phase: Phase::Stopping, stop_requested: true, ..s }
    } else {
        s
    }
}

/// The consumer requested the stop: signal the loop and give up the thread
/// identifier (the wake-up message is sent at most once).
pub open spec fn stop_request_step(s: CaptureState) -> CaptureState {
    if s.session_phase() {
        CaptureState { phase: Phase::Stopping, stop_requested: true, wake_capable: false, ..s }
    } else {
        CaptureState { wake_capable: false, ..s }
    }
}

/// The message loop exited and the capture thread finished its teardown.
pub open spec fn loop_exited_step(s: CaptureState) -> CaptureState {
    CaptureState { producer_responsive: true, ..s }
}

/// The stop completes: the thread handle is released (joined or abandoned),
/// and the mailbox is cleared so no stale frame survives the session.
pub open spec fn stop_finish_step(s: CaptureState) -> CaptureState {
    CaptureState {
        phase: if s.phase is Idle { Phase::Idle } else { Phase::Stopped },
        thread_held: false,
        wake_capable: false,
        slot: None,
        ..s
    }
}

/// What the consumer sees of a delivered frame: its bytes cropped to exactly
/// `height * width * 4`, or a conversion error if the frame is malformed.
pub open spec fn delivered_view(f: Frame) -> Result<Seq<u8>, CaptureError> {
    match f.materialize_result() {
        Ok(raw) => Ok(
            cropped_bytes(raw, f.height as int, f.width as int, f.texture.row_pitch as int),
        ),
        Err(e) => Err(CaptureError::FrameConversionError(e)),
    }
}

/// What a `frame` call returns in a given state: `NotRunning` without an
/// active capture, `NoFrameAvailable` on an empty mailbox, and otherwise the
/// current frame's delivered view.
pub open spec fn frame_result(s: CaptureState) -> Result<Seq<u8>, CaptureError> {
    if !s.thread_held {
        Err(CaptureError::NotRunning)
    } else {
        match s.slot {
            None => Err(CaptureError::NoFrameAvailable),
            Some(f) => delivered_view(f),
        }
    }
}

/// When the optional wait for a first frame may end: a frame is there, or
/// the stop flag is set (the target may have closed before any frame).
pub open spec fn start_wait_done(s: CaptureState) -> bool {
    s.slot is Some || s.stop_requested
}

/// The capture controller. It owns the capture thread's handle, the frame
/// pool manager and the frame mailbox; its view is the [`CaptureState`] all
/// contracts are written over.
pub struct Capture {
    phase: Phase,
    thread_held: bool,
    stop_requested: bool,
    producer_responsive: bool,
    wake_capable: bool,
    pool: FramePoolManager,
    mailbox: FrameMailbox,
}

impl View for Capture {
    type V = CaptureState;

    closed spec fn view(&self) -> CaptureState {
        CaptureState {
            phase: self.phase,
            thread_held: self.thread_held,
            stop_requested: self.stop_requested,
            producer_responsive: self.producer_responsive,
            wake_capable: self.wake_capable,
            last_size: self.pool@,
            slot: self.mailbox@,
        }
    }
}

impl Capture {
    /// An idle controller with an empty mailbox.
    pub fn new() -> (c: Capture)
        ensures
            c@ == initial_state(),
            c@.inv(),
    {
        Capture {
            phase: Phase::Idle,
            thread_held: false,
            stop_requested: false,
            producer_responsive: false,
            wake_capable: false,
            pool: FramePoolManager::new(Size { width: 0, height: 0 }),
            mailbox: FrameMailbox::new(),
        }
    }

    /// Start a capture of the given target.
    ///
    /// Fails fast with `AlreadyStarted` while a capture is active, and with
    /// `InvalidCaptureTarget` for a window target whose probe shows it is no
    /// longer capturable; in both cases nothing changes. Otherwise the
    /// capture thread is to be spawned, and the controller enters its
    /// starting phase with both shutdown signals reset.
    pub fn start(&mut self, target: &CaptureTarget) -> (r: Result<(), CaptureError>)
        requires
            old(self)@.inv(),
        ensures
            final(self)@.inv(),
            old(self)@.thread_held ==> {
                &&& r == Err::<(), CaptureError>(CaptureError::AlreadyStarted)
                &&& final(self)@ == old(self)@
            },
            !old(self)@.thread_held && !target_acceptable(*target) ==> {
                &&& r == Err::<(), CaptureError>(CaptureError::InvalidCaptureTarget)
                &&& final(self)@ == old(self)@
            },
            !old(self)@.thread_held && target_acceptable(*target) ==> {
                &&& r == Ok::<(), CaptureError>(())
                &&& final(self)@ == start_step(old(self)@)
            },
    {
        if self.thread_held {
            return Err(CaptureError::AlreadyStarted);
        }
        match target {
            CaptureTarget::Monitor(_) => {},
            CaptureTarget::Window(_, probe) => {
                if !Window::valid(probe) {
                    return Err(CaptureError::InvalidCaptureTarget);
                }
            },
        }
        self.phase = Phase::Starting;
        self.thread_held = true;
        self.stop_requested = false;
        self.producer_responsive = false;
        self.wake_capable = false;
        Ok(())
    }

    /// Fold in the capture thread's report that the platform session came
    /// up at the given content size.
    pub fn on_session_started(&mut self, initial_size: Size)
        requires
            old(self)@.inv(),
            old(self)@.phase is Starting,
        ensures
            final(self)@ == session_started_step(old(self)@, initial_size),
            final(self)@.inv(),
    {
        self.pool = FramePoolManager::new(initial_size);
        self.wake_capable = true;
        self.phase = Phase::Running;
    }

    /// Fold in the capture thread's report that platform initialization
    /// failed before the session came up.
    pub fn on_start_failed(&mut self)
        requires
            old(self)@.inv(),
            old(self)@.phase is Starting,
        ensures
            final(self)@ == start_failed_step(old(self)@),
            final(self)@.inv(),
    {
        self.phase = Phase::Stopped;
        self.producer_responsive = true;
    }

    /// Fold in one frame-arrived event, and return the action the platform
    /// loop owes for it.
    pub fn on_frame_arrived(&mut self, content_size: Size, texture: Texture) -> (action:
        ArrivalAction)
        requires
            old(self)@.inv(),
        ensures
            final(self)@ == arrive_step(old(self)@, content_size, texture),
            final(self)@.inv(),
            action == arrive_action(old(self)@, content_size),
    {
        if !(self.phase == Phase::Running) {
            return ArrivalAction::Ignore;
        }
        self.pool.on_frame_arrived(self.stop_requested, content_size, texture, &mut self.mailbox)
    }

    /// Fold in the platform's report that the capture target closed, and
    /// return whether a wake-up message must be injected so the loop can
    /// observe the stop.
    pub fn on_target_closed(&mut self) -> (wake: bool)
        requires
            old(self)@.inv(),
        ensures
            final(self)@ == closed_step(old(self)@),
            final(self)@.inv(),
            wake == (old(self)@.session_phase() && old(self)@.wake_capable),
    {
        if self.phase == Phase::Starting || self.phase == Phase::Running
            || self.phase == Phase::Stopping {
            self.phase = Phase::Stopping;
            self.stop_requested = true;
            self.wake_capable
        } else {
            false
        }
    }

    /// Fold in the capture thread's report that its message loop exited and
    /// its teardown finished.
    pub fn on_loop_exited(&mut self)
        requires
            old(self)@.inv(),
            old(self)@.phase is Stopping,
        ensures
            final(self)@ == loop_exited_step(old(self)@),
            final(self)@.inv(),
    {
        self.producer_responsive = true;
    }

    /// Whether the capture thread's handle is held — independent of whether
    /// that thread is still doing useful work.
    pub fn active(&self) -> (r: bool)
        ensures
            r == self@.thread_held,
    {
        self.thread_held
    }

    /// Where the controller stands in its lifecycle.
    pub fn phase(&self) -> (p: Phase)
        ensures
            p == self@.phase,
    {
        self.phase
    }

    /// Whether an optional wait for the first frame may end: a frame has
    /// arrived, or the stop flag was set before one did.
    pub fn start_wait_done(&self) -> (r: bool)
        ensures
            r == start_wait_done(self@),
    {
        !self.mailbox.is_empty() || self.stop_requested
    }

    /// Whether the capture thread has acknowledged the stop by exiting its
    /// message loop; the stop's bounded wait polls this.
    pub fn stop_wait_done(&self) -> (r: bool)
        ensures
            r == self@.producer_responsive,
    {
        self.producer_responsive
    }

    /// Materialize the current frame into an owned, tightly packed buffer of
    /// exactly `height * width * 4` bytes.
    ///
    /// Fails with `NotRunning` when no capture is active, and with
    /// `NoFrameAvailable` when none has been delivered; the frame itself
    /// stays in the mailbox.
    pub fn frame(&self) -> (r: Result<Vec<u8>, CaptureError>)
        ensures
            match r {
                Ok(b) => frame_result(self@) == Ok::<Seq<u8>, CaptureError>(b@),
                Err(e) => frame_result(self@) == Err::<Seq<u8>, CaptureError>(e),
            },
    {
        if !self.thread_held {
            return Err(CaptureError::NotRunning);
        }
        match self.mailbox.peek() {
            None => Err(CaptureError::NoFrameAvailable),
            Some(f) => match f.materialize() {
                Err(e) => Err(CaptureError::FrameConversionError(e)),
                Ok(raw) => Ok(
                    crate::frame::crop_frame_buffer(&raw, f.height, f.width,
                        f.texture.row_pitch),
                ),
            },
        }
    }

    /// Request the stop: set the flag the message loop checks, move to the
    /// stopping phase, and say whether a wake-up message must be posted to
    /// the pumping thread (its identifier is given up in the same breath, so
    /// the message is sent at most once).
    pub fn stop(&mut self) -> (wake: bool)
        requires
            old(self)@.inv(),
        ensures
            final(self)@ == stop_request_step(old(self)@),
            final(self)@.inv(),
            wake == old(self)@.wake_capable,
    {
        let wake = self.wake_capable;
        self.wake_capable = false;
        if self.phase == Phase::Starting || self.phase == Phase::Running
            || self.phase == Phase::Stopping {
            self.phase = Phase::Stopping;
            self.stop_requested = true;
        }
        wake
    }

    /// Complete the stop after the bounded wait: release the thread handle —
    /// `responsive` says whether the loop acknowledged within the timeout,
    /// in which case the thread was joined; otherwise it is abandoned rather
    /// than hanging the caller — and clear the mailbox.
    pub fn finish_stop(&mut self, responsive: bool) -> (joined: bool)
        requires
            old(self)@.inv(),
        ensures
            final(self)@ == stop_finish_step(old(self)@),
            final(self)@.inv(),
            joined == (responsive && old(self)@.thread_held),
    {
        let joined = responsive && self.thread_held;
        if !(self.phase == Phase::Idle) {
            self.phase = Phase::Stopped;
        }
        self.thread_held = false;
        self.wake_capable = false;
        self.mailbox.clear();
        joined
    }
}

} // verus!
