//! The frame-pool manager: the decision taken on every frame-arrived event.
//!
//! The platform delivers frames through a pool of capture surfaces created at
//! a fixed size. When the capture target's content size changes, the pool
//! must be recreated at the new size rather than mutated; the event that
//! revealed the change yields no frame, and the first frame at the new size
//! arrives on the next callback. When the size is stable, the arrived surface
//! is wrapped into a [`Frame`] and deposited in the mailbox, overwriting any
//! unread predecessor. Once a stop has been requested, an arrival does
//! nothing at all, so a late callback can never race the teardown.

use vstd::prelude::*;

verus! {

use crate::frame::{Frame, Size, Texture};
use crate::mailbox::FrameMailbox;

/// What the platform loop must do after a frame-arrived event has been
/// decided.
#[derive(Clone, Copy, PartialEq, Eq, Structural, Debug)]
pub enum ArrivalAction {
    /// A stop is already requested: touch nothing, issue no platform call.
    Ignore,
    /// The content size changed: recreate the capture-surface pool at this
    /// size and skip the frame; nothing was delivered.
    RecreatePool(Size),
    /// The size was stable: a frame was deposited in the mailbox.
    Deliver,
}

/// The frame a stable-size arrival wraps: the delivered surface at the
/// observed content size.
pub open spec fn arrival_frame(texture: Texture, content_size: Size) -> Frame {
    Frame { width: content_size.width, height: content_size.height, texture }
}

/// Owns the capture-surface pool's bookkeeping: the last content size seen,
/// against which each arrival is compared.
pub struct FramePoolManager {
    last_size: Size,
}

impl View for FramePoolManager {
    type V = Size;

    closed spec fn view(&self) -> Size {
        self.last_size
    }
}

impl FramePoolManager {
    /// A manager for a pool just created at the target's current size.
    pub fn new(initial_size: Size) -> (m: FramePoolManager)
        ensures
            m@ == initial_size,
    {
        FramePoolManager { last_size: initial_size }
    }

    /// Decide one frame-arrived event.
    ///
    /// With a stop already requested the event is ignored outright. A changed
    /// content size is recorded and asks for the pool to be recreated, and
    /// deliberately yields no frame. A stable size wraps the surface into a
    /// frame and overwrites the mailbox slot with it.
    pub fn on_frame_arrived(
        &mut self,
        stop_requested: bool,
        content_size: Size,
        texture: Texture,
        mailbox: &mut FrameMailbox,
    ) -> (action: ArrivalAction)
        ensures
            stop_requested ==> {
                &&& action == ArrivalAction::Ignore
                &&& final(self)@ == old(self)@
                &&& final(mailbox)@ == old(mailbox)@
            },
            !stop_requested && content_size != old(self)@ ==> {
                &&& action == ArrivalAction::RecreatePool(content_size)
                &&& final(self)@ == content_size
                &&& final(mailbox)@ == old(mailbox)@
            },
            !stop_requested && content_size == old(self)@ ==> {
                &&& action == ArrivalAction::Deliver
                &&& final(self)@ == old(self)@
                &&& final(mailbox)@ == Some(arrival_frame(texture, content_size))
            },
    {
        if stop_requested {
            return ArrivalAction::Ignore;
        }
        if content_size != self.last_size {
            self.last_size = content_size;
            return ArrivalAction::RecreatePool(content_size);
        }
        let frame = Frame::new(texture, content_size.height, content_size.width);
        mailbox.put(frame);
        ArrivalAction::Deliver
    }
}

} // verus!
