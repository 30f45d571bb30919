//! The single-slot, newest-wins frame mailbox.
//!
//! The mailbox is the one piece of state shared between the capture thread
//! and the consumer. It holds at most one frame: a `put` overwrites whatever
//! was there, so the producer is never back-pressured and the consumer only
//! ever observes the most recent frame. Delivery is lossy by design — for a
//! live capture only the latest frame matters, so there is deliberately no
//! queue behind the slot.

use vstd::prelude::*;

verus! {

use crate::frame::Frame;

/// A mutually exclusive single slot holding at most one [`Frame`].
///
/// Its view is the slot's content. The embedding runtime guards the mailbox
/// with a lock when the producer and the consumer run on different threads;
/// no operation here blocks or waits.
pub struct FrameMailbox {
    slot: Option<Frame>,
}

impl View for FrameMailbox {
    type V = Option<Frame>;

    closed spec fn view(&self) -> Option<Frame> {
        self.slot
    }
}

impl FrameMailbox {
    /// An empty mailbox.
    pub fn new() -> (m: FrameMailbox)
        ensures
            m@ is None,
    {
        FrameMailbox { slot: None }
    }

    /// Deposit a frame, unconditionally discarding any unread one: the slot
    /// afterwards holds exactly the new frame.
    pub fn put(&mut self, frame: Frame)
        ensures
            final(self)@ == Some(frame),
    {
        self.slot = Some(frame);
    }

    /// Borrow the current frame without removing it.
    pub fn peek(&self) -> (r: Option<&Frame>)
        ensures
            match r {
                Some(f) => self@ == Some(*f),
                None => self@ is None,
            },
    {
        self.slot.as_ref()
    }

    /// Remove and return the current frame, leaving the slot empty.
    pub fn take(&mut self) -> (r: Option<Frame>)
        ensures
            r == old(self)@,
            final(self)@ is None,
    {
        self.slot.take()
    }

    /// Whether the slot currently holds no frame.
    pub fn is_empty(&self) -> (r: bool)
        ensures
            r == (self@ is None),
    {
        self.slot.is_none()
    }

    /// Empty the slot, discarding any unread frame.
    pub fn clear(&mut self)
        ensures
            final(self)@ is None,
    {
        self.slot = None;
    }
}

} // verus!
