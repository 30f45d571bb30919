//! Windows as capture targets.
//!
//! A window is known to the pipeline by its platform handle. Whether it is a
//! sensible capture target depends on facts only the platform can report —
//! visibility, owning process, client area, style bits. Those facts are
//! gathered into a [`WindowProbe`], and the acceptance decision over them is
//! made here. The pipeline also owns the text clean-up applied to window and
//! device names, which the platform hands over as NUL-padded UTF-16 buffers.

use vstd::prelude::*;

verus! {

/// Style bit marking a child window; child windows are not capturable
/// top-level targets.
pub const WS_CHILD: isize = 0x4000_0000;

/// Extended style bit marking a tool window; tool windows are excluded from
/// capture.
pub const WS_EX_TOOLWINDOW: isize = 0x80;

/// Errors raised while resolving or querying a window.
#[derive(Clone, Copy, PartialEq, Eq, Structural, Debug)]
pub enum WindowError {
    /// No window currently has the foreground.
    NoActiveWindow,
    /// No window with the requested title exists.
    NotFound,
    /// A platform string was not valid UTF-16.
    FailedToConvertWindowsString,
    /// Any other platform error, carried as the platform's own code.
    WindowsError { code: i32 },
}

/// A window eligible for capture, identified by its platform handle.
#[derive(Clone, Copy, PartialEq, Eq, Structural, Debug)]
pub struct Window {
    window_handle: isize,
}

/// The facts about a window that decide whether it is a valid capture
/// target, as observed by the platform at one moment.
#[derive(Clone, Copy, PartialEq, Eq, Structural, Debug)]
pub struct WindowProbe {
    /// Whether the window is visible.
    pub visible: bool,
    /// The identifier of the process owning the window.
    pub owning_process: u32,
    /// The identifier of the process doing the capturing.
    pub current_process: u32,
    /// Whether the window's client rectangle could be read.
    pub client_rect_ok: bool,
    /// The window's style bits.
    pub styles: isize,
    /// The window's extended style bits.
    pub ex_styles: isize,
}

/// A window is a valid capture target when it is visible, belongs to some
/// other process, has a readable client area, and is neither a tool window
/// nor a child window.
pub open spec fn window_valid(p: WindowProbe) -> bool {
    &&& p.visible
    &&& p.owning_process != p.current_process
    &&& p.client_rect_ok
    &&& p.ex_styles & WS_EX_TOOLWINDOW == 0
    &&& p.styles & WS_CHILD == 0
}

impl View for Window {
    type V = isize;

    closed spec fn view(&self) -> isize {
        self.window_handle
    }
}

impl Window {
    /// Wrap a raw platform window handle.
    pub fn from_handle(window_handle: isize) -> (w: Window)
        ensures
            w@ == window_handle,
    {
        Window { window_handle }
    }

    /// The raw platform handle of the window.
    pub fn as_handle(&self) -> (h: isize)
        ensures
            h == self@,
    {
        self.window_handle
    }

    /// Decide whether a window is a valid capture target, from the facts a
    /// probe of it reported.
    pub fn valid(probe: &WindowProbe) -> (r: bool)
        ensures
            r == window_valid(*probe),
    {
        if !probe.visible {
            return false;
        }
        if probe.owning_process == probe.current_process {
            return false;
        }
        if !probe.client_rect_ok {
            return false;
        }
        if probe.ex_styles & WS_EX_TOOLWINDOW != 0 {
            return false;
        }
        if probe.styles & WS_CHILD != 0 {
            return false;
        }
        true
    }
}

/// The index of the first NUL unit in a buffer, or its length if none
/// occurs: how much of a NUL-padded platform string is actual text.
pub open spec fn first_nul(s: Seq<u16>) -> int
    decreases s.len(),
{
    if s.len() == 0 {
        0
    } else if s[0] == 0 {
        0
    } else {
        1 + first_nul(s.drop_first())
    }
}

/// Bridge from a scan that saw no NUL before position `i`, and a NUL (or the
/// end) at `i`, to `first_nul` itself.
proof fn lemma_first_nul_at(s: Seq<u16>, i: int)
    requires
        0 <= i <= s.len(),
        forall|j: int| 0 <= j < i ==> s[j] != 0,
        i == s.len() || s[i] == 0,
    ensures
        first_nul(s) == i,
    decreases i,
{
    if i == 0 {
    } else {
        lemma_first_nul_at(s.drop_first(), i - 1);
    }
}

/// Keep the text of a NUL-padded UTF-16 buffer: everything before the first
/// NUL unit, which is where platform strings end.
pub fn utf16_before_nul(units: &Vec<u16>) -> (r: Vec<u16>)
    ensures
        r@ == units@.take(first_nul(units@)),
        first_nul(units@) == r@.len(),
{
    let mut out: Vec<u16> = Vec::new();
    let n = units.len();
    let mut i: usize = 0;
    while i < n && units[i] != 0
        invariant
            i <= n,
            n == units@.len(),
            out@ == units@.take(i as int),
            forall|j: int| 0 <= j < i ==> units@[j] != 0,
        decreases n - i,
    {
        out.push(units[i]);
        assert(out@ == units@.take(i + 1 as int));
        i = i + 1;
    }
    proof {
        lemma_first_nul_at(units@, i as int);
    }
    out
}

} // verus!
