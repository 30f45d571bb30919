//! Capture targets and the pixel format of captured frames.

use vstd::prelude::*;

verus! {

use crate::monitor::Monitor;
use crate::window::{Window, WindowProbe, window_valid};

/// What a capture is aimed at: a whole monitor, or a single window together
/// with the validity facts probed when the window was resolved. A window
/// can vanish or stop being capturable at any time, so the probe records
/// what was observed at resolution.
#[derive(Clone, Copy, PartialEq, Eq, Structural, Debug)]
pub enum CaptureTarget {
    /// Capture a monitor; monitors are always accepted.
    Monitor(Monitor),
    /// Capture a window, carrying the probe taken when it was resolved.
    Window(Window, WindowProbe),
}

/// Whether a capture may be started on this target: monitors always, a
/// window only while its probe shows a valid top-level capturable window.
pub open spec fn target_acceptable(target: CaptureTarget) -> bool {
    match target {
        CaptureTarget::Monitor(_) => true,
        CaptureTarget::Window(_, probe) => window_valid(probe),
    }
}

/// The pixel format frames are captured in. The pipeline negotiates one
/// fixed format; the crop arithmetic depends on its four-byte pixels.
#[derive(Clone, Copy, PartialEq, Eq, Structural, Debug)]
pub enum ColorFormat {
    /// Four channels of eight bits each, in RGBA order.
    Rgba8,
}

impl ColorFormat {
    /// The platform's numeric code for this pixel format.
    pub fn dxgi_code(&self) -> (c: i32)
        ensures
            c == 28,
    {
        match self {
            ColorFormat::Rgba8 => 28,
        }
    }

    /// How many bytes one pixel of this format occupies.
    pub fn bytes_per_pixel(&self) -> (n: u32)
        ensures
            n == 4,
    {
        match self {
            ColorFormat::Rgba8 => 4,
        }
    }
}

impl Default for ColorFormat {
    /// The one format the pipeline captures in.
    fn default() -> (c: Self)
        ensures
            c == ColorFormat::Rgba8,
    {
        ColorFormat::Rgba8
    }
}

} // verus!
