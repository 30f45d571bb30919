//! Captured frames and their materialization into CPU byte buffers.
//!
//! A [`Frame`] is an immutable handle to one captured image: a content size
//! plus the surface the capture delivered it on. Surfaces come with a row
//! pitch — the stride, in bytes, between the starts of consecutive pixel
//! rows — which may exceed the packed width of the content. Materialization
//! therefore has two steps: copying the raw `height * row_pitch` bytes out of
//! the surface, and cropping each row down to its first `width * 4` bytes so
//! that no padding bytes survive in the buffer handed to the consumer.

use vstd::prelude::*;

verus! {

use vstd::arithmetic::div_mod::{
    lemma_fundamental_div_mod_converse_div,
    lemma_fundamental_div_mod_converse_mod,
};
use vstd::arithmetic::mul::lemma_mul_inequality;

/// Errors raised while turning a captured surface into a byte buffer.
#[derive(Clone, Copy, PartialEq, Eq, Structural, Debug)]
pub enum FrameError {
    /// The surface's dimensions and pitch are inconsistent, so no buffer of
    /// the declared shape can be produced from it.
    FrameConversionFailed,
    /// The platform reported an error while staging, copying or mapping the
    /// surface; the code is the platform's own.
    FrameConversionWindowsError { code: i32 },
}

/// A content size in pixels, as observed on a captured frame.
#[derive(Clone, Copy, PartialEq, Eq, Structural, Debug)]
pub struct Size {
    pub width: u32,
    pub height: u32,
}

/// The CPU-visible form of one capture surface: the bytes a mapping of the
/// surface exposes, laid out row-major with `row_pitch` bytes per row. The
/// pitch may exceed the packed row width; the bytes past the content are
/// padding and must never reach the consumer.
#[derive(Clone, Debug)]
pub struct Texture {
    /// Stride in bytes between the starts of consecutive rows.
    pub row_pitch: u32,
    /// The mapped bytes, `row_pitch` bytes for each allocated row.
    pub data: Vec<u8>,
}

/// An immutable handle to one captured image. `width` and `height` are the
/// content size at the time of capture, which may be smaller than the
/// surface's allocated size; materialization crops to them.
#[derive(Clone, Debug)]
pub struct Frame {
    pub width: u32,
    pub height: u32,
    pub texture: Texture,
}

impl Frame {
    /// A frame is well formed when its surface really holds `height` rows of
    /// `row_pitch` bytes, each wide enough for `width` packed pixels of four
    /// bytes, with the pitch itself a whole number of pixels.
    pub open spec fn wf(self) -> bool {
        &&& self.texture.row_pitch % 4 == 0
        &&& 4 * self.width <= self.texture.row_pitch
        &&& self.texture.data@.len() == self.height * self.texture.row_pitch
    }

    /// What materializing this frame yields: the raw mapped bytes for a well
    /// formed frame, and a conversion failure otherwise. Materialization is a
    /// function of the frame alone, which is what makes it repeatable.
    pub open spec fn materialize_result(self) -> Result<Seq<u8>, FrameError> {
        if self.wf() {
            Ok(self.texture.data@)
        } else {
            Err(FrameError::FrameConversionFailed)
        }
    }

    /// Wrap a delivered surface and its content size into a frame.
    pub fn new(texture: Texture, height: u32, width: u32) -> (f: Frame)
        ensures
            f == (Frame { width, height, texture }),
    {
        Frame { width, height, texture }
    }

    /// Copy the frame's surface out into a CPU byte buffer: exactly
    /// `height * row_pitch` bytes, still carrying any row padding. Fails
    /// exactly when the surface cannot hold an image of the declared shape.
    pub fn materialize(&self) -> (r: Result<Vec<u8>, FrameError>)
        ensures
            match r {
                Ok(b) => self.materialize_result() == Ok::<Seq<u8>, FrameError>(b@),
                Err(e) => self.materialize_result() == Err::<Seq<u8>, FrameError>(e),
            },
    {
        let pitch = self.texture.row_pitch;
        if pitch % 4 != 0 {
            return Err(FrameError::FrameConversionFailed);
        }
        if (pitch as u64) < 4 * (self.width as u64) {
            return Err(FrameError::FrameConversionFailed);
        }
        proof {
            assert((self.height as int) * (pitch as int) < 0x1_0000_0000_0000_0000)
                by (nonlinear_arith)
                requires self.height <= 0xffff_ffffu32, pitch <= 0xffff_ffffu32;
        }
        if (self.texture.data.len() as u64) != (self.height as u64) * (pitch as u64) {
            return Err(FrameError::FrameConversionFailed);
        }
        let mut out: Vec<u8> = Vec::new();
        let mut i: usize = 0;
        let n = self.texture.data.len();
        while i < n
            invariant
                i <= n,
                n == self.texture.data@.len(),
                out@ == self.texture.data@.take(i as int),
            decreases n - i,
        {
            out.push(self.texture.data[i]);
            assert(out@ == self.texture.data@.take(i + 1 as int));
            i = i + 1;
        }
        assert(out@ == self.texture.data@);
        Ok(out)
    }
}

/// The packed image a padded raw buffer describes: for each of the `height`
/// rows, the first `width * 4` bytes of that row's `row_pitch`-byte stretch,
/// all padding discarded.
pub open spec fn cropped_bytes(raw: Seq<u8>, height: int, width: int, row_pitch: int) -> Seq<u8> {
    Seq::new(
        (height * (4 * width)) as nat,
        |k: int| raw[(k / (4 * width)) * row_pitch + k % (4 * width)],
    )
}

/// Crop a raw materialized buffer to the packed content image.
///
/// `raw` holds `height` rows of `row_pitch` bytes each; the result keeps, row
/// by row, only the `width * 4` content bytes, so its length is exactly
/// `height * width * 4` and no border or padding byte survives.
pub fn crop_frame_buffer(raw: &Vec<u8>, height: u32, width: u32, row_pitch: u32) -> (out: Vec<u8>)
    requires
        4 * width <= row_pitch,
        raw@.len() == height * row_pitch,
    ensures
        out@ == cropped_bytes(raw@, height as int, width as int, row_pitch as int),
        out@.len() == height * width * 4,
{
    proof {
        lemma_mul_inequality(4 * width as int, row_pitch as int, height as int);
    }
    let row_bytes: usize = 4 * (width as usize);
    let pitch: usize = row_pitch as usize;
    let rows: usize = height as usize;
    let total: usize = raw.len();
    let ghost target = cropped_bytes(raw@, height as int, width as int, row_pitch as int);
    assert(target.len() == height * (4 * width));
    let mut out: Vec<u8> = Vec::new();
    let mut row: usize = 0;
    while row < rows
        invariant
            row <= rows,
            rows == height,
            row_bytes == 4 * width,
            pitch == row_pitch,
            total == raw@.len(),
            4 * width <= row_pitch,
            raw@.len() == height * row_pitch,
            target == cropped_bytes(raw@, height as int, width as int, row_pitch as int),
            target.len() == height * (4 * width),
            out@.len() == row * row_bytes,
            forall|k: int| 0 <= k < out@.len() ==> out@[k] == target[k],
        decreases rows - row,
    {
        proof {
            lemma_mul_inequality(row as int, height as int, row_pitch as int);
            lemma_mul_inequality(row + 1, height as int, row_pitch as int);
        }
        let base: usize = row * pitch;
        let mut off: usize = 0;
        while off < row_bytes
            invariant
                off <= row_bytes,
                row < rows,
                rows == height,
                row_bytes == 4 * width,
                pitch == row_pitch,
                total == raw@.len(),
                base == row * row_pitch,
                4 * width <= row_pitch,
                raw@.len() == height * row_pitch,
                (row + 1) * (row_pitch as int) <= height * row_pitch,
                target == cropped_bytes(raw@, height as int, width as int, row_pitch as int),
                target.len() == height * (4 * width),
                out@.len() == row * row_bytes + off,
                forall|k: int| 0 <= k < out@.len() ==> out@[k] == target[k],
            decreases row_bytes - off,
        {
            proof {
                assert(base + off < (row + 1) * (row_pitch as int)) by {
                    assert((row + 1) * (row_pitch as int) == row * (row_pitch as int)
                        + row_pitch as int) by (nonlinear_arith);
                }
                let k = row * (row_bytes as int) + off;
                assert(k + (row_bytes - off) <= height * (4 * width as int)) by {
                    lemma_mul_inequality(row + 1, height as int, 4 * width as int);
                    assert((row + 1) * (4 * width as int) == row * (4 * width as int)
                        + 4 * width as int) by (nonlinear_arith);
                }
                assert(k / (4 * width as int) == row as int
                    && k % (4 * width as int) == off as int) by {
                    lemma_fundamental_div_mod_converse_div(
                        k, 4 * width as int, row as int, off as int);
                    lemma_fundamental_div_mod_converse_mod(
                        k, 4 * width as int, row as int, off as int);
                }
                assert(target[k] == raw@[base + off]);
            }
            out.push(raw[base + off]);
            off = off + 1;
        }
        row = row + 1;
        proof {
            assert(row * (row_bytes as int) == (row - 1) * (row_bytes as int)
                + row_bytes as int) by (nonlinear_arith);
        }
    }
    proof {
        assert(out@.len() == target.len());
        assert(out@ =~= target);
        assert(height * (4 * width as int) == height * width * 4) by (nonlinear_arith);
    }
    out
}

} // verus!
