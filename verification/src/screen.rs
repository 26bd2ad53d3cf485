//! Display frames: the retry decision of a capture, and the conversion of a
//! padded B,G,R,X frame into the canonical image.

use crate::buffer::{color_at, Color, PixelBuffer, PixelGrid};
use vstd::arithmetic::div_mod::lemma_fundamental_div_mod_converse;
use vstd::prelude::*;

verus! {

/// Why a capture was given up.
#[derive(Clone, Copy, Debug, PartialEq, Eq, Structural)]
pub enum CaptureFatal {
    /// The display reported a failure other than "no frame yet".
    DeviceFailed,
    /// The frame has no rows, or its rows are shorter than `width * 4` bytes.
    MalformedFrame,
}

/// The wait between two attempts to get a frame: one sixtieth of a second,
/// in whole nanoseconds.
pub const FRAME_INTERVAL_NANOS: u64 = 16_666_666;

/// Bytes from the start of one row to the start of the next.
pub open spec fn frame_stride(len: nat, height: nat) -> int {
    len as int / height as int
}

/// A frame of `len` bytes holds `height` rows of at least `width` pixels.
pub open spec fn frame_fits(width: nat, height: nat, len: nat) -> bool {
    height > 0 && frame_stride(len, height) >= 4 * width
}

/// The colour of the frame's pixel in column `x` of row `y`: its bytes are
/// blue, green, red and one that is dropped; the result is opaque.
pub open spec fn frame_pixel(frame: Seq<u8>, stride: int, x: int, y: int) -> Color {
    let at = stride * y + 4 * x;
    Color { r: frame[at + 2], g: frame[at + 1], b: frame[at], a: 255 }
}

/// The pixels of a frame, row by row, without the padding of its rows.
pub open spec fn converted(frame: Seq<u8>, width: nat, height: nat) -> Seq<Color> {
    Seq::new(
        width * height,
        |j: int|
            frame_pixel(
                frame,
                frame_stride(frame.len(), height),
                j % (width as int),
                j / (width as int),
            ),
    )
}

/// The rows of a fitting frame lie within it, and so does every pixel.
pub proof fn lemma_pixel_within_frame(len: nat, width: nat, height: nat, x: int, y: int)
    requires
        frame_fits(width, height, len),
        0 <= x < width,
        0 <= y < height,
    ensures
        0 <= frame_stride(len, height) * y + 4 * x,
        frame_stride(len, height) * y + 4 * x + 3 < len,
        0 <= y * width + x < width * height,
        width * height * 4 <= len,
{
    let stride = frame_stride(len, height);
    let h = height as int;
    let w = width as int;
    assert(stride * h <= len) by (nonlinear_arith)
        requires
            stride == len as int / h,
            h > 0,
    ;
    assert(stride * y + stride <= stride * h && 0 <= stride * y) by (nonlinear_arith)
        requires
            0 <= y < h,
            stride >= 0,
    ;
    assert(y * w + w <= w * h && 0 <= y * w) by (nonlinear_arith)
        requires
            0 <= y < h,
            w >= 0,
    ;
    assert(w * h * 4 <= stride * h) by (nonlinear_arith)
        requires
            stride >= 4 * w,
            h > 0,
    ;
}

/// Pixel `(x, y)` of the converted image is the frame's bytes at
/// `stride * y + 4 * x`, reordered from B,G,R to R,G,B and made opaque; the
/// converted image has one pixel for each position and no padding.
pub proof fn lemma_converted_pixel(frame: Seq<u8>, width: nat, height: nat, x: int, y: int)
    requires
        frame_fits(width, height, frame.len()),
        0 <= x < width,
        0 <= y < height,
    ensures
        converted(frame, width, height).len() == width * height,
        0 <= y * width + x < width * height,
        converted(frame, width, height)[y * width + x] == frame_pixel(
            frame,
            frame_stride(frame.len(), height),
            x,
            y,
        ),
        0 <= frame_stride(frame.len(), height) * y + 4 * x,
        frame_stride(frame.len(), height) * y + 4 * x + 3 < frame.len(),
{
    lemma_pixel_within_frame(frame.len(), width, height, x, y);
    lemma_fundamental_div_mod_converse(y * width + x, width as int, y, x);
}

/// Converts a display frame to the canonical layout. The frame's rows are
/// `frame.len() / height` bytes apart, which may be more than `width * 4`.
/// Fails exactly when the frame has no rows or its rows are too short.
pub fn convert_frame(width: usize, height: usize, frame: &[u8]) -> (r: Result<
    PixelBuffer,
    CaptureFatal,
>)
    ensures
        r is Ok <==> frame_fits(width as nat, height as nat, frame@.len()),
        r is Ok ==> r->Ok_0@ == (PixelGrid {
            width: width as nat,
            height: height as nat,
            pixels: converted(frame@, width as nat, height as nat),
        }),
        r is Ok ==> r->Ok_0.raw().len() == width * height * 4,
        r is Err ==> r->Err_0 == CaptureFatal::MalformedFrame,
{
    if height == 0 {
        return Err(CaptureFatal::MalformedFrame);
    }
    let stride: usize = frame.len() / height;
    if stride / 4 < width {
        return Err(CaptureFatal::MalformedFrame);
    }
    let mut out: Vec<u8> = Vec::new();
    let mut y: usize = 0;
    while y < height
        invariant
            y <= height,
            height > 0,
            frame@.len() <= usize::MAX,
            stride == frame_stride(frame@.len(), height as nat),
            frame_fits(width as nat, height as nat, frame@.len()),
            out@.len() == 4 * (y * width),
            forall|j: int|
                0 <= j < y * width ==> color_at(out@, j) == frame_pixel(
                    frame@,
                    stride as int,
                    j % (width as int),
                    j / (width as int),
                ),
        decreases height - y,
    {
        proof {
            assert(0 <= stride * y <= stride * height <= frame@.len()) by (nonlinear_arith)
                requires
                    stride == frame@.len() as int / height as int,
                    height > 0,
                    0 <= y < height,
            ;
        }
        let row: usize = stride * y;
        let mut x: usize = 0;
        while x < width
            invariant
                x <= width,
                y < height,
                frame@.len() <= usize::MAX,
                row == stride * y,
                stride == frame_stride(frame@.len(), height as nat),
                frame_fits(width as nat, height as nat, frame@.len()),
                out@.len() == 4 * (y * width + x),
                forall|j: int|
                    0 <= j < y * width + x ==> color_at(out@, j) == frame_pixel(
                        frame@,
                        stride as int,
                        j % (width as int),
                        j / (width as int),
                    ),
            decreases width - x,
        {
            proof {
                lemma_pixel_within_frame(
                    frame@.len(),
                    width as nat,
                    height as nat,
                    x as int,
                    y as int,
                );
            }
            let at: usize = row + 4 * x;
            let ghost before = out@;
            out.push(frame[at + 2]);
            out.push(frame[at + 1]);
            out.push(frame[at]);
            out.push(255);
            proof {
                let k = y * width + x;
                lemma_fundamental_div_mod_converse(k, width as int, y as int, x as int);
                assert forall|j: int| 0 <= j < k + 1 implies color_at(out@, j) == frame_pixel(
                    frame@,
                    stride as int,
                    j % (width as int),
                    j / (width as int),
                ) by {
                    if j < k {
                        assert(color_at(out@, j) == color_at(before, j));
                    }
                }
            }
            x += 1;
        }
        proof {
            assert(y * width + width == (y + 1) * width) by (nonlinear_arith);
        }
        y += 1;
    }
    proof {
        assert(4 * (height * width) == width * height * 4) by (nonlinear_arith);
    }
    match PixelBuffer::from_rgba(width, height, out) {
        Ok(buffer) => {
            proof {
                assert(buffer@.pixels =~= converted(frame@, width as nat, height as nat));
            }
            Ok(buffer)
        },
        Err(_) => Err(CaptureFatal::MalformedFrame),
    }
}

/// What the display answered when asked for a frame.
#[derive(Clone, Copy, Debug, PartialEq, Eq)]
pub enum FramePoll<'a> {
    /// A frame is ready: its bytes, rows padded as the display pleases.
    Ready(&'a [u8]),
    /// No frame yet; asking again later may give one.
    NotReady,
    /// Any other failure.
    Failed,
}

/// What a capture does next.
#[derive(Debug, PartialEq, Eq)]
pub enum CaptureStep {
    /// The capture is complete.
    Done(PixelBuffer),
    /// Wait this many nanoseconds, then ask the display again.
    RetryAfter(u64),
    /// The capture is given up; nothing was produced.
    Abort(CaptureFatal),
}

/// The step that a display's answer is due. A frame is converted at once, a
/// missing frame is waited for one frame interval, however often it is
/// missing, and any failure ends the capture.
pub open spec fn step_due(width: nat, height: nat, poll: FramePoll, step: CaptureStep) -> bool {
    match poll {
        FramePoll::Ready(frame) => if frame_fits(width, height, frame@.len()) {
            step matches CaptureStep::Done(buffer) && buffer@ == (PixelGrid {
                width,
                height,
                pixels: converted(frame@, width, height),
            })
        } else {
            step matches CaptureStep::Abort(reason) && reason == CaptureFatal::MalformedFrame
        },
        FramePoll::NotReady => step matches CaptureStep::RetryAfter(nanos) && nanos
            == FRAME_INTERVAL_NANOS,
        FramePoll::Failed => step matches CaptureStep::Abort(reason) && reason
            == CaptureFatal::DeviceFailed,
    }
}

/// Decides how a capture of a `width` by `height` display goes on after the
/// display's answer.
pub fn capture_step(width: usize, height: usize, poll: FramePoll) -> (step: CaptureStep)
    ensures
        step_due(width as nat, height as nat, poll, step),
{
    match poll {
        FramePoll::Ready(frame) => match convert_frame(width, height, frame) {
            Ok(buffer) => CaptureStep::Done(buffer),
            Err(reason) => CaptureStep::Abort(reason),
        },
        FramePoll::NotReady => CaptureStep::RetryAfter(FRAME_INTERVAL_NANOS),
        FramePoll::Failed => CaptureStep::Abort(CaptureFatal::DeviceFailed),
    }
}

} // verus!
