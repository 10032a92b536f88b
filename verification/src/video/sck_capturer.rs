//! Capture of the main display with ScreenCaptureKit, on macOS.

use crate::video::Frame;
use vstd::prelude::*;

verus! {

/// Captures the main display and delivers BGRA frames of `width` x `height`.
#[derive(Clone, Copy, Debug, PartialEq, Eq, Structural)]
pub struct SckCapturer {
    pub width: u32,
    pub height: u32,
    pub fps: u32,
}

impl SckCapturer {
    /// A capturer at 1280x720.
    pub fn new(fps: u32) -> (c: SckCapturer)
        ensures
            c == (SckCapturer { width: 1280, height: 720, fps }),
    {
        SckCapturer { width: 1280, height: 720, fps }
    }

    /// A capturer at a size of its own.
    pub fn sized(width: u32, height: u32, fps: u32) -> (c: SckCapturer)
        ensures
            c == (SckCapturer { width, height, fps }),
    {
        SckCapturer { width, height, fps }
    }
}

/// The frame of a locked pixel buffer: its rows share its bytes evenly, padding
/// and all.
pub fn frame_of(width: u32, height: u32, bytes: Vec<u8>, ts_micros: u64) -> (frame: Frame)
    ensures
        frame.width == width,
        frame.height == height,
        frame.stride == bytes@.len() / (if height == 0 {
            1
        } else {
            height as nat
        }),
        frame.data == bytes,
        frame.ts_micros == ts_micros,
{
    let rows: usize = if height == 0 {
        1
    } else {
        height as usize
    };
    Frame { width, height, stride: bytes.len() / rows, data: bytes, ts_micros }
}

/// A buffer whose rows are at least as long as their pixels makes a well-formed
/// frame.
pub proof fn law_whole_rows_make_a_frame(frame: &Frame)
    requires
        frame.width > 0,
        frame.height > 0,
        frame.stride == frame.data@.len() / frame.height as nat,
        4 * frame.width * frame.height <= frame.data@.len(),
    ensures
        frame.well_formed(),
{
    let w = frame.width as int;
    let h = frame.height as int;
    let len = frame.data@.len() as int;
    let stride = frame.stride as int;
    assert(stride >= 4 * w) by (nonlinear_arith)
        requires
            stride == len / h,
            4 * w * h <= len,
            h > 0,
    ;
    assert(stride * h <= len) by (nonlinear_arith)
        requires
            stride == len / h,
            h > 0,
    ;
    assert(stride * (h - 1) == stride * h - stride) by (nonlinear_arith);
}

} // verus!
