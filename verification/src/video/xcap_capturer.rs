//! Capture of a monitor with `xcap`, on Windows.

use crate::video::Frame;
use vstd::prelude::*;

verus! {

/// Captures a monitor at its own size and delivers BGRA frames.
#[derive(Clone, Copy, Debug, PartialEq, Eq, Structural)]
pub struct XcapCapturer {
    pub fps: u32,
}

impl XcapCapturer {
    pub fn new(fps: u32) -> (c: XcapCapturer)
        ensures
            c == (XcapCapturer { fps }),
    {
        XcapCapturer { fps }
    }
}

/// Pick the primary monitor, or the first one where none reports to be primary.
/// For each monitor is given whether it is primary, where that could be found
/// out. There is none to pick where there is no monitor.
pub fn pick_monitor(primary: &Vec<Option<bool>>) -> (picked: Option<usize>)
    ensures
        match picked {
            None => primary@.len() == 0,
            Some(i) => {
                &&& i < primary@.len()
                &&& primary@[i as int] == Some(true) || (i == 0 && !primary@.contains(Some(true)))
                &&& forall|j: int| 0 <= j < i ==> primary@[j] != Some(true)
            },
        },
{
    let mut i: usize = 0;
    while i < primary.len()
        invariant
            i <= primary@.len(),
            forall|j: int| 0 <= j < i ==> primary@[j] != Some(true),
        decreases primary@.len() - i,
    {
        if let Some(is_primary) = primary[i] {
            if is_primary {
                return Some(i);
            }
        }
        i += 1;
    }
    if primary.len() == 0 {
        None
    } else {
        Some(0)
    }
}

/// `pixels` with the first and the third byte of each pixel swapped. Bytes that
/// make no whole pixel stay as they are.
pub open spec fn swapped(pixels: Seq<u8>) -> Seq<u8> {
    Seq::new(
        pixels.len(),
        |i: int|
            if i - i % 4 + 4 > pixels.len() {
                pixels[i]
            } else if i % 4 == 0 {
                pixels[i + 2]
            } else if i % 4 == 2 {
                pixels[i - 2]
            } else {
                pixels[i]
            },
    )
}

/// Turn RGBA pixels into BGRA.
pub fn swap_red_and_blue(data: Vec<u8>) -> (out: Vec<u8>)
    ensures
        out@ == swapped(data@),
{
    let mut out: Vec<u8> = Vec::new();
    let total: usize = data.len();
    let mut i: usize = 0;
    while total - i >= 4
        invariant
            total == data@.len(),
            i <= total,
            i % 4 == 0,
            out@.len() == i,
            forall|j: int| 0 <= j < i ==> out@[j] == swapped(data@)[j],
        decreases total - i,
    {
        out.push(data[i + 2]);
        out.push(data[i + 1]);
        out.push(data[i]);
        out.push(data[i + 3]);
        i += 4;
    }
    while i < total
        invariant
            total == data@.len(),
            i <= total,
            total - total % 4 <= i,
            out@.len() == i,
            forall|j: int| 0 <= j < i ==> out@[j] == swapped(data@)[j],
        decreases total - i,
    {
        out.push(data[i]);
        i += 1;
    }
    assert(out@ =~= swapped(data@));
    out
}

/// Swapping red and blue twice gives the pixels back.
pub proof fn law_swap_undoes_itself(pixels: Seq<u8>)
    ensures
        swapped(swapped(pixels)) == pixels,
{
    assert(swapped(swapped(pixels)) =~= pixels);
}

/// The frame of a captured RGBA image of `width` x `height`.
pub fn frame_of(width: u32, height: u32, rgba: Vec<u8>, ts_micros: u64) -> (frame: Frame)
    requires
        4 * width <= usize::MAX,
    ensures
        frame.width == width,
        frame.height == height,
        frame.stride == 4 * width,
        frame.data@ == swapped(rgba@),
        frame.ts_micros == ts_micros,
{
    Frame { width, height, stride: width as usize * 4, data: swap_red_and_blue(rgba), ts_micros }
}

/// In every whole pixel the first and the third byte change places, and the
/// second and the fourth stay. So do bytes that make no whole pixel.
pub proof fn law_red_and_blue_change_places(pixels: Seq<u8>, p: int, i: int)
    requires
        0 <= p,
    ensures
        swapped(pixels).len() == pixels.len(),
        4 * p + 4 <= pixels.len() ==> {
            &&& swapped(pixels)[4 * p] == pixels[4 * p + 2]
            &&& swapped(pixels)[4 * p + 1] == pixels[4 * p + 1]
            &&& swapped(pixels)[4 * p + 2] == pixels[4 * p]
            &&& swapped(pixels)[4 * p + 3] == pixels[4 * p + 3]
        },
        pixels.len() < 4 * p + 4 && 4 * p <= i < pixels.len() ==> swapped(pixels)[i] == pixels[i],
{
}

} // verus!
