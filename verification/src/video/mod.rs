//! Frames, capture sizes and the H.264 pipeline.

use crate::control::ResolutionPreset;
use crate::double;
use crate::platform::Platform;
use crate::text::same_text;
use crate::time::Duration;
use crate::video::sck_capturer::SckCapturer;
use crate::video::testpattern::TestPatternSource;
use crate::video::xcap_capturer::XcapCapturer;
use vstd::prelude::*;

pub mod capture;
pub mod convert;
pub mod openh264_encoder;
pub mod pipeline;
pub mod sck_capturer;
pub mod testpattern;
pub mod videotoolbox_encoder;
pub mod xcap_capturer;

verus! {

/// The largest even number up to `n`, and at least 2: H.264 needs even sides.
pub open spec fn even_side(n: nat) -> nat {
    if n < 2 {
        2
    } else {
        (n - n % 2) as nat
    }
}

/// Round down to an even number.
pub fn even(n: u32) -> (r: u32)
    ensures
        r == n - n % 2,
{
    n - n % 2
}

fn at_least_two(n: u32) -> (r: u32)
    ensures
        r == if n < 2 { 2 } else { n },
{
    if n < 2 {
        2
    } else {
        n
    }
}

/// The smaller of `max_w / disp_w` and `max_h / disp_h`, as numerator and
/// denominator: the factor that takes the display into the box.
pub open spec fn fit_ratio(disp_w: nat, disp_h: nat, max_w: nat, max_h: nat) -> (nat, nat) {
    if max_w * disp_h <= max_h * disp_w {
        (max_w, disp_w)
    } else {
        (max_h, disp_h)
    }
}

/// `side` times `ratio`, the ratio and the product held in 53 bits, rounded to
/// the nearest pixel.
pub open spec fn fit_side(side: nat, ratio: (nat, nat)) -> nat {
    if ratio.0 == 0 {
        0
    } else {
        let scale = double::quotient(ratio.0, ratio.1);
        double::capped(double::nearest_product(side, scale.0, scale.1))
    }
}

/// The capture size for a display of `disp_w` x `disp_h` in a box of `max_w` x
/// `max_h`.
pub open spec fn fit_size(disp_w: nat, disp_h: nat, max_w: nat, max_h: nat) -> (nat, nat) {
    if disp_w == 0 || disp_h == 0 {
        (even_side(max_w), even_side(max_h))
    } else {
        let ratio = fit_ratio(disp_w, disp_h, max_w, max_h);
        (even_side(fit_side(disp_w, ratio)), even_side(fit_side(disp_h, ratio)))
    }
}

/// Pick a capture size that preserves the display's aspect ratio, scaled to fit
/// within `max_w` x `max_h`, with even dimensions.
///
/// Capturing at the display's own aspect ratio keeps the remote cursor aligned:
/// a frame with bars around the picture would shift every position that the
/// browser maps against the whole frame.
pub fn fit_aspect(disp_w: u32, disp_h: u32, max_w: u32, max_h: u32) -> (size: (u32, u32))
    ensures
        (size.0 as nat, size.1 as nat) == fit_size(
            disp_w as nat,
            disp_h as nat,
            max_w as nat,
            max_h as nat,
        ),
{
    if disp_w == 0 || disp_h == 0 {
        return (at_least_two(even(max_w)), at_least_two(even(max_h)));
    }
    proof {
        assert(max_w * disp_h <= 0xffff_ffff * 0xffff_ffff) by (nonlinear_arith)
            requires
                0 <= max_w <= 0xffff_ffff,
                0 <= disp_h <= 0xffff_ffff,
        ;
        assert(max_h * disp_w <= 0xffff_ffff * 0xffff_ffff) by (nonlinear_arith)
            requires
                0 <= max_h <= 0xffff_ffff,
                0 <= disp_w <= 0xffff_ffff,
        ;
    }
    let by_width: bool = max_w as u64 * disp_h as u64 <= max_h as u64 * disp_w as u64;
    let numerator: u32 = if by_width {
        max_w
    } else {
        max_h
    };
    let denominator: u32 = if by_width {
        disp_w
    } else {
        disp_h
    };
    if numerator == 0 {
        return (2, 2);
    }
    let scale: double::Ratio = double::ratio_of(numerator as u64, denominator as u64);
    let w: u32 = scale.times(disp_w);
    let h: u32 = scale.times(disp_h);
    (at_least_two(even(w)), at_least_two(even(h)))
}

/// A capture size always has even sides of at least 2 pixels.
pub proof fn law_fit_sides_are_even(disp_w: nat, disp_h: nat, max_w: nat, max_h: nat)
    ensures
        fit_size(disp_w, disp_h, max_w, max_h).0 % 2 == 0,
        fit_size(disp_w, disp_h, max_w, max_h).1 % 2 == 0,
        fit_size(disp_w, disp_h, max_w, max_h).0 >= 2,
        fit_size(disp_w, disp_h, max_w, max_h).1 >= 2,
{
}

/// A capture size fits into a box whose own sides are at least 2 pixels, and
/// one of its sides fills the box as far as an even side can.
pub proof fn law_fit_fits_the_box(disp_w: u32, disp_h: u32, max_w: u32, max_h: u32)
    requires
        max_w >= 2,
        max_h >= 2,
    ensures
        ({
            let size = fit_size(disp_w as nat, disp_h as nat, max_w as nat, max_h as nat);
            &&& size.0 <= max_w
            &&& size.1 <= max_h
            &&& size.0 == even_side(max_w as nat) || size.1 == even_side(max_h as nat)
        }),
{
    if disp_w > 0 && disp_h > 0 {
        let ratio = fit_ratio(disp_w as nat, disp_h as nat, max_w as nat, max_h as nat);
        let _ = double::lemma_quotient_exists(ratio.0, ratio.1);
        assert(disp_w * max_w == max_w * disp_w) by (nonlinear_arith);
        assert(disp_h * max_h == max_h * disp_h) by (nonlinear_arith);
        assert(disp_h * max_w == max_w * disp_h) by (nonlinear_arith);
        assert(disp_w * max_h == max_h * disp_w) by (nonlinear_arith);
        double::lemma_scaled_within(disp_w as nat, ratio.0, ratio.1, max_w as nat);
        double::lemma_scaled_within(disp_h as nat, ratio.0, ratio.1, max_h as nat);
        double::lemma_scaled_exactly(ratio.0, ratio.1);
    }
}

/// A capture size keeps the display's aspect ratio: where both sides come out
/// above the least size, each is less than two pixels short of the display's
/// side times one common ratio, and less than one pixel above it.
pub proof fn law_fit_keeps_the_aspect(disp_w: u32, disp_h: u32, max_w: u32, max_h: u32)
    requires
        disp_w > 0,
        disp_h > 0,
    ensures
        ({
            let size = fit_size(disp_w as nat, disp_h as nat, max_w as nat, max_h as nat);
            let ratio = fit_ratio(disp_w as nat, disp_h as nat, max_w as nat, max_h as nat);
            size.0 > 2 && size.1 > 2 ==> {
                &&& disp_w * ratio.0 < (size.0 + 2) * ratio.1
                &&& size.0 * ratio.1 < disp_w * ratio.0 + ratio.1
                &&& disp_h * ratio.0 < (size.1 + 2) * ratio.1
                &&& size.1 * ratio.1 < disp_h * ratio.0 + ratio.1
            }
        }),
{
    let ratio = fit_ratio(disp_w as nat, disp_h as nat, max_w as nat, max_h as nat);
    if ratio.0 > 0 {
        let scale = double::lemma_quotient_exists(ratio.0, ratio.1);
        assert(disp_w * max_w == max_w * disp_w) by (nonlinear_arith);
        assert(disp_h * max_h == max_h * disp_h) by (nonlinear_arith);
        assert(disp_h * max_w == max_w * disp_h) by (nonlinear_arith);
        assert(disp_w * max_h == max_h * disp_w) by (nonlinear_arith);
        double::lemma_scaled_within(disp_w as nat, ratio.0, ratio.1, max_w as nat);
        double::lemma_scaled_within(disp_h as nat, ratio.0, ratio.1, max_h as nat);
        let w = double::nearest_product(disp_w as nat, scale.0, scale.1);
        let h = double::nearest_product(disp_h as nat, scale.0, scale.1);
        lemma_evened(w, ratio.1, disp_w * ratio.0);
        lemma_evened(h, ratio.1, disp_h * ratio.0);
    }
}

/// Evening a side costs it at most one pixel.
proof fn lemma_evened(side: nat, unit: nat, exact: int)
    requires
        exact < side * unit + unit,
        side * unit < exact + unit,
    ensures
        even_side(side) > 2 ==> {
            &&& exact < (even_side(side) + 2) * unit
            &&& even_side(side) * unit < exact + unit
        },
{
    let even = even_side(side);
    if even > 2 {
        assert(exact < (even + 2) * unit && even * unit < exact + unit) by (nonlinear_arith)
            requires
                exact < side * unit + unit,
                side * unit < exact + unit,
                even <= side <= even + 1,
        ;
    }
}

/// Map a resolution preset to a capture size for a display of logical size `dw`
/// x `dh`.
pub open spec fn preset_dimensions(preset: ResolutionPreset, dw: nat, dh: nat) -> (nat, nat) {
    match preset {
        ResolutionPreset::Sd => fit_size(dw, dh, 1280, 720),
        ResolutionPreset::Hd => (even_side(dw), even_side(dh)),
        ResolutionPreset::Native => (even_side(2 * dw), even_side(2 * dh)),
    }
}

/// Map a resolution preset to a capture size for a display of logical size `dw`
/// x `dh`.
pub fn preset_size(preset: ResolutionPreset, dw: u32, dh: u32) -> (size: (u32, u32))
    requires
        preset is Native ==> 2 * dw <= u32::MAX && 2 * dh <= u32::MAX,
    ensures
        (size.0 as nat, size.1 as nat) == preset_dimensions(preset, dw as nat, dh as nat),
{
    match preset {
        ResolutionPreset::Sd => fit_aspect(dw, dh, 1280, 720),
        ResolutionPreset::Hd => (at_least_two(even(dw)), at_least_two(even(dh))),
        // Physical pixels. On a display that has no more of them than logical
        // ones this is an upscale.
        ResolutionPreset::Native => (at_least_two(even(dw * 2)), at_least_two(even(dh * 2))),
    }
}

/// Capture size for `preset` on a display whose logical size is `display`. It
/// is 1280x720 when the size of the display is not known.
pub fn preset_capture_size(preset: ResolutionPreset, display: Option<(u32, u32)>) -> (size: (
    u32,
    u32,
))
    requires
        preset is Native ==> (display matches Some(d) ==> 2 * d.0 <= u32::MAX && 2 * d.1
            <= u32::MAX),
    ensures
        match display {
            Some(d) => (size.0 as nat, size.1 as nat) == preset_dimensions(
                preset,
                d.0 as nat,
                d.1 as nat,
            ),
            None => size == (1280u32, 720u32),
        },
{
    match display {
        Some((dw, dh)) => preset_size(preset, dw, dh),
        None => (1280, 720),
    }
}

/// The capture size for a display whose logical size is `display`: its aspect
/// ratio fit within `max_w` x `max_h`, or the box itself when the size of the
/// display is not known.
pub open spec fn capture_target(max_w: nat, max_h: nat, display: Option<(u32, u32)>) -> (nat, nat) {
    match display {
        Some(d) => fit_size(d.0 as nat, d.1 as nat, max_w, max_h),
        None => (even_side(max_w), even_side(max_h)),
    }
}

/// The capture size for a display whose logical size is `display`: its aspect
/// ratio fit within `max_w` x `max_h`. It is the box itself when the size of
/// the display is not known.
pub fn target_capture_size(max_w: u32, max_h: u32, display: Option<(u32, u32)>) -> (size: (
    u32,
    u32,
))
    ensures
        (size.0 as nat, size.1 as nat) == capture_target(max_w as nat, max_h as nat, display),
{
    match display {
        Some((dw, dh)) => fit_aspect(dw, dh, max_w, max_h),
        None => (at_least_two(even(max_w)), at_least_two(even(max_h))),
    }
}

/// One captured frame of raw BGRA8888 pixels. `stride` is the number of bytes
/// per row, to allow row padding from the capture source.
#[derive(Debug, PartialEq, Eq)]
pub struct Frame {
    pub width: u32,
    pub height: u32,
    pub stride: usize,
    pub data: Vec<u8>,
    pub ts_micros: u64,
}

/// Planar YUV 4:2:0 (I420), ready for an H.264 encoder.
#[derive(Debug, PartialEq, Eq)]
pub struct I420 {
    pub width: usize,
    pub height: usize,
    pub y: Vec<u8>,
    pub u: Vec<u8>,
    pub v: Vec<u8>,
    pub y_stride: usize,
    pub uv_stride: usize,
}

/// An encoded H.264 Annex-B sample plus timing and keyframe metadata.
#[derive(Debug, PartialEq, Eq)]
pub struct EncodedSample {
    pub data: Vec<u8>,
    pub duration: Duration,
    pub keyframe: bool,
}

impl Frame {
    /// The frame has pixels, and they all lie within its bytes.
    pub open spec fn well_formed(&self) -> bool {
        &&& self.width > 0
        &&& self.height > 0
        &&& self.stride >= 4 * self.width
        &&& self.stride * (self.height - 1) + 4 * self.width <= self.data@.len()
    }

    /// Whether the frame has pixels, and they all lie within its bytes.
    pub fn is_well_formed(&self) -> (b: bool)
        ensures
            b == self.well_formed(),
    {
        if self.width == 0 || self.height == 0 {
            return false;
        }
        let row: u128 = 4 * (self.width as u128);
        proof {
            assert(0 <= self.stride * (self.height - 1) <= 0xffff_ffff_ffff_ffff * 0xffff_ffff)
                by (nonlinear_arith)
                requires
                    0 <= self.stride <= 0xffff_ffff_ffff_ffff,
                    0 < self.height <= 0xffff_ffff,
            ;
        }
        let last: u128 = self.stride as u128 * (self.height as u128 - 1);
        self.stride as u128 >= row && last + row <= self.data.len() as u128
    }

    /// The frame can go to an encoder: it is well formed, has even sides, and
    /// its planes fit the machine.
    pub open spec fn encodable(&self) -> bool {
        &&& self.well_formed()
        &&& self.width % 2 == 0
        &&& self.height % 2 == 0
        &&& self.width <= i32::MAX
        &&& 4 * self.width <= u32::MAX
        &&& self.height <= i32::MAX
        &&& 4 * (self.height * self.width) <= isize::MAX
        &&& self.height * self.height <= usize::MAX
        &&& self.width * self.width <= usize::MAX
    }

    /// Whether the frame can go to an encoder.
    pub fn is_encodable(&self) -> (b: bool)
        ensures
            b == self.encodable(),
    {
        proof {
            assert(0 <= self.height * self.width <= 0xffff_ffff * 0xffff_ffff) by (nonlinear_arith)
                requires
                    0 <= self.height <= 0xffff_ffff,
                    0 <= self.width <= 0xffff_ffff,
            ;
            assert(0 <= self.height * self.height <= 0xffff_ffff * 0xffff_ffff) by (nonlinear_arith)
                requires
                    0 <= self.height <= 0xffff_ffff,
            ;
            assert(0 <= self.width * self.width <= 0xffff_ffff * 0xffff_ffff) by (nonlinear_arith)
                requires
                    0 <= self.width <= 0xffff_ffff,
            ;
        }
        self.is_well_formed() && self.width % 2 == 0 && self.height % 2 == 0 && self.width
            <= 0xffff_ffff / 4 && self.height <= 0x7fff_ffff && 4 * (self.height as u128
            * self.width as u128) <= isize::MAX as u128 && self.height as u128
            * self.height as u128 <= usize::MAX as u128 && self.width as u128 * self.width as u128
            <= usize::MAX as u128
    }
}

/// Why a frame was not encoded.
#[derive(Debug)]
pub enum VideoError {
    /// The software encoder refused it.
    Openh264(openh264::Error),
    /// The hardware encoder did not take it.
    VideoToolbox(videotoolbox_encoder::VideoToolboxError),
}

impl I420 {
    /// The planes and strides agree with the size of the picture, and its
    /// numbers fit those of a C library.
    pub open spec fn is_picture(&self) -> bool {
        &&& self.width <= i32::MAX
        &&& self.height <= i32::MAX
        &&& self.width <= self.y_stride <= i32::MAX
        &&& self.width / 2 <= self.uv_stride <= i32::MAX
        &&& self.height * self.y_stride == self.y@.len()
        &&& (self.height / 2) * self.uv_stride == self.u@.len()
        &&& (self.height / 2) * self.uv_stride == self.v@.len()
    }
}

/// Encodes I420 frames to H.264 Annex-B. `force_idr` requests a keyframe.
pub trait VideoEncoder: Send {
    fn encode(&mut self, frame: &I420, force_idr: bool) -> (r: Result<EncodedSample, VideoError>)
        requires
            frame.is_picture(),
    ;

    /// Change the target bit rate for subsequent frames. Does nothing unless an
    /// encoder says otherwise.
    fn set_bitrate(&mut self, _bitrate_bps: u32) {
    }

    /// Drop internal codec state, so that the next frame starts over at its own
    /// dimensions with fresh parameter sets and a keyframe. Does nothing unless
    /// an encoder says otherwise.
    fn reset(&mut self) {
    }
}

/// Where the pipeline delivers encoded samples.
pub trait SampleSink: Send + Sync {
    fn write(&self, sample: EncodedSample);
}

/// A source of screen frames.
#[derive(Clone, Copy, Debug, PartialEq, Eq, Structural)]
pub enum Source {
    TestPattern(TestPatternSource),
    ScreenCaptureKit(SckCapturer),
    Xcap(XcapCapturer),
}

/// Select the capture source by what is wanted: `testpattern` is the synthetic
/// one, anything else is the screen, where there is a backend for it. `xcap`
/// captures at the monitor's own size.
pub fn make_source(want: Option<&str>, platform: Platform, w: u32, h: u32, fps: u32) -> (source:
    Source)
    ensures
        source == if (want matches Some(t) && t@ == "testpattern"@) || platform is Other {
            Source::TestPattern(TestPatternSource { width: w, height: h, fps })
        } else if platform is MacOs {
            Source::ScreenCaptureKit(SckCapturer { width: w, height: h, fps })
        } else {
            Source::Xcap(XcapCapturer { fps })
        },
{
    if let Some(text) = want {
        if same_text(text, "testpattern") {
            return Source::TestPattern(TestPatternSource { width: w, height: h, fps });
        }
    }
    match platform {
        Platform::MacOs => Source::ScreenCaptureKit(SckCapturer::sized(w, h, fps)),
        Platform::Windows => Source::Xcap(XcapCapturer::new(fps)),
        Platform::Other => Source::TestPattern(TestPatternSource { width: w, height: h, fps }),
    }
}

/// Whether a hardware encoder is tried first: on macOS, unless `openh264` is
/// wanted.
pub fn prefers_hardware(want: Option<&str>, platform: Platform) -> (hardware: bool)
    ensures
        hardware == (platform is MacOs && !(want matches Some(t) && t@ == "openh264"@)),
{
    match platform {
        Platform::MacOs => match want {
            Some(text) => !same_text(text, "openh264"),
            None => true,
        },
        _ => false,
    }
}

/// A side is made even by taking at most one pixel from it, and has two at
/// least.
pub proof fn law_sides_are_evened_down(n: nat)
    ensures
        even_side(n) % 2 == 0,
        n >= 2 ==> n - 1 <= even_side(n) <= n,
        n < 2 ==> even_side(n) == 2,
{
}

/// A capture size is the display's size times the ratio `p / q` that just takes
/// it into the box, rounded to the nearest pixel and then down to an even number
/// of at least two. Lengths within a 2^18th part of half a pixel may be rounded
/// either way.
pub proof fn law_fit_is_the_nearest_even_size(
    disp_w: u32,
    disp_h: u32,
    max_w: u32,
    max_h: u32,
    p: nat,
    q: nat,
)
    requires
        disp_w > 0,
        disp_h > 0,
        max_w > 0,
        max_h > 0,
        (p == max_w && q == disp_w && max_w * disp_h <= max_h * disp_w) || (p == max_h && q
            == disp_h && max_h * disp_w < max_w * disp_h),
    ensures
        ({
            let size = fit_size(disp_w as nat, disp_h as nat, max_w as nat, max_h as nat);
            &&& size.0 >= 2 && size.0 % 2 == 0 && size.1 >= 2 && size.1 % 2 == 0
            &&& size.0 > 2 ==> 0x4_0000 * (2 * (size.0 * q) - 2 * (disp_w * p) - q) <= q
            &&& 0x4_0000 * (2 * (disp_w * p) - 2 * ((size.0 + 1) * q) - q) <= q
            &&& size.1 > 2 ==> 0x4_0000 * (2 * (size.1 * q) - 2 * (disp_h * p) - q) <= q
            &&& 0x4_0000 * (2 * (disp_h * p) - 2 * ((size.1 + 1) * q) - q) <= q
        }),
{
    let ratio = fit_ratio(disp_w as nat, disp_h as nat, max_w as nat, max_h as nat);
    assert(ratio == (p, q));
    let scale = double::lemma_quotient_exists(p, q);
    assert(disp_w * max_w == max_w * disp_w) by (nonlinear_arith);
    assert(disp_h * max_h == max_h * disp_h) by (nonlinear_arith);
    assert(disp_h * max_w == max_w * disp_h) by (nonlinear_arith);
    assert(disp_w * max_h == max_h * disp_w) by (nonlinear_arith);
    double::lemma_scaled_within(disp_w as nat, p, q, max_w as nat);
    double::lemma_scaled_within(disp_h as nat, p, q, max_h as nat);
    double::lemma_scaled_is_nearest(disp_w as nat, p, q, max_w as nat);
    double::lemma_scaled_is_nearest(disp_h as nat, p, q, max_h as nat);
    lemma_nearest_even(
        double::nearest_product(disp_w as nat, scale.0, scale.1),
        disp_w * p,
        q as int,
    );
    lemma_nearest_even(
        double::nearest_product(disp_h as nat, scale.0, scale.1),
        disp_h * p,
        q as int,
    );
}

proof fn lemma_nearest_even(n: nat, exact: int, unit: int)
    requires
        unit > 0,
        0x4_0000 * (2 * (n * unit) - 2 * exact - unit) <= unit,
        0x4_0000 * (2 * exact - 2 * (n * unit) - unit) <= unit,
    ensures
        even_side(n) > 2 ==> 0x4_0000 * (2 * (even_side(n) * unit) - 2 * exact - unit) <= unit,
        0x4_0000 * (2 * exact - 2 * ((even_side(n) + 1) * unit) - unit) <= unit,
{
    let side = even_side(n);
    assert(side > 2 ==> side * unit <= n * unit) by (nonlinear_arith)
        requires
            side > 2 ==> side <= n,
            unit > 0,
    ;
    assert(n * unit <= (side + 1) * unit) by (nonlinear_arith)
        requires
            n <= side + 1,
            unit > 0,
    ;
}

/// A display without a size is captured at the size of the box, and a box
/// without a size at the least size.
pub proof fn law_missing_sizes(disp_w: nat, disp_h: nat, max_w: nat, max_h: nat)
    ensures
        disp_w == 0 || disp_h == 0 ==> fit_size(disp_w, disp_h, max_w, max_h) == (
            even_side(max_w),
            even_side(max_h),
        ),
        disp_w > 0 && disp_h > 0 && (max_w == 0 || max_h == 0) ==> fit_size(
            disp_w,
            disp_h,
            max_w,
            max_h,
        ) == (2nat, 2nat),
        capture_target(max_w, max_h, None) == (even_side(max_w), even_side(max_h)),
{
    if disp_w > 0 && disp_h > 0 && (max_w == 0 || max_h == 0) {
        assert(max_w == 0 ==> max_w * disp_h == 0) by (nonlinear_arith);
        assert(max_h == 0 ==> max_h * disp_w == 0) by (nonlinear_arith);
        assert(max_h > 0 ==> max_h * disp_w > 0) by (nonlinear_arith)
            requires
                disp_w > 0,
        ;
        assert(max_w > 0 ==> max_w * disp_h > 0) by (nonlinear_arith)
            requires
                disp_h > 0,
        ;
    }
}

/// A known display is captured at its own aspect ratio, in the box that is
/// asked for.
pub proof fn law_known_displays_are_fit(max_w: nat, max_h: nat, w: u32, h: u32)
    ensures
        capture_target(max_w, max_h, Some((w, h))) == fit_size(w as nat, h as nat, max_w, max_h),
{
}

/// The three presets: the lowest fits the display into 1280 x 720, the middle
/// one takes it at its logical size and the highest at twice that size, both
/// less one pixel on a side that would be odd, and two pixels at least.
pub proof fn law_presets(dw: nat, dh: nat)
    ensures
        preset_dimensions(ResolutionPreset::Sd, dw, dh) == fit_size(dw, dh, 1280, 720),
        ({
            let hd = preset_dimensions(ResolutionPreset::Hd, dw, dh);
            let native = preset_dimensions(ResolutionPreset::Native, dw, dh);
            &&& dw >= 2 ==> hd.0 == dw - dw % 2
            &&& dh >= 2 ==> hd.1 == dh - dh % 2
            &&& dw < 2 ==> hd.0 == 2
            &&& dh < 2 ==> hd.1 == 2
            &&& dw >= 1 ==> native.0 == 2 * dw
            &&& dh >= 1 ==> native.1 == 2 * dh
            &&& dw == 0 ==> native.0 == 2
            &&& dh == 0 ==> native.1 == 2
        }),
{
}

/// The rows of a well-formed frame do not overlap, and every pixel lies within
/// its bytes; and a frame of which that holds is well formed.
pub proof fn law_well_formed_frames_hold_their_pixels(frame: &Frame, x: nat, y: nat)
    ensures
        frame.well_formed() && x < frame.width && y < frame.height ==> y * frame.stride + 4 * x + 4
            <= frame.data@.len() && 4 * x + 4 <= frame.stride,
        frame.width > 0 && frame.height > 0 && 4 * frame.width <= frame.stride && (frame.height
            - 1) * frame.stride + 4 * frame.width <= frame.data@.len() ==> frame.well_formed(),
{
    let stride = frame.stride as int;
    let h = frame.height as int;
    assert((h - 1) * stride == stride * (h - 1)) by (nonlinear_arith);
    if frame.well_formed() && x < frame.width && y < frame.height {
        assert(y * stride <= stride * (h - 1)) by (nonlinear_arith)
            requires
                y <= h - 1,
                stride >= 0,
        ;
    }
}

/// A frame goes to an encoder where it is well formed and has even sides, as long
/// as its numbers fit the machine; those of a screen do.
pub proof fn law_screens_can_be_encoded(frame: &Frame)
    requires
        frame.well_formed(),
        frame.width <= 16384,
        frame.height <= 16384,
    ensures
        frame.encodable() <==> frame.width % 2 == 0 && frame.height % 2 == 0,
{
    let w = frame.width as int;
    let h = frame.height as int;
    assert(h * w <= 0x1000_0000 && h * h <= 0x1000_0000 && w * w <= 0x1000_0000)
        by (nonlinear_arith)
        requires
            0 <= w <= 16384,
            0 <= h <= 16384,
    ;
    assert(0x4000_0000 <= isize::MAX && 0x1000_0000 <= usize::MAX);
}

} // verus!
