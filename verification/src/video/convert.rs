//! From captured pixels to the planes that an encoder takes.

use crate::video::{Frame, I420};
use vstd::prelude::*;

verus! {

/// Where in a frame's bytes the pixel stands that a target of `w` x `h` pixels
/// takes for its pixel in column `x` and row `y`: the nearest one.
pub open spec fn source_offset(frame: &Frame, w: nat, h: nat, x: nat, y: nat) -> nat {
    (y * frame.height as nat / h) * frame.stride as nat + (x * frame.width as nat / w) * 4
}

/// The byte of a frame that the target takes for its byte number `i`.
pub open spec fn source_byte(frame: &Frame, w: nat, h: nat, i: nat) -> u8 {
    frame.data@[(source_offset(frame, w, h, i / 4 % w, i / 4 / w) + i % 4) as int]
}

/// The frame has the size of the target and no padding.
pub open spec fn fits_already(frame: &Frame, w: nat, h: nat) -> bool {
    frame.width == w && frame.height == h && frame.stride == 4 * w
}

/// The bytes of a frame at the size of `w` x `h`, without padding.
pub open spec fn resized(frame: &Frame, w: nat, h: nat) -> Seq<u8> {
    if fits_already(frame, w, h) {
        frame.data@
    } else {
        Seq::new(4 * (h * w), |i: int| source_byte(frame, w, h, i as nat))
    }
}

/// Every pixel that a target of `w` x `h` takes lies within the frame's bytes,
/// and the positions fit the machine.
pub open spec fn resizable(frame: &Frame, w: nat, h: nat) -> bool {
    fits_already(frame, w, h) || {
        &&& 4 * (h * w) <= isize::MAX
        &&& h > 0 ==> (h - 1) * frame.height <= usize::MAX
        &&& w > 0 ==> (w - 1) * frame.width <= usize::MAX
        &&& forall|x: nat, y: nat|
            x < w && y < h ==> #[trigger] source_offset(frame, w, h, x, y) + 4 <= frame.data@.len()
    }
}

/// A byte of an image without padding gives away its column, its row and its
/// place in the pixel.
pub proof fn lemma_position(w: nat, x: nat, y: nat, c: nat)
    requires
        x < w,
        c < 4,
    ensures
        (4 * (y * w + x) + c) / 4 == y * w + x,
        (4 * (y * w + x) + c) % 4 == c,
        (4 * (y * w + x) + c) / 4 % w == x,
        (4 * (y * w + x) + c) / 4 / w == y,
{
    let p = y * w + x;
    assert((4 * p + c) / 4 == p);
    vstd::arithmetic::div_mod::lemma_fundamental_div_mod_converse(
        p as int,
        w as int,
        y as int,
        x as int,
    );
}

/// Nearest-neighbour resize of a BGRA frame into bytes without padding.
pub fn resize_bgra(frame: &Frame, dst_w: usize, dst_h: usize) -> (out: Vec<u8>)
    requires
        resizable(frame, dst_w as nat, dst_h as nat),
    ensures
        out@ == resized(frame, dst_w as nat, dst_h as nat),
{
    let sw: usize = frame.width as usize;
    let sh: usize = frame.height as usize;
    if sw == dst_w && sh == dst_h && frame.stride as u128 == 4 * (dst_w as u128) {
        return frame.data.clone();
    }
    let ghost w = dst_w as nat;
    let ghost h = dst_h as nat;
    let mut out: Vec<u8> = Vec::new();
    let mut dy: usize = 0;
    while dy < dst_h
        invariant
            dy <= dst_h,
            w == dst_w,
            h == dst_h,
            sw == frame.width,
            sh == frame.height,
            resizable(frame, w, h),
            !fits_already(frame, w, h),
            out@.len() == 4 * (dy * w),
            forall|i: int| 0 <= i < out@.len() ==> out@[i] == source_byte(frame, w, h, i as nat),
        decreases dst_h - dy,
    {
        assert(dy * sh <= (h - 1) * sh) by (nonlinear_arith)
            requires
                dy <= h - 1,
                sh >= 0,
        ;
        let sy: usize = dy * sh / dst_h;
        let mut dx: usize = 0;
        while dx < dst_w
            invariant
                dx <= dst_w,
                dy < dst_h,
                w == dst_w,
                h == dst_h,
                sw == frame.width,
                sh == frame.height,
                sy == dy as nat * frame.height as nat / h,
                resizable(frame, w, h),
                !fits_already(frame, w, h),
                out@.len() == 4 * (dy * w + dx),
                forall|i: int|
                    0 <= i < out@.len() ==> out@[i] == source_byte(frame, w, h, i as nat),
            decreases dst_w - dx,
        {
            assert(dx * sw <= (w - 1) * sw) by (nonlinear_arith)
                requires
                    dx <= w - 1,
                    sw >= 0,
            ;
            let sx: usize = dx * sw / dst_w;
            proof {
                assert(source_offset(frame, w, h, dx as nat, dy as nat) + 4 <= frame.data@.len());
                assert(frame.data@.len() == frame.data.len());
                assert(0 <= sy * frame.stride) by (nonlinear_arith)
                    requires
                        sy >= 0,
                        frame.stride >= 0,
                ;
                lemma_position(w, dx as nat, dy as nat, 0);
                lemma_position(w, dx as nat, dy as nat, 1);
                lemma_position(w, dx as nat, dy as nat, 2);
                lemma_position(w, dx as nat, dy as nat, 3);
            }
            let s: usize = sy * frame.stride + sx * 4;
            out.push(frame.data[s]);
            out.push(frame.data[s + 1]);
            out.push(frame.data[s + 2]);
            out.push(frame.data[s + 3]);
            dx += 1;
        }
        assert((dy + 1) * w == dy * w + w) by (nonlinear_arith);
        dy += 1;
    }
    out
}

/// A frame at the size of `dst_w` x `dst_h`, without padding.
pub fn resize_bgra_frame(frame: &Frame, dst_w: usize, dst_h: usize) -> (sized: Frame)
    requires
        resizable(frame, dst_w as nat, dst_h as nat),
        dst_w <= u32::MAX,
        dst_h <= u32::MAX,
        4 * dst_w <= usize::MAX,
    ensures
        sized.width == dst_w,
        sized.height == dst_h,
        sized.stride == 4 * dst_w,
        sized.data@ == resized(frame, dst_w as nat, dst_h as nat),
        sized.ts_micros == frame.ts_micros,
{
    Frame {
        width: dst_w as u32,
        height: dst_h as u32,
        stride: dst_w * 4,
        data: resize_bgra(frame, dst_w, dst_h),
        ts_micros: frame.ts_micros,
    }
}

/// A well-formed frame can be brought to any size whose positions fit the
/// machine.
pub proof fn lemma_well_formed_is_resizable(frame: &Frame, w: nat, h: nat)
    requires
        frame.well_formed(),
        4 * (h * w) <= isize::MAX,
        h * frame.height <= usize::MAX,
        w * frame.width <= usize::MAX,
    ensures
        resizable(frame, w, h),
{
    let sw = frame.width as nat;
    let sh = frame.height as nat;
    let stride = frame.stride as nat;
    if h > 0 {
        assert((h - 1) * sh <= h * sh) by (nonlinear_arith);
    }
    if w > 0 {
        assert((w - 1) * sw <= w * sw) by (nonlinear_arith);
    }
    assert forall|x: nat, y: nat| x < w && y < h implies #[trigger] source_offset(frame, w, h, x, y)
        + 4 <= frame.data@.len() by {
        let sx = x * sw / w;
        let sy = y * sh / h;
        assert(sx < sw) by (nonlinear_arith)
            requires
                x < w,
                sw > 0,
                sx == x * sw / w,
        ;
        assert(sy < sh) by (nonlinear_arith)
            requires
                y < h,
                sh > 0,
                sy == y * sh / h,
        ;
        assert(sy * stride <= stride * (sh - 1)) by (nonlinear_arith)
            requires
                sy <= sh - 1,
                stride >= 0,
        ;
    }
}

/// Whether a frame can be brought to the size of `dst_w` x `dst_h`: it has that
/// size already, or it is well formed and the positions fit the machine.
pub fn can_resize(frame: &Frame, dst_w: u32, dst_h: u32) -> (b: bool)
    ensures
        b == (fits_already(frame, dst_w as nat, dst_h as nat) || {
            &&& frame.well_formed()
            &&& 4 * (dst_h * dst_w) <= isize::MAX
            &&& dst_h * frame.height <= usize::MAX
            &&& dst_w * frame.width <= usize::MAX
        }),
        b ==> resizable(frame, dst_w as nat, dst_h as nat),
{
    proof {
        lemma_u32_product(dst_h, dst_w);
        lemma_u32_product(dst_h, frame.height);
        lemma_u32_product(dst_w, frame.width);
    }
    if frame.width == dst_w && frame.height == dst_h && frame.stride as u128 == 4 * (dst_w as u128) {
        return true;
    }
    let b: bool = frame.is_well_formed() && 4 * (dst_h as u128 * dst_w as u128)
        <= isize::MAX as u128 && dst_h as u128 * frame.height as u128 <= usize::MAX as u128
        && dst_w as u128 * frame.width as u128 <= usize::MAX as u128;
    proof {
        if b {
            lemma_well_formed_is_resizable(frame, dst_w as nat, dst_h as nat);
        }
    }
    b
}

proof fn lemma_u32_product(a: u32, b: u32)
    ensures
        0 <= a * b <= 0xffff_ffff * 0xffff_ffff,
{
    assert(0 <= a * b <= 0xffff_ffff * 0xffff_ffff) by (nonlinear_arith)
        requires
            0 <= a <= 0xffff_ffff,
            0 <= b <= 0xffff_ffff,
    ;
}

/// Half of `n`, rounded up: the length of a chroma side.
pub open spec fn half_up(n: nat) -> nat {
    (n + 1) / 2
}

/// How red, green and blue become luma and chroma.
#[derive(Clone, Copy, Debug, PartialEq, Eq, Structural)]
pub enum Colors {
    /// With the BT.601 matrix, in the limited range.
    Video,
    /// With the BT.601 matrix, in the full range.
    Jpeg,
}

/// `y`, `u` and `v` are planes of `w` x `h` pixels that the `yuv` crate can make
/// of the buffer `bgra` with `colors`. The crate picks its code by the vector
/// instructions of the machine, and these may round differently: there can be
/// several such planes.
pub uninterp spec fn possible_planes(
    bgra: Seq<u8>,
    w: nat,
    h: nat,
    colors: Colors,
    y: Seq<u8>,
    u: Seq<u8>,
    v: Seq<u8>,
) -> bool;

/// `image` is what a frame's pixels become at the size of `w` x `h`, with the
/// colors of video.
pub open spec fn is_i420(image: &I420, bgra: Seq<u8>, w: nat, h: nat) -> bool {
    &&& image.width == w
    &&& image.height == h
    &&& image.y_stride == w
    &&& image.uv_stride == half_up(w)
    &&& image.y@.len() == h * w
    &&& image.u@.len() == half_up(h) * half_up(w)
    &&& image.v@.len() == half_up(h) * half_up(w)
    &&& possible_planes(bgra, w, h, Colors::Video, image.y@, image.u@, image.v@)
}

/// The last row of `w` x `h` pixels is found in a buffer of `len` bytes. Rows are
/// read in pairs, and the last one of an odd number is read from what is left of
/// the buffer behind its last whole pair. A buffer that is longer than the
/// pixels must have a whole row there.
pub open spec fn has_last_row(len: nat, w: nat, h: nat) -> bool {
    h % 2 == 0 || len == 4 * (h * w) || len % (8 * w) >= 4 * w
}

/// `yuv::bgra_to_yuv420`, in the crate's default conversion mode, into an image
/// of `yuv::YuvPlanarImageMut::alloc`: the luma plane has a byte for each pixel,
/// the chroma planes have one for each square of four, sides rounded up, and no
/// plane has padding. The call succeeds for an image that has pixels, whose rows
/// follow each other without a gap, and whose bytes are all there and can be
/// addressed; for an odd number of rows it also wants a whole row behind the last
/// whole pair of the buffer. Of the values of the planes' bytes it is only said that they are
/// among those that the call can give for these pixels.
#[verifier::external_body]
fn planes_of(bgra: &Vec<u8>, w: u32, h: u32, stride: u32, colors: Colors) -> (image: I420)
    requires
        0 < w,
        0 < h,
        stride == 4 * w,
        4 * (h * w) <= isize::MAX,
        4 * (h * w) <= bgra@.len(),
        has_last_row(bgra@.len(), w as nat, h as nat),
    ensures
        image.width == w,
        image.height == h,
        image.y_stride == w,
        image.uv_stride == half_up(w as nat),
        image.y@.len() == h * w,
        image.u@.len() == half_up(h as nat) * half_up(w as nat),
        image.v@.len() == half_up(h as nat) * half_up(w as nat),
        possible_planes(bgra@, w as nat, h as nat, colors, image.y@, image.u@, image.v@),
{
    let mut to = yuv::YuvPlanarImageMut::<u8>::alloc(w, h, yuv::YuvChromaSubsampling::Yuv420);
    let (range, matrix) = match colors {
        Colors::Video => (yuv::YuvRange::Limited, yuv::YuvStandardMatrix::Bt601),
        Colors::Jpeg => (yuv::YuvRange::Full, yuv::YuvStandardMatrix::Bt601),
    };
    yuv::bgra_to_yuv420(&mut to, bgra, stride, range, matrix, Default::default()).expect("bgra");
    I420 {
        width: to.width as usize,
        height: to.height as usize,
        y: to.y_plane.borrow().to_vec(),
        u: to.u_plane.borrow().to_vec(),
        v: to.v_plane.borrow().to_vec(),
        y_stride: to.y_stride as usize,
        uv_stride: to.u_stride as usize,
    }
}

/// A frame can be converted at the size of `w` x `h`: its pixels at that size
/// are all there, and the planes fit the machine.
pub open spec fn convertible(frame: &Frame, w: nat, h: nat) -> bool {
    w > 0 && h > 0 ==> {
        &&& resizable(frame, w, h)
        &&& 4 * w <= u32::MAX
        &&& h <= u32::MAX
        &&& 4 * (h * w) <= isize::MAX
        &&& 4 * (h * w) <= resized(frame, w, h).len()
        &&& has_last_row(resized(frame, w, h).len(), w, h)
    }
}

/// Convert a BGRA frame to I420, resizing to `dst_w` x `dst_h` first if needed.
/// A target without pixels gives planes without bytes.
pub fn bgra_to_i420(frame: &Frame, dst_w: usize, dst_h: usize) -> (image: I420)
    requires
        convertible(frame, dst_w as nat, dst_h as nat),
    ensures
        dst_w == 0 || dst_h == 0 ==> {
            &&& image.width == 0
            &&& image.height == 0
            &&& image.y@.len() == 0
            &&& image.u@.len() == 0
            &&& image.v@.len() == 0
            &&& image.y_stride == 0
            &&& image.uv_stride == 0
        },
        dst_w > 0 && dst_h > 0 ==> is_i420(
            &image,
            resized(frame, dst_w as nat, dst_h as nat),
            dst_w as nat,
            dst_h as nat,
        ),
{
    if dst_w == 0 || dst_h == 0 {
        return I420 {
            width: 0,
            height: 0,
            y: Vec::new(),
            u: Vec::new(),
            v: Vec::new(),
            y_stride: 0,
            uv_stride: 0,
        };
    }
    let bgra: Vec<u8> = resize_bgra(frame, dst_w, dst_h);
    planes_of(&bgra, dst_w as u32, dst_h as u32, dst_w as u32 * 4, Colors::Video)
}

/// Each pixel of the target shows the same share of the picture as its own place
/// in the target, whether the target is smaller or larger: the pixel in column
/// `x` of `w` is the one in that column `sx` of the frame that `x` falls into
/// when `w` columns are laid over the frame's, and likewise for rows.
pub proof fn law_targets_show_the_whole_picture(
    frame: &Frame,
    w: nat,
    h: nat,
    x: nat,
    y: nat,
    c: nat,
    sx: nat,
    sy: nat,
)
    requires
        x < w,
        y < h,
        c < 4,
        sx * w <= x * frame.width < (sx + 1) * w,
        sy * h <= y * frame.height < (sy + 1) * h,
    ensures
        resized(frame, w, h)[(4 * (y * w + x) + c) as int] == frame.data@[(sy * frame.stride + 4
            * sx + c) as int],
{
    let sw = frame.width as nat;
    let sh = frame.height as nat;
    assert(sx * w + w == (sx + 1) * w) by (nonlinear_arith);
    assert(sy * h + h == (sy + 1) * h) by (nonlinear_arith);
    vstd::arithmetic::div_mod::lemma_fundamental_div_mod_converse(
        (x * sw) as int,
        w as int,
        sx as int,
        x * sw - sx * w,
    );
    vstd::arithmetic::div_mod::lemma_fundamental_div_mod_converse(
        (y * sh) as int,
        h as int,
        sy as int,
        y * sh - sy * h,
    );
    lemma_position(w, x, y, c);
    let i = 4 * (y * w + x) + c;
    assert(0 <= i < 4 * (h * w)) by (nonlinear_arith)
        requires
            x < w,
            y < h,
            c < 4,
            i == 4 * (y * w + x) + c,
    ;
    if fits_already(frame, w, h) {
        assert(sx == x) by (nonlinear_arith)
            requires
                sx * w <= x * w < (sx + 1) * w,
        ;
        assert(sy == y) by (nonlinear_arith)
            requires
                sy * h <= y * h < (sy + 1) * h,
        ;
        assert(y * (4 * w) == 4 * (y * w)) by (nonlinear_arith);
    }
}

/// Every pixel of a target has its place in the frame: there are such a column
/// and such a row for it, and they lie within the frame.
pub proof fn law_every_target_pixel_has_a_source(side: nat, target: nat, x: nat) -> (sx: nat)
    requires
        side > 0,
        x < target,
    ensures
        sx < side,
        sx * target <= x * side < (sx + 1) * target,
{
    let sx = x * side / target;
    vstd::arithmetic::div_mod::lemma_fundamental_div_mod((x * side) as int, target as int);
    assert(target * sx == sx * target) by (nonlinear_arith);
    assert((sx + 1) * target == sx * target + target) by (nonlinear_arith);
    assert(sx < side) by (nonlinear_arith)
        requires
            sx * target <= x * side,
            x < target,
            side > 0,
    ;
    sx
}

/// A target has four bytes for each of its pixels and no more, unless the frame
/// is taken over as it is: that one has the size of the target and no padding.
pub proof fn law_targets_have_no_padding(frame: &Frame, w: nat, h: nat)
    ensures
        resized(frame, w, h).len() == 4 * (h * w) || (resized(frame, w, h) == frame.data@
            && frame.width == w && frame.height == h && frame.stride == 4 * w),
{
}

/// A picture for an encoder has a luma byte for each pixel and a chroma byte of
/// each kind for each square of four, one for a square that is cut off, and is
/// made of the given pixels with the colors of video.
pub proof fn law_pictures_have_their_planes(image: &I420, bgra: Seq<u8>, w: nat, h: nat)
    requires
        is_i420(image, bgra, w, h),
    ensures
        image.width == w && image.height == h && image.y_stride == w,
        w <= 2 * image.uv_stride <= w + 1,
        image.y@.len() == h * w,
        h % 2 == 0 ==> image.u@.len() == (h / 2) * image.uv_stride,
        h % 2 == 1 ==> image.u@.len() == (h / 2 + 1) * image.uv_stride,
        image.v@.len() == image.u@.len(),
        possible_planes(bgra, w, h, Colors::Video, image.y@, image.u@, image.v@),
{
}

} // verus!
