//! A synthetic, animated picture: a moving gradient and a marching white square.
//! It proves encoding and transport without any capture backend.

use crate::time::Duration;
use crate::video::capture::{frame_gap, gap_micros};
use crate::video::convert::lemma_position;
use crate::video::Frame;
use vstd::prelude::*;

verus! {

/// The side of the marching square.
pub const SQUARE: u32 = 8;

/// A source of test frames of `width` x `height`, about `fps` per second.
#[derive(Clone, Copy, Debug, PartialEq, Eq, Structural)]
pub struct TestPatternSource {
    pub width: u32,
    pub height: u32,
    pub fps: u32,
}

/// The number of places that a square can march through on a side.
pub open spec fn places(side: nat) -> nat {
    if side > SQUARE + 1 {
        (side - SQUARE) as nat
    } else {
        1
    }
}

impl TestPatternSource {
    /// The time between two frames, in microseconds.
    pub open spec fn gap_micros(self) -> nat {
        crate::video::capture::frame_gap_micros(self.fps)
    }

    /// The pixel in column `x` and row `y` of frame `n` belongs to the square.
    pub open spec fn in_square(self, n: nat, x: nat, y: nat) -> bool {
        let left = 2 * n % places(self.width as nat);
        let top = n % places(self.height as nat);
        left <= x < left + SQUARE && top <= y < top + SQUARE
    }

    /// Byte `c` (blue, green, red or alpha) of the pixel in column `x` and row
    /// `y` of frame `n`.
    #[verifier::opaque]
    pub open spec fn pixel_byte(self, n: nat, x: nat, y: nat, c: nat) -> u8 {
        if c == 3 || self.in_square(n, x, y) {
            255
        } else if c == 0 {
            ((x + 4 * n) % 256) as u8
        } else if c == 1 {
            ((y + 4 * n) % 256) as u8
        } else {
            ((x + y + 4 * n) % 256) as u8
        }
    }

    /// Byte number `i` of frame `n`.
    pub open spec fn byte_at(self, n: nat, i: nat) -> u8 {
        self.pixel_byte(n, i / 4 % self.width as nat, i / 4 / self.width as nat, i % 4)
    }

    /// The bytes of frame `n`, without padding.
    pub open spec fn pixels(self, n: nat) -> Seq<u8> {
        Seq::new(
            4 * (self.height as nat * self.width as nat),
            |i: int| self.byte_at(n, i as nat),
        )
    }

    /// The numbers of frame `n` fit the machine.
    pub open spec fn drawable(self, n: nat) -> bool {
        &&& n < 0x8000_0000
        &&& self.width > 0 && self.height > 0 ==> 4 * n % 0x1_0000_0000 + self.width + self.height
            <= 0x1_0000_0001
        &&& 4 * (self.height * self.width) <= isize::MAX
        &&& 4 * self.width <= usize::MAX
        &&& n * self.gap_micros() <= u64::MAX
    }

    /// The time between two frames.
    pub fn frame_gap(&self) -> (gap: Duration)
        ensures
            gap.nanos == self.gap_micros() * 1000,
    {
        frame_gap(self.fps)
    }

    /// The blue, green and red of the pixel in column `x` and row `y` of frame
    /// `n`, where `phase` is how far the gradient has moved and the square
    /// stands at `left` and `top`.
    fn pixel(&self, n: u64, phase: u32, left: u32, top: u32, x: u32, y: u32) -> (bgr: (u8, u8, u8))
        requires
            self.drawable(n as nat),
            x < self.width,
            y < self.height,
            phase == 4 * n % 0x1_0000_0000,
            left == 2 * n as nat % places(self.width as nat),
            top == n as nat % places(self.height as nat),
        ensures
            bgr.0 == self.pixel_byte(n as nat, x as nat, y as nat, 0),
            bgr.1 == self.pixel_byte(n as nat, x as nat, y as nat, 1),
            bgr.2 == self.pixel_byte(n as nat, x as nat, y as nat, 2),
            255 == self.pixel_byte(n as nat, x as nat, y as nat, 3),
    {
        reveal(TestPatternSource::pixel_byte);
        proof {
            lemma_phase(x as nat, n as nat);
            lemma_phase(y as nat, n as nat);
            lemma_phase((x + y) as nat, n as nat);
        }
        if left <= x && x - left < SQUARE && top <= y && y - top < SQUARE {
            (255, 255, 255)
        } else {
            (
                ((x + phase) % 256) as u8,
                ((y + phase) % 256) as u8,
                ((x + y + phase) % 256) as u8,
            )
        }
    }

    /// Frame number `n`.
    pub fn frame(&self, n: u64) -> (frame: Frame)
        requires
            self.drawable(n as nat),
        ensures
            frame.width == self.width,
            frame.height == self.height,
            frame.stride == 4 * self.width,
            frame.data@ == self.pixels(n as nat),
            frame.ts_micros == n * self.gap_micros(),
    {
        let w: u32 = self.width;
        let h: u32 = self.height;
        let phase: u32 = (4 * n % 0x1_0000_0000) as u32;
        let across: u32 = if w > SQUARE + 1 {
            w - SQUARE
        } else {
            1
        };
        let down: u32 = if h > SQUARE + 1 {
            h - SQUARE
        } else {
            1
        };
        // a white square as a reference for motion and time
        let left: u32 = (n as u32 * 2) % across;
        let top: u32 = n as u32 % down;
        let mut data: Vec<u8> = Vec::new();
        let ghost pw = w as nat;
        let mut y: u32 = 0;
        while y < h
            invariant
                y <= h,
                w == self.width,
                h == self.height,
                pw == w,
                self.drawable(n as nat),
                phase == 4 * n % 0x1_0000_0000,
                left == 2 * n as nat % places(w as nat),
                top == n as nat % places(h as nat),
                data@.len() == 4 * (y * pw),
                forall|i: int| 0 <= i < data@.len() ==> data@[i] == self.pixels(n as nat)[i],
            decreases h - y,
        {
            let mut x: u32 = 0;
            while x < w
                invariant
                    x <= w,
                    y < h,
                    w == self.width,
                    h == self.height,
                    pw == w,
                    self.drawable(n as nat),
                    phase == 4 * n % 0x1_0000_0000,
                    left == 2 * n as nat % places(w as nat),
                    top == n as nat % places(h as nat),
                    data@.len() == 4 * (y * pw + x),
                    forall|i: int| 0 <= i < data@.len() ==> data@[i] == self.pixels(n as nat)[i],
                decreases w - x,
            {
                proof {
                    lemma_position(pw, x as nat, y as nat, 0);
                    lemma_position(pw, x as nat, y as nat, 1);
                    lemma_position(pw, x as nat, y as nat, 2);
                    lemma_position(pw, x as nat, y as nat, 3);
                    assert(4 * (y * pw + x) + 3 < 4 * (h as nat * pw)) by (nonlinear_arith)
                        requires
                            x < pw,
                            y < h,
                    ;
                    assert(self.pixels(n as nat).len() == 4 * (h as nat * pw));
                }
                let (blue, green, red) = self.pixel(n, phase, left, top, x, y);
                data.push(blue);
                data.push(green);
                data.push(red);
                data.push(255);
                x += 1;
            }
            assert((y + 1) * pw == y * pw + pw) by (nonlinear_arith);
            y += 1;
        }
        assert(data@ =~= self.pixels(n as nat));
        Frame { width: w, height: h, stride: w as usize * 4, data, ts_micros: n * gap_micros(self.fps) }
    }
}

/// Where a gradient stands does not show how often its phase has wrapped.
proof fn lemma_phase(v: nat, n: nat)
    ensures
        (v + 4 * n % 0x1_0000_0000) % 256 == (v + 4 * n) % 256,
{
    let rest = 4 * n % 0x1_0000_0000;
    let whole = 4 * n / 0x1_0000_0000;
    vstd::arithmetic::div_mod::lemma_mod_multiples_vanish(
        0x100_0000 * whole as int,
        (v + rest) as int,
        256,
    );
    assert(256 * (0x100_0000 * whole) + (v + rest) == v + 4 * n);
}

/// The picture moves: a frame that is wider than two squares differs from the
/// one before it.
pub proof fn law_pattern_moves(source: TestPatternSource, n: nat)
    requires
        source.width > 2 * SQUARE,
        source.height > 0,
    ensures
        source.pixels(n) != source.pixels(n + 1),
{
    reveal(TestPatternSource::pixel_byte);
    let w = source.width as nat;
    let here = 2 * n % places(w);
    let next = 2 * (n + 1) % places(w);
    // of three columns that are a square apart, each square covers one at most
    let x: nat = if !(here <= 0 < here + SQUARE) && !(next <= 0 < next + SQUARE) {
        0
    } else if !(here <= SQUARE < here + SQUARE) && !(next <= SQUARE < next + SQUARE) {
        SQUARE as nat
    } else {
        2 * SQUARE as nat
    };
    lemma_position(w, x, 0, 0);
    assert(0 * w + x == x);
    assert(4 * x < 4 * (source.height as nat * w)) by (nonlinear_arith)
        requires
            x < w,
            source.height > 0,
    ;
    assert(source.pixels(n)[4 * x as int] == source.pixel_byte(n, x, 0, 0));
    assert(source.pixels(n + 1)[4 * x as int] == source.pixel_byte(n + 1, x, 0, 0));
}

/// Frames carry increasing times.
pub proof fn law_times_increase(source: TestPatternSource, n: nat, m: nat)
    requires
        n < m,
        source.fps <= 1_000_000,
    ensures
        n * source.gap_micros() < m * source.gap_micros(),
{
    let gap = source.gap_micros();
    assert(gap > 0) by {
        if source.fps > 0 {
            vstd::arithmetic::div_mod::lemma_div_non_zero(1_000_000, source.fps as int);
        }
    }
    assert(n * gap < m * gap) by (nonlinear_arith)
        requires
            n < m,
            gap > 0,
    ;
}

/// The byte of column `x`, row `y` and color `c` stands where it belongs in a
/// picture without padding.
proof fn lemma_byte(source: TestPatternSource, n: nat, x: nat, y: nat, c: nat)
    requires
        x < source.width,
        y < source.height,
        c < 4,
    ensures
        source.pixels(n)[(4 * (y * source.width + x) + c) as int] == source.pixel_byte(n, x, y, c),
        source.pixels(n).len() == 4 * (source.height * source.width),
{
    let w = source.width as nat;
    lemma_position(w, x, y, c);
    let i = 4 * (y * w + x) + c;
    assert(0 <= i < 4 * (source.height as nat * w)) by (nonlinear_arith)
        requires
            x < w,
            y < source.height,
            c < 4,
            i == 4 * (y * w + x) + c,
    ;
}

/// A picture is opaque, and outside the square it is a gradient: blue grows with
/// the column, green with the row and red with both, by one each, and all of
/// them by four from frame to frame, starting again at 256.
pub proof fn law_the_gradient(source: TestPatternSource, n: nat, x: nat, y: nat)
    requires
        x < source.width,
        y < source.height,
    ensures
        ({
            let p = 4 * (y * source.width + x);
            let picture = source.pixels(n);
            &&& picture.len() == 4 * (source.height * source.width)
            &&& picture[p + 3] == 255
            &&& !source.in_square(n, x, y) ==> {
                &&& picture[p] == (x + 4 * n) % 256
                &&& picture[p + 1] == (y + 4 * n) % 256
                &&& picture[p + 2] == (x + y + 4 * n) % 256
            }
            &&& source.in_square(n, x, y) ==> picture[p] == 255 && picture[p + 1] == 255
                && picture[p + 2] == 255
        }),
{
    reveal(TestPatternSource::pixel_byte);
    lemma_byte(source, n, x, y, 0);
    lemma_byte(source, n, x, y, 1);
    lemma_byte(source, n, x, y, 2);
    lemma_byte(source, n, x, y, 3);
}

/// The square has eight pixels on a side and stays in a picture that has room
/// for it. From frame to frame it marches two columns to the right and one row
/// down, and starts over when it is at the end of the columns or of the rows. It
/// stands still where there is no room to march.
pub proof fn law_the_square_marches(source: TestPatternSource, n: nat) -> (corner: (int, int))
    ensures
        source.width >= 8 ==> 0 <= corner.0 <= source.width - 8,
        source.height >= 8 ==> 0 <= corner.1 <= source.height - 8,
        n == 0 ==> corner == (0int, 0int),
        forall|x: nat, y: nat| #[trigger]
            source.in_square(n, x, y) <==> corner.0 <= x < corner.0 + 8 && corner.1 <= y < corner.1
                + 8,
        forall|x: nat, y: nat| #[trigger]
            source.in_square(n + 1, x, y) <==> ({
                let left = if source.width <= 10 {
                    0int
                } else if corner.0 + 2 < source.width - 8 {
                    corner.0 + 2
                } else {
                    corner.0 + 2 - (source.width - 8)
                };
                let top = if source.height <= 9 {
                    0int
                } else if corner.1 + 1 < source.height - 8 {
                    corner.1 + 1
                } else {
                    0int
                };
                left <= x < left + 8 && top <= y < top + 8
            }),
{
    let across = places(source.width as nat);
    let down = places(source.height as nat);
    if source.width > 10 {
        lemma_march(2 * n, 2, across);
    } else {
        assert(across == 1 || across == 2);
        assert(2 * n % 1 == 0 && 2 * (n + 1) % 1 == 0);
        assert(2 * n % 2 == 0 && 2 * (n + 1) % 2 == 0);
    }
    if source.height > 9 {
        lemma_march(n, 1, down);
    } else {
        assert(down == 1);
    }
    assert(2 * (n + 1) == 2 * n + 2);
    vstd::arithmetic::div_mod::lemma_small_mod(0, across);
    vstd::arithmetic::div_mod::lemma_small_mod(0, down);
    ((2 * n % across) as int, (n % down) as int)
}

proof fn lemma_march(at: nat, by: nat, places: nat)
    requires
        by < places,
    ensures
        at % places < places,
        (at + by) % places == if at % places + by < places {
            (at % places + by) as int
        } else {
            at % places + by - places
        },
{
    vstd::arithmetic::div_mod::lemma_fundamental_div_mod(at as int, places as int);
    let q = at / places;
    let r = at % places;
    if r + by < places {
        assert(places * q == q * places) by (nonlinear_arith);
        vstd::arithmetic::div_mod::lemma_fundamental_div_mod_converse(
            (at + by) as int,
            places as int,
            q as int,
            (r + by) as int,
        );
    } else {
        assert((q + 1) * places == places * q + places) by (nonlinear_arith);
        vstd::arithmetic::div_mod::lemma_fundamental_div_mod_converse(
            (at + by) as int,
            places as int,
            (q + 1) as int,
            (r + by - places) as int,
        );
    }
}

/// The frames of a second have room in it, and would not have if each came a
/// microsecond later.
pub proof fn law_frames_keep_their_rate(source: TestPatternSource)
    requires
        source.fps > 0,
    ensures
        source.gap_micros() * source.fps <= 1_000_000 < (source.gap_micros() + 1) * source.fps,
{
    crate::video::capture::law_frames_fill_the_second(source.fps);
}

} // verus!
