//! Arithmetic of 64-bit binary floating point, on whole numbers: quotients and
//! products rounded to a significand of 53 bits, ties going to the even
//! neighbour. Capture sizes and pointer positions are scaled in that precision,
//! so a size on the edge between two pixels falls on the side that this
//! rounding picks.

use vstd::arithmetic::power2::pow2;
use vstd::prelude::*;

verus! {

/// The whole number nearest to `n / d`; of two equally near, the even one.
pub open spec fn half_even(n: nat, d: nat) -> nat {
    let down = n / d;
    let rest = n % d;
    if 2 * rest < d || (2 * rest == d && down % 2 == 0) {
        down
    } else {
        down + 1
    }
}

/// `m / 2^k` is `p / q` rounded to a significand of 53 bits.
pub open spec fn is_quotient(p: nat, q: nat, m: nat, k: nat) -> bool {
    &&& pow2(52) * q <= p * pow2(k) < pow2(53) * q
    &&& m == half_even(p * pow2(k), q)
}

/// `p / q` rounded to a significand of 53 bits, as the pair `(m, k)` that
/// stands for `m / 2^k`.
pub open spec fn quotient(p: nat, q: nat) -> (nat, nat) {
    choose|r: (nat, nat)| is_quotient(p, q, r.0, r.1)
}

/// `n` needs `s` bits more than a significand holds.
pub open spec fn is_excess(n: nat, s: nat) -> bool {
    &&& n < pow2(53) * pow2(s)
    &&& s > 0 ==> pow2(52) * pow2(s) <= n
}

/// `n` rounded to a significand of 53 bits.
pub open spec fn significand(n: nat) -> nat {
    let s = choose|s: nat| is_excess(n, s);
    half_even(n, pow2(s)) * pow2(s)
}

/// The whole number nearest to `m / 2^k`, halves going up.
pub open spec fn nearest(m: nat, k: nat) -> nat {
    (2 * m + pow2(k)) / (2 * pow2(k))
}

/// `side` times `m / 2^k`, the product rounded to a significand of 53 bits and
/// then to the nearest whole number, halves going up.
pub open spec fn nearest_product(side: nat, m: nat, k: nat) -> nat {
    nearest(significand(side * m), k)
}

proof fn lemma_pow2_double(k: nat)
    ensures
        pow2(k + 1) == 2 * pow2(k),
        pow2(k) > 0,
{
    vstd::arithmetic::power2::lemma_pow2_unfold((k + 1) as nat);
    vstd::arithmetic::power2::lemma_pow2_pos(k);
}

proof fn lemma_pow2_order(a: nat, b: nat)
    requires
        a < b,
    ensures
        2 * pow2(a) <= pow2(b),
    decreases b,
{
    lemma_pow2_double((b - 1) as nat);
    if a < b - 1 {
        lemma_pow2_order(a, (b - 1) as nat);
    }
}

proof fn lemma_constants()
    ensures
        pow2(0) == 1,
        pow2(52) == 0x10_0000_0000_0000,
        pow2(53) == 0x20_0000_0000_0000,
{
    vstd::arithmetic::power2::lemma2_to64();
    vstd::arithmetic::power2::lemma2_to64_rest();
}

/// There is one way to write a quotient.
pub proof fn lemma_quotient_unique(p: nat, q: nat, m: nat, k: nat)
    requires
        is_quotient(p, q, m, k),
    ensures
        quotient(p, q) == (m, k),
{
    let r = quotient(p, q);
    assert(is_quotient(p, q, (m, k).0, (m, k).1));
    assert(is_quotient(p, q, r.0, r.1));
    lemma_constants();
    if r.1 < k {
        lemma_pow2_order(r.1, k);
        assert(2 * (p * pow2(r.1)) <= p * pow2(k)) by (nonlinear_arith)
            requires
                2 * pow2(r.1) <= pow2(k),
        ;
    }
    if k < r.1 {
        lemma_pow2_order(k, r.1);
        assert(2 * (p * pow2(k)) <= p * pow2(r.1)) by (nonlinear_arith)
            requires
                2 * pow2(k) <= pow2(r.1),
        ;
    }
}

proof fn lemma_excess_order(n: nat, s: nat, t: nat)
    requires
        is_excess(n, s),
        is_excess(n, t),
    ensures
        t <= s,
{
    if s < t {
        lemma_constants();
        lemma_pow2_order(s, t);
        assert(pow2(53) * pow2(s) <= pow2(52) * pow2(t)) by (nonlinear_arith)
            requires
                2 * pow2(s) <= pow2(t),
                pow2(53) == 2 * pow2(52),
        ;
    }
}

/// There is one number of bits by which a number exceeds a significand.
pub proof fn lemma_excess_unique(n: nat, s: nat)
    requires
        is_excess(n, s),
    ensures
        significand(n) == half_even(n, pow2(s)) * pow2(s),
{
    let t = choose|t: nat| is_excess(n, t);
    assert(is_excess(n, t));
    lemma_excess_order(n, t, s);
    lemma_excess_order(n, s, t);
}

/// What rounding to the nearest whole number can move a ratio by.
proof fn lemma_half_even_near(n: nat, d: nat)
    requires
        d > 0,
    ensures
        2 * n <= 2 * (half_even(n, d) * d) + d,
        2 * (half_even(n, d) * d) <= 2 * n + d,
{
    vstd::arithmetic::div_mod::lemma_fundamental_div_mod(n as int, d as int);
    let down = n / d;
    let rest = n % d;
    assert(n == d * down + rest);
    assert(down * d == d * down) by (nonlinear_arith);
    assert((down + 1) * d == d * down + d) by (nonlinear_arith);
}

/// The nearest whole number to `n / d`.
fn divided(n: u128, d: u128) -> (r: u128)
    requires
        0 < d,
        n < 0x8000_0000_0000_0000_0000_0000_0000_0000,
        d < 0x8000_0000_0000_0000_0000_0000_0000_0000,
    ensures
        r == half_even(n as nat, d as nat),
        r <= n + 1,
{
    let down: u128 = n / d;
    let rest: u128 = n % d;
    proof {
        vstd::arithmetic::div_mod::lemma_div_nonincreasing(n as int, d as int);
    }
    if 2 * rest < d || (2 * rest == d && down % 2 == 0) {
        down
    } else {
        down + 1
    }
}

/// A ratio in 53 bits: `mantissa / unit`, where `unit` is `2^shift`.
pub struct Ratio {
    pub mantissa: u128,
    pub unit: u128,
    pub shift: Ghost<nat>,
}

/// The ratio `p / q` in 53 bits.
pub fn ratio_of(p: u64, q: u64) -> (r: Ratio)
    requires
        p > 0,
        0 < q <= 0x1000_0000_0000_0000,
        p < 0x20_0000_0000_0000 * q,
        q <= 0x1_0000_0000 * p,
    ensures
        r.well_formed(),
        quotient(p as nat, q as nat) == (r.mantissa as nat, r.shift@),
        is_quotient(p as nat, q as nat, r.mantissa as nat, r.shift@),
{
    let d: u128 = q as u128;
    let low: u128 = d * 0x10_0000_0000_0000;
    let mut n: u128 = p as u128;
    let mut unit: u128 = 1;
    let ghost mut k: nat = 0;
    proof {
        lemma_constants();
    }
    while n < low
        invariant
            0 < p,
            0 < d == q,
            low == d * 0x10_0000_0000_0000,
            low <= 0x1000_0000_0000_0000 * 0x10_0000_0000_0000,
            n == p * unit,
            unit == pow2(k),
            0 < unit <= n < 2 * low,
        decreases 2 * low - n,
    {
        proof {
            lemma_pow2_double(k);
            assert(p * (unit * 2) == (p * unit) * 2) by (nonlinear_arith);
            k = k + 1;
        }
        n = n * 2;
        unit = unit * 2;
    }
    let mantissa: u128 = divided(n, d);
    proof {
        lemma_constants();
        assert(is_quotient(p as nat, q as nat, mantissa as nat, k));
        lemma_quotient_unique(p as nat, q as nat, mantissa as nat, k);
        lemma_mantissa_range(p as nat, q as nat, mantissa as nat, k);
        assert(unit <= 0x20_0000_0000_0000_0000_0000) by (nonlinear_arith)
            requires
                p * unit < 2 * (q * 0x10_0000_0000_0000),
                0 < p,
                q <= 0x1_0000_0000 * p,
        {
            assert(p * unit < p * (0x20_0000_0000_0000 * 0x1_0000_0000));
        }
    }
    Ratio { mantissa, unit, shift: Ghost(k) }
}

impl Ratio {
    /// The significand has at most 53 bits, and `unit` is the power of two that
    /// `shift` names.
    pub open spec fn well_formed(&self) -> bool {
        &&& self.mantissa <= 0x20_0000_0000_0000
        &&& 0 < self.unit <= 0x20_0000_0000_0000_0000_0000
        &&& self.unit == pow2(self.shift@)
    }

    /// `side` scaled by this ratio: the product rounded to 53 bits and then to
    /// the nearest whole number, halves going up, no further than `u32` reaches.
    pub fn times(&self, side: u32) -> (r: u32)
        requires
            self.well_formed(),
        ensures
            r == capped(nearest_product(side as nat, self.mantissa as nat, self.shift@)),
    {
        proof {
            lemma_constants();
            assert(side * self.mantissa <= 0xffff_ffff * 0x20_0000_0000_0000)
                by (nonlinear_arith)
                requires
                    side <= 0xffff_ffff,
                    0 <= self.mantissa <= 0x20_0000_0000_0000,
            ;
        }
        let product: u128 = side as u128 * self.mantissa;
        let mut step: u128 = 1;
        let ghost mut s: nat = 0;
        while step * 0x20_0000_0000_0000 <= product
            invariant
                product <= 0xffff_ffff * 0x20_0000_0000_0000,
                step == pow2(s),
                0 < step <= 0x2_0000_0000,
                pow2(52) == 0x10_0000_0000_0000,
                pow2(53) == 0x20_0000_0000_0000,
                s > 0 ==> step * 0x10_0000_0000_0000 <= product,
            decreases 0x4_0000_0000 - step,
        {
            proof {
                lemma_pow2_double(s);
                s = s + 1;
            }
            step = step * 2;
        }
        let whole: u128 = divided(product, step);
        proof {
            assert(pow2(53) * pow2(s) == step * 0x20_0000_0000_0000) by (nonlinear_arith)
                requires
                    step == pow2(s),
                    pow2(53) == 0x20_0000_0000_0000,
            ;
            assert(pow2(52) * pow2(s) == step * 0x10_0000_0000_0000) by (nonlinear_arith)
                requires
                    step == pow2(s),
                    pow2(52) == 0x10_0000_0000_0000,
            ;
            assert(is_excess(product as nat, s));
            lemma_excess_unique(product as nat, s);
            lemma_half_even_near(product as nat, step as nat);
            assert(product as nat == side as nat * self.mantissa as nat);
        }
        assert(whole * step == half_even(product as nat, step as nat) * step as nat);
        let rounded: u128 = whole * step;
        let pixels: u128 = (2 * rounded + self.unit) / (2 * self.unit);
        if pixels > 0xffff_ffff {
            0xffff_ffff
        } else {
            pixels as u32
        }
    }

    /// The whole number nearest to this ratio, halves going up.
    pub fn rounded(&self) -> (r: u128)
        requires
            self.well_formed(),
        ensures
            r == nearest(self.mantissa as nat, self.shift@),
    {
        (2 * self.mantissa + self.unit) / (2 * self.unit)
    }
}

/// `n`, no further than `u32` reaches.
pub open spec fn capped(n: nat) -> nat {
    if n > u32::MAX {
        u32::MAX as nat
    } else {
        n
    }
}

proof fn lemma_mantissa_range(p: nat, q: nat, m: nat, k: nat)
    requires
        q > 0,
        is_quotient(p, q, m, k),
    ensures
        pow2(52) <= m <= pow2(53),
{
    let n = p * pow2(k);
    lemma_constants();
    assert(n / q >= pow2(52)) by (nonlinear_arith)
        requires
            n >= pow2(52) * q,
            q > 0,
    ;
    assert(n / q < pow2(53)) by (nonlinear_arith)
        requires
            n < pow2(53) * q,
            q > 0,
    ;
}

/// A side whose exact scaled length is at most `limit` stays within `limit`
/// in 53 bits, and comes out less than a pixel away from its exact length.
pub proof fn lemma_scaled_within(side: nat, p: nat, q: nat, limit: nat)
    requires
        0 < q <= u32::MAX,
        side <= u32::MAX,
        limit <= u32::MAX,
        side * p <= limit * q,
        is_quotient(p, q, quotient(p, q).0, quotient(p, q).1),
    ensures
        ({
            let n = nearest_product(side, quotient(p, q).0, quotient(p, q).1);
            &&& n <= limit
            &&& side * p < n * q + q
            &&& n * q < side * p + q
        }),
{
    let m = quotient(p, q).0;
    let k = quotient(p, q).1;
    let unit = pow2(k);
    let r = significand(side * m);
    let n = (2 * r + unit) / (2 * unit);
    lemma_pow2_double(k);
    lemma_product_error(side, p, q, limit);
    vstd::arithmetic::div_mod::lemma_fundamental_div_mod((2 * r + unit) as int, (2 * unit) as int);
    assert(2 * unit * n <= 2 * r + unit < 2 * unit * n + 2 * unit);
    assert(n * q < side * p + q) by (nonlinear_arith)
        requires
            2 * unit * n <= 2 * r + unit,
            2 * (r * q) < 2 * ((side * p) * unit) + unit * q,
            unit > 0,
            q > 0,
    {
        assert((2 * unit * n) * q <= (2 * r + unit) * q);
        assert((n * q) * (2 * unit) < (side * p + q) * (2 * unit));
    }
    assert(side * p < n * q + q) by (nonlinear_arith)
        requires
            2 * r + unit < 2 * unit * n + 2 * unit,
            2 * ((side * p) * unit) < 2 * (r * q) + unit * q,
            unit > 0,
            q > 0,
    {
        assert((2 * r + unit) * q < (2 * unit * n + 2 * unit) * q);
        assert((side * p) * (2 * unit) < (n * q + q) * (2 * unit));
    }
    assert(n <= limit) by (nonlinear_arith)
        requires
            n * q < side * p + q,
            side * p <= limit * q,
            q > 0,
    ;
}

/// A side that the ratio takes to `limit` exactly comes out as `limit` in 53
/// bits.
pub proof fn lemma_scaled_exactly(limit: nat, side: nat)
    requires
        0 < side <= u32::MAX,
        limit <= u32::MAX,
        is_quotient(limit, side, quotient(limit, side).0, quotient(limit, side).1),
    ensures
        nearest_product(side, quotient(limit, side).0, quotient(limit, side).1) == limit,
{
    let n = nearest_product(side, quotient(limit, side).0, quotient(limit, side).1);
    assert(side * limit == limit * side) by (nonlinear_arith);
    lemma_scaled_within(side, limit, side, limit);
    assert(n == limit) by (nonlinear_arith)
        requires
            n * side < limit * side + side,
            limit * side < n * side + side,
            side > 0,
    ;
}

/// The product in 53 bits is off by less than half a pixel.
proof fn lemma_product_error(side: nat, p: nat, q: nat, limit: nat)
    requires
        0 < q <= u32::MAX,
        side <= u32::MAX,
        limit <= u32::MAX,
        side * p <= limit * q,
        is_quotient(p, q, quotient(p, q).0, quotient(p, q).1),
    ensures
        ({
            let unit = pow2(quotient(p, q).1);
            let r = significand(side * quotient(p, q).0);
            &&& 2 * (r * q) < 2 * ((side * p) * unit) + unit * q
            &&& 2 * ((side * p) * unit) < 2 * (r * q) + unit * q
            &&& 0x4_0000 * (2 * (r * q) - 2 * ((side * p) * unit)) <= unit * q
            &&& 0x4_0000 * (2 * ((side * p) * unit) - 2 * (r * q)) <= unit * q
        }),
{
    let m = quotient(p, q).0;
    let k = quotient(p, q).1;
    let unit = pow2(k);
    let product = side * m;
    let exact = (side * p) * unit;
    lemma_constants();
    lemma_pow2_double(k);
    lemma_mantissa_range(p, q, m, k);
    lemma_half_even_near(p * unit, q);
    // the ratio is off by at most half a unit, so the product by half a side
    assert(2 * (product * q) <= 2 * exact + side * q) by (nonlinear_arith)
        requires
            2 * (m * q) <= 2 * (p * unit) + q,
            product == side * m,
            exact == (side * p) * unit,
    {
        assert(side * (2 * (m * q)) <= side * (2 * (p * unit) + q));
    }
    assert(2 * exact <= 2 * (product * q) + side * q) by (nonlinear_arith)
        requires
            2 * (p * unit) <= 2 * (m * q) + q,
            product == side * m,
            exact == (side * p) * unit,
    {
        assert(side * (2 * (p * unit)) <= side * (2 * (m * q) + q));
    }
    // half a side is little against a unit
    assert(2 * product <= 2 * (limit * unit) + side) by (nonlinear_arith)
        requires
            2 * (product * q) <= 2 * exact + side * q,
            exact == (side * p) * unit,
            side * p <= limit * q,
            q > 0,
    {
        assert((side * p) * unit <= (limit * q) * unit);
        assert(2 * product * q <= (2 * (limit * unit) + side) * q);
    }
    assert(side * 0x8_0000 <= unit) by (nonlinear_arith)
        requires
            2 * product <= 2 * (limit * unit) + side,
            product == side * m,
            m >= 0x10_0000_0000_0000,
            limit <= 0xffff_ffff,
    {
        assert(side * 0x10_0000_0000_0000 <= side * m);
        assert(limit * unit <= 0xffff_ffff * unit);
    }
    // so is what rounding the product to 53 bits drops
    let s = lemma_excess_exists(product);
    lemma_excess_unique(product, s);
    lemma_pow2_double(s);
    let step = pow2(s);
    let r = significand(product);
    lemma_half_even_near(product, step);
    if s == 0 {
        assert(half_even(product, 1) == product);
    } else {
        assert(step * 0x10_0000 <= unit) by (nonlinear_arith)
            requires
                2 * product <= 2 * (limit * unit) + side,
                0x10_0000_0000_0000 * step <= product,
                side <= unit,
                limit <= 0xffff_ffff,
        {
            assert(limit * unit <= 0xffff_ffff * unit);
        }
    }
    let off = if s == 0 {
        0
    } else {
        step
    };
    assert(2 * r <= 2 * product + off && 2 * product <= 2 * r + off);
    assert(0x4_0000 * (side + off) <= unit);
    assert(0x4_0000 * (2 * (r * q) - 2 * exact) <= unit * q) by (nonlinear_arith)
        requires
            2 * r <= 2 * product + off,
            2 * (product * q) <= 2 * exact + side * q,
            0x4_0000 * (side + off) <= unit,
            q > 0,
    {
        assert(2 * r * q <= (2 * product + off) * q);
        assert((0x4_0000 * (side + off)) * q <= unit * q);
    }
    assert(0x4_0000 * (2 * exact - 2 * (r * q)) <= unit * q) by (nonlinear_arith)
        requires
            2 * product <= 2 * r + off,
            2 * exact <= 2 * (product * q) + side * q,
            0x4_0000 * (side + off) <= unit,
            q > 0,
    {
        assert(2 * product * q <= (2 * r + off) * q);
        assert((0x4_0000 * (side + off)) * q <= unit * q);
    }
    assert(side + off < unit);
    assert(2 * (r * q) < 2 * exact + unit * q) by (nonlinear_arith)
        requires
            2 * r <= 2 * product + off,
            2 * (product * q) <= 2 * exact + side * q,
            side + off < unit,
            q > 0,
    {
        assert(2 * r * q <= (2 * product + off) * q);
        assert((side + off) * q < unit * q);
    }
    assert(2 * exact < 2 * (r * q) + unit * q) by (nonlinear_arith)
        requires
            2 * product <= 2 * r + off,
            2 * exact <= 2 * (product * q) + side * q,
            side + off < unit,
            q > 0,
    {
        assert(2 * product * q <= (2 * r + off) * q);
        assert((side + off) * q < unit * q);
    }
}

/// Positive 32-bit numbers have a quotient in 53 bits.
pub proof fn lemma_quotient_exists(p: nat, q: nat) -> (r: (nat, nat))
    requires
        0 < p <= u32::MAX,
        0 < q <= u32::MAX,
    ensures
        is_quotient(p, q, r.0, r.1),
        quotient(p, q) == r,
{
    lemma_constants();
    let k = lemma_shift_exists(p, q, 0);
    let r = (half_even(p * pow2(k), q), k);
    lemma_quotient_unique(p, q, r.0, r.1);
    r
}

proof fn lemma_shift_exists(p: nat, q: nat, k: nat) -> (r: nat)
    requires
        p > 0,
        p * pow2(k) < pow2(53) * q,
    ensures
        pow2(52) * q <= p * pow2(r) < pow2(53) * q,
    decreases pow2(53) * q - p * pow2(k),
{
    lemma_constants();
    if pow2(52) * q <= p * pow2(k) {
        k
    } else {
        lemma_pow2_double(k);
        assert(p * pow2(k + 1) == 2 * (p * pow2(k))) by (nonlinear_arith)
            requires
                pow2(k + 1) == 2 * pow2(k),
        ;
        assert(p * pow2(k) > 0) by (nonlinear_arith)
            requires
                p > 0,
                pow2(k) > 0,
        ;
        lemma_shift_exists(p, q, k + 1)
    }
}

/// Every number exceeds a significand by some number of bits.
proof fn lemma_excess_exists(n: nat) -> (s: nat)
    ensures
        is_excess(n, s),
    decreases n,
{
    lemma_constants();
    if n < pow2(53) {
        0
    } else {
        let t = lemma_excess_exists(n / 2);
        lemma_pow2_double(t);
        let s = t + 1;
        assert(n < pow2(53) * pow2(s)) by (nonlinear_arith)
            requires
                n / 2 < pow2(53) * pow2(t),
                pow2(s) == 2 * pow2(t),
        ;
        if t > 0 {
            assert(pow2(52) * pow2(s) <= n) by (nonlinear_arith)
                requires
                    pow2(52) * pow2(t) <= n / 2,
                    pow2(s) == 2 * pow2(t),
            ;
        }
        s
    }
}

/// A 64-bit binary floating-point number, by its bit pattern.
#[derive(Debug, Clone, Copy, PartialEq, Eq, Structural)]
pub struct Double {
    pub bits: u64,
}

impl Double {
    /// The sign bit is set.
    pub open spec fn negative(self) -> bool {
        self.bits >= 0x8000_0000_0000_0000
    }

    /// The exponent as it is stored: 0 marks the numbers nearest to zero, 2047
    /// marks infinity and what is no number.
    pub open spec fn exponent(self) -> nat {
        (self.bits / 0x10_0000_0000_0000 % 0x800) as nat
    }

    /// The stored part of the significand.
    pub open spec fn fraction(self) -> nat {
        (self.bits % 0x10_0000_0000_0000) as nat
    }

    /// The value is no number.
    pub open spec fn is_nan(self) -> bool {
        self.exponent() == 2047 && self.fraction() != 0
    }

    /// The value is zero, of either sign.
    pub open spec fn is_zero(self) -> bool {
        self.exponent() == 0 && self.fraction() == 0
    }

    /// The place of the value among all values: bit patterns without the sign
    /// bit are in the order of their values, and those with it in the reverse
    /// order below them. Both zeros have the same place.
    pub open spec fn place(self) -> int {
        if self.negative() {
            0x8000_0000_0000_0000 - self.bits
        } else {
            self.bits as int
        }
    }

    /// The value with the other sign.
    pub open spec fn opposite(self) -> Double {
        if self.negative() {
            Double { bits: (self.bits - 0x8000_0000_0000_0000) as u64 }
        } else {
            Double { bits: (self.bits + 0x8000_0000_0000_0000) as u64 }
        }
    }

    /// The value is less than or equal to `other`. What is no number has no
    /// place in the order.
    pub open spec fn at_most(self, other: Double) -> bool {
        !self.is_nan() && !other.is_nan() && self.place() <= other.place()
    }

    /// The significand: the value is `mantissa / 2^shift`, but for its sign.
    pub open spec fn mantissa(self) -> nat {
        if self.exponent() == 0 {
            self.fraction()
        } else {
            0x10_0000_0000_0000 + self.fraction()
        }
    }

    /// The power of two below the significand, for a number under 2^53.
    pub open spec fn shift(self) -> nat {
        if self.exponent() == 0 {
            1074
        } else {
            (1075 - self.exponent()) as nat
        }
    }

    pub fn is_negative(&self) -> (b: bool)
        ensures
            b == self.negative(),
    {
        self.bits >= 0x8000_0000_0000_0000
    }

    pub fn is_exactly_zero(&self) -> (b: bool)
        ensures
            b == self.is_zero(),
    {
        self.stored_exponent() == 0 && self.stored_fraction() == 0
    }

    pub fn is_not_a_number(&self) -> (b: bool)
        ensures
            b == self.is_nan(),
    {
        self.stored_exponent() == 2047 && self.stored_fraction() != 0
    }

    fn stored_exponent(&self) -> (e: u64)
        ensures
            e == self.exponent(),
            e < 2048,
    {
        self.bits / 0x10_0000_0000_0000 % 0x800
    }

    fn stored_fraction(&self) -> (f: u64)
        ensures
            f == self.fraction(),
            f < 0x10_0000_0000_0000,
    {
        self.bits % 0x10_0000_0000_0000
    }

    /// The value held between 0 and 1, times `side`, in 53 bits, rounded to the
    /// nearest whole number. What is no number counts as 0.
    pub open spec fn share_of(self, side: nat) -> nat {
        if self.is_nan() || self.negative() || self.is_zero() {
            0
        } else if self.exponent() >= 1023 {
            side
        } else {
            nearest_product(side, self.mantissa(), self.shift())
        }
    }

    /// The value held between 0 and 1, times `side`, rounded to the nearest
    /// whole number.
    pub fn part_of(&self, side: u32) -> (r: u32)
        ensures
            r == capped(self.share_of(side as nat)),
    {
        let exponent: u64 = self.stored_exponent();
        let fraction: u64 = self.stored_fraction();
        if self.is_negative() || (exponent == 2047 && fraction != 0) || (exponent == 0 && fraction
            == 0) {
            return 0;
        }
        if exponent >= 1023 {
            return side;
        }
        let mantissa: u64 = if exponent == 0 {
            fraction
        } else {
            0x10_0000_0000_0000 + fraction
        };
        let shift: u64 = if exponent == 0 {
            1074
        } else {
            1075 - exponent
        };
        if shift > 85 {
            // too near to zero for any side to reach half a pixel
            proof {
                lemma_tiny_share(side as nat, mantissa as nat, shift as nat);
            }
            return 0;
        }
        let unit: u128 = power_of_two(shift);
        proof {
            lemma_pow2_at_most(shift as nat, 85);
        }
        let ratio: Ratio = Ratio { mantissa: mantissa as u128, unit, shift: Ghost(shift as nat) };
        ratio.times(side)
    }

    /// A hundredth of the value, without its sign, in 53 bits, rounded to the
    /// nearest whole number, for a value from 1 up to 2^39.
    pub open spec fn hundredth(self) -> nat {
        let q = quotient(self.mantissa(), 100 * pow2(self.shift()));
        nearest(q.0, q.1)
    }

    /// A hundredth of the value, without its sign, rounded to the nearest whole
    /// number, no further than `limit`. What is no number counts as 0.
    pub open spec fn hundredth_within(self, limit: nat) -> nat {
        if self.is_nan() || self.exponent() < 1023 {
            0
        } else if self.exponent() >= 1023 + 39 || self.hundredth() > limit {
            limit
        } else {
            self.hundredth()
        }
    }

    /// A hundredth of the value, without its sign, rounded to the nearest whole
    /// number, no further than `limit`.
    pub fn hundredths(&self, limit: u32) -> (r: u32)
        requires
            limit <= 0x8000_0000,
        ensures
            r == self.hundredth_within(limit as nat),
    {
        let exponent: u64 = self.stored_exponent();
        let fraction: u64 = self.stored_fraction();
        if (exponent == 2047 && fraction != 0) || exponent < 1023 {
            return 0;
        }
        if exponent >= 1023 + 39 {
            return limit;
        }
        let mantissa: u64 = 0x10_0000_0000_0000 + fraction;
        let shift: u64 = 1075 - exponent;
        let unit: u128 = power_of_two(shift);
        proof {
            lemma_constants();
            lemma_pow2_at_most(shift as nat, 52);
        }
        let ratio: Ratio = ratio_of(mantissa, 100 * unit as u64);
        let whole: u128 = ratio.rounded();
        if whole > limit as u128 {
            limit
        } else {
            whole as u32
        }
    }
}

/// Two to the power of `k`.
fn power_of_two(k: u64) -> (r: u128)
    requires
        k <= 126,
    ensures
        r == pow2(k as nat),
{
    let mut r: u128 = 1;
    let mut i: u64 = 0;
    proof {
        lemma_constants();
    }
    while i < k
        invariant
            i <= k <= 126,
            r == pow2(i as nat),
        decreases k - i,
    {
        proof {
            lemma_pow2_double(i as nat);
            lemma_pow2_at_most((i + 1) as nat, 126);
            lemma_large_powers();
        }
        r = r * 2;
        i += 1;
    }
    r
}

proof fn lemma_large_powers()
    ensures
        pow2(85) == 0x20_0000_0000_0000_0000_0000,
        pow2(86) == 0x40_0000_0000_0000_0000_0000,
        pow2(126) == 0x4000_0000_0000_0000_0000_0000_0000_0000,
{
    vstd::arithmetic::power2::lemma2_to64();
    vstd::arithmetic::power2::lemma2_to64_rest();
    vstd::arithmetic::power2::lemma_pow2_adds(64, 21);
    vstd::arithmetic::power2::lemma_pow2_adds(64, 22);
    vstd::arithmetic::power2::lemma_pow2_adds(64, 62);
}

proof fn lemma_pow2_at_most(a: nat, b: nat)
    requires
        a <= b,
    ensures
        0 < pow2(a) <= pow2(b),
        b == 85 ==> pow2(b) == 0x20_0000_0000_0000_0000_0000,
{
    lemma_pow2_double(a);
    lemma_large_powers();
    if a < b {
        lemma_pow2_order(a, b);
    }
}

/// A share below 2^-85 of any side rounds to nothing.
proof fn lemma_tiny_share(side: nat, m: nat, k: nat)
    requires
        side <= u32::MAX,
        m <= 0x20_0000_0000_0000,
        k > 85,
    ensures
        nearest_product(side, m, k) == 0,
{
    let product = side * m;
    let s = lemma_excess_exists(product);
    let step = pow2(s);
    let unit = pow2(k);
    lemma_constants();
    lemma_large_powers();
    lemma_pow2_at_most(86, k);
    lemma_pow2_double(s);
    lemma_excess_unique(product, s);
    lemma_half_even_near(product, step);
    let r = significand(product);
    assert(product <= 0xffff_ffff * 0x20_0000_0000_0000) by (nonlinear_arith)
        requires
            product == side * m,
            side <= 0xffff_ffff,
            m <= 0x20_0000_0000_0000,
    ;
    assert(step <= 0x2_0000_0000);
    assert(2 * r < unit);
    vstd::arithmetic::div_mod::lemma_basic_div((2 * r + unit) as int, (2 * unit) as int);
}

/// A value whose exponent is below that of 1 is below 1.
pub proof fn lemma_below_one(x: Double)
    requires
        x.exponent() < 1023,
    ensures
        x.mantissa() < pow2(x.shift()),
{
    lemma_constants();
    lemma_pow2_at_most(53, x.shift());
}

/// A share of a side is less than a pixel away from its exact place.
pub proof fn lemma_share_is_near(x: Double, side: nat)
    requires
        side <= u32::MAX,
        !x.negative(),
        x.exponent() < 1023,
    ensures
        side * x.mantissa() < (x.share_of(side) + 1) * pow2(x.shift()),
        x.share_of(side) * pow2(x.shift()) < side * x.mantissa() + pow2(x.shift()),
{
    let m = x.mantissa();
    let k = x.shift();
    let unit = pow2(k);
    let product = side * m;
    lemma_constants();
    lemma_pow2_at_most(53, k);
    if x.is_zero() {
        assert(product == 0) by (nonlinear_arith)
            requires
                product == side * m,
                m == 0,
        ;
        assert((0 + 1) * unit == unit && 0 * unit == 0) by (nonlinear_arith);
    } else {
        let s = lemma_excess_exists(product);
        let step = pow2(s);
        let r = significand(product);
        let n = nearest(r, k);
        lemma_pow2_double(s);
        lemma_excess_unique(product, s);
        lemma_half_even_near(product, step);
        assert(product < 0x1_0000_0000 * unit) by (nonlinear_arith)
            requires
                product == side * m,
                side <= 0xffff_ffff,
                m <= unit,
                unit > 0,
        {
            assert(side * m <= 0xffff_ffff * unit);
        }
        let off = if s == 0 {
            assert(half_even(product, 1) == product);
            0
        } else {
            step
        };
        assert(off < unit);
        vstd::arithmetic::div_mod::lemma_fundamental_div_mod(
            (2 * r + unit) as int,
            (2 * unit) as int,
        );
        assert(2 * unit * n <= 2 * r + unit < 2 * unit * n + 2 * unit);
        assert((n + 1) * unit == unit * n + unit && n * unit == unit * n) by (nonlinear_arith);
        assert(2 * unit * n == 2 * (unit * n)) by (nonlinear_arith);
    }
}

/// Rounding keeps the order of what is rounded.
proof fn lemma_half_even_ordered(a: nat, b: nat, d: nat)
    requires
        a <= b,
        d > 0,
    ensures
        half_even(a, d) <= half_even(b, d),
{
    vstd::arithmetic::div_mod::lemma_fundamental_div_mod(a as int, d as int);
    vstd::arithmetic::div_mod::lemma_fundamental_div_mod(b as int, d as int);
    vstd::arithmetic::div_mod::lemma_div_is_ordered(a as int, b as int, d as int);
    if a / d == b / d {
        assert(d * (a / d) == d * (b / d));
        assert(a % d <= b % d);
    }
}

/// A multiple of the divisor is not rounded at all.
proof fn lemma_half_even_exact(n: nat, d: nat)
    requires
        d > 0,
    ensures
        half_even(n * d, d) == n,
{
    vstd::arithmetic::div_mod::lemma_fundamental_div_mod_converse(
        (n * d) as int,
        d as int,
        n as int,
        0,
    );
}

/// Rounding to 53 bits keeps the order of what is rounded.
proof fn lemma_significand_ordered(a: nat, b: nat)
    requires
        a <= b,
    ensures
        significand(a) <= significand(b),
{
    let s = lemma_excess_exists(a);
    let t = lemma_excess_exists(b);
    let d = pow2(s);
    let e = pow2(t);
    lemma_constants();
    lemma_pow2_double(s);
    lemma_pow2_double(t);
    lemma_excess_unique(a, s);
    lemma_excess_unique(b, t);
    if s == t {
        lemma_half_even_ordered(a, b, d);
        assert(half_even(a, d) * d <= half_even(b, d) * d) by (nonlinear_arith)
            requires
                half_even(a, d) <= half_even(b, d),
        ;
    } else if t < s {
        lemma_pow2_order(t, s);
        assert(pow2(53) * e <= pow2(52) * d) by (nonlinear_arith)
            requires
                2 * e <= d,
                pow2(53) == 2 * pow2(52),
        ;
    } else {
        lemma_pow2_order(s, t);
        lemma_half_even_ordered(a, pow2(53) * d, d);
        lemma_half_even_exact(pow2(53), d);
        lemma_half_even_ordered(pow2(52) * e, b, e);
        lemma_half_even_exact(pow2(52), e);
        assert(half_even(a, d) * d <= half_even(b, e) * e) by (nonlinear_arith)
            requires
                half_even(a, d) <= pow2(53),
                pow2(52) <= half_even(b, e),
                2 * d <= e,
                pow2(53) == 2 * pow2(52),
        {
            assert(half_even(a, d) * d <= pow2(53) * d);
            assert(2 * pow2(52) * d <= pow2(52) * e);
            assert(pow2(52) * e <= half_even(b, e) * e);
        }
    }
}

/// Twice a number rounds to twice what the number rounds to.
proof fn lemma_significand_doubles(n: nat)
    ensures
        significand(2 * n) == 2 * significand(n),
{
    let s = lemma_excess_exists(n);
    let d = pow2(s);
    lemma_constants();
    lemma_pow2_double(0);
    lemma_pow2_double(s);
    lemma_excess_unique(n, s);
    if s == 0 {
        lemma_half_even_exact(n, 1);
        if 2 * n < pow2(53) {
            lemma_excess_unique(2 * n, 0);
            lemma_half_even_exact(2 * n, 1);
        } else {
            lemma_excess_unique(2 * n, 1);
            lemma_half_even_exact(n, 2);
        }
    } else {
        assert(pow2(53) * (2 * d) == 2 * (pow2(53) * d)) by (nonlinear_arith);
        assert(pow2(52) * (2 * d) == 2 * (pow2(52) * d)) by (nonlinear_arith);
        lemma_excess_unique(2 * n, s + 1);
        vstd::arithmetic::div_mod::lemma_fundamental_div_mod(n as int, d as int);
        let down = n / d;
        let rest = n % d;
        assert((2 * d) * down == 2 * (d * down)) by (nonlinear_arith);
        assert(down * (2 * d) == (2 * d) * down) by (nonlinear_arith);
        vstd::arithmetic::div_mod::lemma_fundamental_div_mod_converse(
            (2 * n) as int,
            (2 * d) as int,
            down as int,
            (2 * rest) as int,
        );
        assert(half_even(2 * n, 2 * d) == half_even(n, d));
        assert(half_even(n, d) * (2 * d) == 2 * (half_even(n, d) * d)) by (nonlinear_arith);
    }
}

/// Of two shares over the same power of two, the larger gives no fewer pixels.
proof fn lemma_product_ordered(side: nat, m: nat, n: nat, k: nat)
    requires
        m <= n,
    ensures
        nearest_product(side, m, k) <= nearest_product(side, n, k),
{
    lemma_pow2_double(k);
    assert(side * m <= side * n) by (nonlinear_arith)
        requires
            m <= n,
    ;
    lemma_significand_ordered(side * m, side * n);
    vstd::arithmetic::div_mod::lemma_div_is_ordered(
        (2 * significand(side * m) + pow2(k)) as int,
        (2 * significand(side * n) + pow2(k)) as int,
        (2 * pow2(k)) as int,
    );
}

/// A share gives the same pixels however it is written.
proof fn lemma_product_halved(side: nat, m: nat, k: nat)
    ensures
        nearest_product(side, 2 * m, k + 1) == nearest_product(side, m, k),
{
    let r = significand(side * m);
    let unit = pow2(k);
    lemma_pow2_double(k);
    assert(side * (2 * m) == 2 * (side * m)) by (nonlinear_arith);
    lemma_significand_doubles(side * m);
    vstd::arithmetic::div_mod::lemma_fundamental_div_mod((2 * r + unit) as int, (2 * unit) as int);
    let q = (2 * r + unit) / (2 * unit);
    let rest = (2 * r + unit) % (2 * unit);
    assert((4 * unit) * q == 2 * ((2 * unit) * q)) by (nonlinear_arith);
    assert(q * (4 * unit) == (4 * unit) * q) by (nonlinear_arith);
    vstd::arithmetic::div_mod::lemma_fundamental_div_mod_converse(
        (2 * (2 * r) + 2 * unit) as int,
        (2 * (2 * unit)) as int,
        q as int,
        (2 * rest) as int,
    );
}

/// Of two shares over different powers of two, the larger gives no fewer pixels.
proof fn lemma_product_ordered_apart(side: nat, m: nat, k: nat, n: nat, l: nat)
    requires
        m <= pow2(53),
        pow2(52) <= n,
        l < k,
    ensures
        nearest_product(side, m, k) <= nearest_product(side, n, l),
    decreases k,
{
    lemma_constants();
    lemma_product_ordered(side, m, pow2(53), k);
    lemma_product_halved(side, pow2(52), (k - 1) as nat);
    if l == k - 1 {
        lemma_product_ordered(side, pow2(52), n, l);
    } else {
        lemma_product_ordered_apart(side, pow2(52), (k - 1) as nat, n, l);
    }
}

/// Of two values, the larger has the larger share of every side.
pub proof fn lemma_shares_ordered(a: Double, b: Double, side: nat)
    requires
        a.at_most(b),
        side <= u32::MAX,
    ensures
        a.share_of(side) <= b.share_of(side),
{
    lemma_constants();
    if a.negative() || a.is_zero() {
    } else if a.exponent() >= 1023 {
        assert(b.exponent() >= 1023);
    } else if b.exponent() >= 1023 {
        let unit = pow2(a.shift());
        let share = a.share_of(side);
        lemma_share_is_near(a, side);
        lemma_below_one(a);
        assert(share <= side) by (nonlinear_arith)
            requires
                share * unit < side * a.mantissa() + unit,
                a.mantissa() < unit,
        {
            assert(side * a.mantissa() <= side * unit);
            if share > side {
                assert((side + 1) * unit <= share * unit);
            }
        }
    } else if a.shift() == b.shift() {
        assert(a.mantissa() <= b.mantissa());
        lemma_product_ordered(side, a.mantissa(), b.mantissa(), a.shift());
    } else {
        assert(b.shift() < a.shift());
        lemma_product_ordered_apart(side, a.mantissa(), a.shift(), b.mantissa(), b.shift());
    }
}

/// The other sign leaves the rest of a value as it is.
pub proof fn lemma_opposite(x: Double)
    ensures
        x.opposite().negative() == !x.negative(),
        x.opposite().exponent() == x.exponent(),
        x.opposite().fraction() == x.fraction(),
        x.opposite().opposite() == x,
{
}

/// A number whose odd part has at most 53 bits is not rounded at all.
proof fn lemma_significand_exact(a: nat, b: nat)
    requires
        a < pow2(53),
    ensures
        significand(a * pow2(b)) == a * pow2(b),
    decreases b,
{
    lemma_constants();
    if b == 0 {
        assert(is_excess(a, 0));
        lemma_excess_unique(a, 0);
        lemma_half_even_exact(a, 1);
    } else {
        let c = (b - 1) as nat;
        lemma_pow2_double(c);
        lemma_significand_exact(a, c);
        lemma_significand_doubles(a * pow2(c));
        assert(a * (2 * pow2(c)) == 2 * (a * pow2(c))) by (nonlinear_arith);
    }
}

/// How far a number moves when it is rounded to 53 bits: at most half of its
/// 2^52th part.
proof fn lemma_significand_near(n: nat)
    ensures
        pow2(53) * significand(n) <= pow2(53) * n + n,
        pow2(53) * n <= pow2(53) * significand(n) + n,
{
    let s = lemma_excess_exists(n);
    let step = pow2(s);
    lemma_constants();
    lemma_pow2_double(s);
    lemma_excess_unique(n, s);
    lemma_half_even_near(n, step);
    if s == 0 {
        lemma_half_even_exact(n, 1);
    }
}

/// A share of a side is rounded to the nearest pixel: it is at most half a pixel
/// away from its exact place, but for what 53 bits cannot hold of it.
pub proof fn lemma_share_is_nearest(x: Double, side: nat)
    requires
        !x.negative(),
        x.exponent() < 1023,
    ensures
        ({
            let exact = side * x.mantissa();
            let unit = pow2(x.shift());
            let place = x.share_of(side) * unit;
            &&& pow2(52) * (2 * (place - exact) - unit) <= exact
            &&& pow2(52) * (2 * (exact - place) - unit) <= exact
        }),
{
    let m = x.mantissa();
    let k = x.shift();
    let unit = pow2(k);
    let exact = side * m;
    let n = x.share_of(side);
    lemma_constants();
    lemma_pow2_double(k);
    if x.is_zero() {
        assert(exact == 0) by (nonlinear_arith)
            requires
                exact == side * m,
                m == 0,
        ;
        assert(n * unit == 0) by (nonlinear_arith)
            requires
                n == 0,
        ;
    } else {
        let r = significand(exact);
        lemma_significand_near(exact);
        vstd::arithmetic::div_mod::lemma_fundamental_div_mod(
            (2 * r + unit) as int,
            (2 * unit) as int,
        );
        assert(2 * unit * n == 2 * (n * unit)) by (nonlinear_arith);
        assert(2 * (n * unit) <= 2 * r + unit < 2 * (n * unit) + 2 * unit);
    }
}

/// A share that falls between two pixels exactly goes to the higher one.
pub proof fn lemma_halves_go_up(x: Double, side: nat, j: nat)
    requires
        side <= u32::MAX,
        !x.negative(),
        x.exponent() < 1023,
        2 * (side * x.mantissa()) == (2 * j + 1) * pow2(x.shift()),
    ensures
        x.share_of(side) == j + 1,
{
    let m = x.mantissa();
    let k = x.shift();
    let unit = pow2(k);
    let half = pow2((k - 1) as nat);
    let odd = 2 * j + 1;
    lemma_constants();
    lemma_below_one(x);
    lemma_pow2_double((k - 1) as nat);
    assert(odd * unit == 2 * (odd * half)) by (nonlinear_arith)
        requires
            unit == 2 * half,
    ;
    assert(odd <= 2 * side) by (nonlinear_arith)
        requires
            2 * (side * m) == odd * unit,
            m < unit,
    {
        assert(side * m <= side * unit);
        if odd > 2 * side {
            assert((2 * side + 1) * unit <= odd * unit);
            assert(2 * (side * unit) + unit == (2 * side + 1) * unit);
        }
    }
    if x.is_zero() {
        assert(side * m == 0) by (nonlinear_arith)
            requires
                m == 0,
        ;
        assert(odd * unit > 0) by (nonlinear_arith)
            requires
                odd > 0,
                unit > 0,
        ;
    }
    lemma_significand_exact(odd, (k - 1) as nat);
    assert(side * m == odd * half);
    assert((j + 1) * (2 * unit) == odd * unit + unit) by (nonlinear_arith)
        requires
            odd == 2 * j + 1,
    ;
    vstd::arithmetic::div_mod::lemma_fundamental_div_mod_converse(
        (2 * (odd * half) + unit) as int,
        (2 * unit) as int,
        (j + 1) as int,
        0,
    );
}

/// A value from 1 up to 2^39 has a hundredth in 53 bits.
proof fn lemma_hundredth_exists(x: Double) -> (q: (nat, nat))
    requires
        1023 <= x.exponent() < 1062,
    ensures
        is_quotient(x.mantissa(), 100 * pow2(x.shift()), q.0, q.1),
        quotient(x.mantissa(), 100 * pow2(x.shift())) == q,
{
    let p = x.mantissa();
    let d = 100 * pow2(x.shift());
    lemma_constants();
    lemma_pow2_double(x.shift());
    assert(p * pow2(0) < pow2(53) * d) by (nonlinear_arith)
        requires
            p < pow2(53),
            pow2(0) == 1,
            d >= 1,
    ;
    let k = lemma_shift_exists(p, d, 0);
    let q = (half_even(p * pow2(k), d), k);
    lemma_quotient_unique(p, d, q.0, q.1);
    q
}

/// A hundredth is rounded to the nearest whole number: it is at most one half
/// away from its exact value, but for what 53 bits cannot hold of it.
pub proof fn lemma_hundredth_is_nearest(x: Double)
    requires
        1023 <= x.exponent() < 1062,
    ensures
        ({
            let exact = x.mantissa();
            let hundred = 100 * pow2(x.shift());
            let place = x.hundredth() * hundred;
            &&& pow2(52) * (2 * (place - exact) - hundred) <= exact
            &&& pow2(52) * (2 * (exact - place) - hundred) <= exact
        }),
{
    let p = x.mantissa();
    let d = 100 * pow2(x.shift());
    let q = lemma_hundredth_exists(x);
    let m = q.0;
    let unit = pow2(q.1);
    let n = x.hundredth();
    lemma_constants();
    lemma_pow2_double(x.shift());
    lemma_pow2_double(q.1);
    lemma_half_even_near(p * unit, d);
    vstd::arithmetic::div_mod::lemma_fundamental_div_mod((2 * m + unit) as int, (2 * unit) as int);
    assert(2 * unit * n == 2 * (n * unit)) by (nonlinear_arith);
    assert(2 * (n * unit) <= 2 * m + unit < 2 * (n * unit) + 2 * unit);
    let place = n * d;
    // everything over the same denominator, `unit`
    assert(2 * (place * unit) <= 2 * (m * d) + unit * d) by (nonlinear_arith)
        requires
            2 * (n * unit) <= 2 * m + unit,
            place == n * d,
    {
        assert((2 * (n * unit)) * d <= (2 * m + unit) * d);
    }
    assert(2 * (m * d) <= 2 * (place * unit) + unit * d) by (nonlinear_arith)
        requires
            2 * m <= 2 * (n * unit) + unit,
            place == n * d,
    {
        assert((2 * m) * d <= (2 * (n * unit) + unit) * d);
    }
    // the quotient is off by half of what its last bit is worth
    assert(2 * (place * unit) <= 2 * (p * unit) + d + unit * d);
    assert(2 * (p * unit) <= 2 * (place * unit) + d + unit * d);
    assert(pow2(52) * d <= p * unit);
    assert(pow2(52) * (2 * (place - p) - d) <= p) by (nonlinear_arith)
        requires
            2 * (place * unit) <= 2 * (p * unit) + d + unit * d,
            pow2(52) * d <= p * unit,
            unit > 0,
    {
        assert((2 * (place - p) - d) * unit <= d);
        assert(pow2(52) * ((2 * (place - p) - d) * unit) <= pow2(52) * d);
        assert((pow2(52) * (2 * (place - p) - d)) * unit <= p * unit);
    }
    assert(pow2(52) * (2 * (p - place) - d) <= p) by (nonlinear_arith)
        requires
            2 * (p * unit) <= 2 * (place * unit) + d + unit * d,
            pow2(52) * d <= p * unit,
            unit > 0,
    {
        assert((2 * (p - place) - d) * unit <= d);
        assert(pow2(52) * ((2 * (p - place) - d) * unit) <= pow2(52) * d);
        assert((pow2(52) * (2 * (p - place) - d)) * unit <= p * unit);
    }
}

/// A hundredth that falls between two whole numbers exactly goes to the higher
/// one.
pub proof fn lemma_hundredth_halves_go_up(x: Double, j: nat)
    requires
        1023 <= x.exponent() < 1062,
        2 * x.mantissa() == (2 * j + 1) * (100 * pow2(x.shift())),
    ensures
        x.hundredth() == j + 1,
{
    let p = x.mantissa();
    let d = 100 * pow2(x.shift());
    let odd = 2 * j + 1;
    let q = lemma_hundredth_exists(x);
    let k = q.1;
    let unit = pow2(k);
    lemma_constants();
    lemma_pow2_double(x.shift());
    lemma_pow2_double(k);
    assert(odd < pow2(52)) by (nonlinear_arith)
        requires
            2 * p == odd * d,
            p < pow2(53),
            d >= 100,
            pow2(53) == 2 * pow2(52),
            odd >= 1,
    {
        assert(odd * 100 <= odd * d);
    }
    if k == 0 {
        assert(false) by (nonlinear_arith)
            requires
                pow2(52) * d <= p * unit,
                unit == 1,
                2 * p == odd * d,
                odd < pow2(52),
                d >= 100,
        {
            assert(odd * d < pow2(52) * d);
            assert(2 * (pow2(52) * d) <= odd * d);
        }
    }
    let half = pow2((k - 1) as nat);
    lemma_pow2_double((k - 1) as nat);
    assert(p * unit == (odd * half) * d) by (nonlinear_arith)
        requires
            2 * p == odd * d,
            unit == 2 * half,
    ;
    lemma_half_even_exact(odd * half, d);
    assert((j + 1) * (2 * unit) == 2 * (odd * half) + unit) by (nonlinear_arith)
        requires
            odd == 2 * j + 1,
            unit == 2 * half,
    ;
    vstd::arithmetic::div_mod::lemma_fundamental_div_mod_converse(
        (2 * (odd * half) + unit) as int,
        (2 * unit) as int,
        (j + 1) as int,
        0,
    );
}

/// A side that is scaled by a ratio comes out at the nearest whole number: it is
/// at most half a pixel, and a little for what 53 bits cannot hold, away from
/// its exact length.
pub proof fn lemma_scaled_is_nearest(side: nat, p: nat, q: nat, limit: nat)
    requires
        0 < q <= u32::MAX,
        side <= u32::MAX,
        limit <= u32::MAX,
        side * p <= limit * q,
        is_quotient(p, q, quotient(p, q).0, quotient(p, q).1),
    ensures
        ({
            let n = nearest_product(side, quotient(p, q).0, quotient(p, q).1);
            &&& 0x4_0000 * (2 * (n * q) - 2 * (side * p) - q) <= q
            &&& 0x4_0000 * (2 * (side * p) - 2 * (n * q) - q) <= q
        }),
{
    let m = quotient(p, q).0;
    let k = quotient(p, q).1;
    let unit = pow2(k);
    let r = significand(side * m);
    let n = (2 * r + unit) / (2 * unit);
    let exact = (side * p) * unit;
    lemma_pow2_double(k);
    lemma_product_error(side, p, q, limit);
    vstd::arithmetic::div_mod::lemma_fundamental_div_mod((2 * r + unit) as int, (2 * unit) as int);
    assert(2 * unit * n <= 2 * r + unit < 2 * unit * n + 2 * unit);
    assert(0x4_0000 * (2 * (n * q) - 2 * (side * p) - q) <= q) by (nonlinear_arith)
        requires
            2 * unit * n <= 2 * r + unit,
            0x4_0000 * (2 * (r * q) - 2 * exact) <= unit * q,
            exact == (side * p) * unit,
            unit > 0,
    {
        assert((2 * unit * n) * q <= (2 * r + unit) * q);
        assert((2 * (n * q) - 2 * (side * p) - q) * unit <= 2 * (r * q) - 2 * exact);
        assert((0x4_0000 * (2 * (n * q) - 2 * (side * p) - q)) * unit <= q * unit);
    }
    assert(0x4_0000 * (2 * (side * p) - 2 * (n * q) - q) <= q) by (nonlinear_arith)
        requires
            2 * r + unit <= 2 * unit * n + 2 * unit,
            0x4_0000 * (2 * exact - 2 * (r * q)) <= unit * q,
            exact == (side * p) * unit,
            unit > 0,
    {
        assert((2 * r + unit) * q <= (2 * unit * n + 2 * unit) * q);
        assert((2 * (side * p) - 2 * (n * q) - q) * unit <= 2 * exact - 2 * (r * q));
        assert((0x4_0000 * (2 * (side * p) - 2 * (n * q) - q)) * unit <= q * unit);
    }
}

/// What a bit pattern stands for: the sign comes first, then eleven bits of the
/// exponent and 52 of the significand. The value is `mantissa / 2^shift`; the
/// significand has a leading one but for the numbers nearest to zero.
pub proof fn law_bit_patterns(x: Double)
    ensures
        x.bits == (if x.negative() {
            0x8000_0000_0000_0000int
        } else {
            0
        }) + 0x10_0000_0000_0000 * x.exponent() + x.fraction(),
        x.exponent() < 2048,
        x.fraction() < 0x10_0000_0000_0000,
        x.exponent() == 0 ==> x.mantissa() == x.fraction() && x.shift() == 1074,
        x.exponent() > 0 ==> x.mantissa() == x.fraction() + 0x10_0000_0000_0000,
        0 < x.exponent() <= 1075 ==> x.shift() + x.exponent() == 1075,
        x.is_nan() <==> x.exponent() == 2047 && x.fraction() > 0,
        x.is_zero() <==> x.bits == 0 || x.bits == 0x8000_0000_0000_0000,
{
}

} // verus!
