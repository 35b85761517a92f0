//! Saturating 48.16 fixed-point scalar arithmetic.
//!
//! A scalar is stored as a raw `i64`; its mathematical value is
//! `raw / SCALE` with `SCALE == 2^16`. Every operation saturates at the
//! `i64` bounds instead of overflowing, so all operations are total and
//! each has an exact specification over the raw integers.

use vstd::prelude::*;

verus! {

/// Number of raw units per 1.0.
pub const SCALE: i64 = 65536;

/// A fixed-point scalar; the value it denotes is `raw / SCALE`.
#[derive(Clone, Copy, PartialEq, Eq, Structural, Debug)]
pub struct Fx {
    pub raw: i64,
}

/// Saturate a mathematical integer to the `i64` range.
pub open spec fn sat64(x: int) -> int {
    if x > i64::MAX {
        i64::MAX as int
    } else if x < i64::MIN {
        i64::MIN as int
    } else {
        x
    }
}

/// Absolute value of a mathematical integer.
pub open spec fn iabs(x: int) -> int {
    if x < 0 {
        -x
    } else {
        x
    }
}

/// Division truncating toward zero; `d` must be positive.
pub open spec fn tdiv(a: int, d: int) -> int {
    if a >= 0 {
        a / d
    } else {
        -((-a) / d)
    }
}

/// Raw result of fixed-point addition.
pub open spec fn fx_add(a: int, b: int) -> int {
    sat64(a + b)
}

/// Raw result of fixed-point subtraction.
pub open spec fn fx_sub(a: int, b: int) -> int {
    sat64(a - b)
}

/// Raw result of fixed-point negation.
pub open spec fn fx_neg(a: int) -> int {
    sat64(-a)
}

/// Raw result of fixed-point multiplication: the full product rescaled
/// by `SCALE`, truncated toward zero, then saturated.
pub open spec fn fx_mul(a: int, b: int) -> int {
    sat64(tdiv(a * b, SCALE as int))
}

/// Raw result of fixed-point division. Division by zero is defined as
/// zero (degenerate inputs produce a sentinel rather than a crash).
pub open spec fn fx_div(a: int, b: int) -> int {
    if b == 0 {
        0
    } else if (a < 0) != (b < 0) {
        sat64(-((iabs(a) * SCALE as int) / iabs(b)))
    } else {
        sat64((iabs(a) * SCALE as int) / iabs(b))
    }
}

/// `r` is the integer square root of `n`.
pub open spec fn is_sqrt(n: int, r: int) -> bool {
    &&& 0 <= r
    &&& r * r <= n
    &&& n < (r + 1) * (r + 1)
}

/// Integer square root (floor), defined recursively for specification
/// purposes only.
pub closed spec fn sqrt_floor(n: int) -> int
    decreases n,
{
    if n <= 0 {
        0
    } else {
        let p = sqrt_floor(n - 1);
        if (p + 1) * (p + 1) <= n {
            p + 1
        } else {
            p
        }
    }
}

/// `sqrt_floor` meets the integer-square-root characterization.
pub proof fn lemma_sqrt_floor(n: int)
    ensures
        n >= 0 ==> is_sqrt(n, sqrt_floor(n)),
    decreases n,
{
    if n > 0 {
        lemma_sqrt_floor(n - 1);
        let p = sqrt_floor(n - 1);
        if (p + 1) * (p + 1) <= n {
            assert((p + 2) * (p + 2) > (p + 1) * (p + 1)) by (nonlinear_arith)
                requires p >= 0;
        }
    }
}

/// The integer square root is unique.
pub proof fn lemma_sqrt_unique(n: int, r1: int, r2: int)
    requires
        is_sqrt(n, r1),
        is_sqrt(n, r2),
    ensures
        r1 == r2,
{
    if r1 < r2 {
        assert(r2 * r2 >= (r1 + 1) * (r1 + 1)) by (nonlinear_arith)
            requires 0 <= r1, r1 < r2;
    }
    if r2 < r1 {
        assert(r1 * r1 >= (r2 + 1) * (r2 + 1)) by (nonlinear_arith)
            requires 0 <= r2, r2 < r1;
    }
}

/// Raw result of the fixed-point square root: zero for non-positive
/// inputs, else the integer square root of the rescaled raw value.
pub open spec fn fx_sqrt(a: int) -> int {
    if a <= 0 {
        0
    } else {
        sqrt_floor(a * SCALE as int)
    }
}

/// The square root is non-negative and stays in the scalar range for
/// every in-range input.
pub proof fn lemma_fx_sqrt_in_range(a: int)
    requires
        a <= i64::MAX,
    ensures
        0 <= fx_sqrt(a),
        fx_sqrt(a) <= i64::MAX,
{
    if a > 0 {
        lemma_sqrt_floor(a * (SCALE as int));
        let r = sqrt_floor(a * (SCALE as int));
        assert(r * r <= a * 65536);
        assert(r <= i64::MAX) by (nonlinear_arith)
            requires
                r * r <= a * 65536,
                a <= i64::MAX,
                r >= 0;
    }
}

/// Raw value of an eighth of a turn (45 degrees).
pub const EIGHTH_TURN: i64 = 8192;

/// Raw coefficient of the arctangent correction term.
pub const ATAN_CORRECTION: i64 = 2848;

/// Arctangent of a slope in `[0, 1]`, in fractions of a turn:
/// the linear term plus a small symmetric correction.
pub open spec fn atan_frac_s(t: int) -> int {
    fx_add(
        fx_mul(t, EIGHTH_TURN as int),
        fx_mul(fx_mul(t, fx_sub(SCALE as int, t)), ATAN_CORRECTION as int),
    )
}

/// Four-quadrant arctangent in fractions of a turn, in `[-1/2, 1/2]`.
/// Both arguments zero (a degenerate direction) yield zero.
pub open spec fn atan2_turns_s(y: int, x: int) -> int {
    let ax = iabs(x);
    let ay = iabs(y);
    if ax == 0 && ay == 0 {
        0
    } else {
        let base = if ay <= ax {
            atan_frac_s(fx_div(ay, ax))
        } else {
            fx_sub(16384, atan_frac_s(fx_div(ax, ay)))
        };
        if x >= 0 && y >= 0 {
            base
        } else if x < 0 && y >= 0 {
            fx_sub(32768, base)
        } else if x < 0 {
            fx_sub(base, 32768)
        } else {
            fx_neg(base)
        }
    }
}

/// Saturate a signed 128-bit sum to the scalar range.
fn sat_i128(s: i128) -> (r: Fx)
    ensures
        r.raw as int == sat64(s as int),
{
    if s > i64::MAX as i128 {
        Fx { raw: i64::MAX }
    } else if s < i64::MIN as i128 {
        Fx { raw: i64::MIN }
    } else {
        Fx { raw: s as i64 }
    }
}

/// Saturate a sign/magnitude pair to the scalar range.
fn sat_signed(neg: bool, q: u128) -> (r: Fx)
    ensures
        r.raw as int == sat64(if neg { -(q as int) } else { q as int }),
{
    if neg {
        if q >= 9223372036854775808u128 {
            Fx { raw: i64::MIN }
        } else {
            Fx { raw: -(q as i64) }
        }
    } else {
        if q > i64::MAX as u128 {
            Fx { raw: i64::MAX }
        } else {
            Fx { raw: q as i64 }
        }
    }
}

/// Magnitude of an `i64` as a `u128`.
fn abs_u128(x: i64) -> (r: u128)
    ensures
        r as int == iabs(x as int),
{
    let w: i128 = x as i128;
    if w < 0 {
        (-w) as u128
    } else {
        w as u128
    }
}

/// Integer square root of a 128-bit value by binary search.
fn isqrt_u128(n: u128) -> (r: u64)
    requires
        (n as int) < 0x40000000000000000000000000000000,
    ensures
        r as int == sqrt_floor(n as int),
        is_sqrt(n as int, r as int),
{
    let mut lo: u64 = 0;
    let mut hi: u64 = 0x8000000000000000;
    proof {
        assert((hi as int) * (hi as int) == 0x40000000000000000000000000000000) by (nonlinear_arith)
            requires hi == 0x8000000000000000u64;
    }
    while lo + 1 < hi
        invariant
            (lo as int) * (lo as int) <= n as int,
            (n as int) < (hi as int) * (hi as int),
            lo < hi,
            hi <= 0x8000000000000000,
        decreases hi - lo,
    {
        let mid: u64 = lo + (hi - lo) / 2;
        proof {
            assert((mid as int) * (mid as int) <= 0x40000000000000000000000000000000) by (nonlinear_arith)
                requires mid <= 0x8000000000000000u64;
        }
        let sq: u128 = (mid as u128) * (mid as u128);
        if sq <= n {
            lo = mid;
        } else {
            hi = mid;
        }
    }
    proof {
        lemma_sqrt_floor(n as int);
        lemma_sqrt_unique(n as int, lo as int, sqrt_floor(n as int));
    }
    lo
}

impl Fx {
    /// The scalar with the given raw representation.
    pub fn new(raw: i64) -> (r: Fx)
        ensures
            r.raw == raw,
    {
        Fx { raw }
    }

    /// The scalar 0.
    pub fn zero() -> (r: Fx)
        ensures
            r.raw == 0,
    {
        Fx { raw: 0 }
    }

    /// The scalar 1.
    pub fn one() -> (r: Fx)
        ensures
            r.raw == SCALE,
    {
        Fx { raw: SCALE }
    }

    /// The scalar denoting the integer `n`, saturated to range.
    pub fn from_int(n: i64) -> (r: Fx)
        ensures
            r.raw as int == sat64(n * SCALE),
    {
        proof {
            assert(iabs((n as int) * (SCALE as int)) <= 0x80000000000000000000) by (nonlinear_arith)
                requires -0x8000000000000000 <= n as int <= 0x7fffffffffffffff;
        }
        sat_i128((n as i128) * (SCALE as i128))
    }

    /// Saturating addition.
    pub fn add(self, o: Fx) -> (r: Fx)
        ensures
            r.raw as int == fx_add(self.raw as int, o.raw as int),
    {
        sat_i128((self.raw as i128) + (o.raw as i128))
    }

    /// Saturating subtraction.
    pub fn sub(self, o: Fx) -> (r: Fx)
        ensures
            r.raw as int == fx_sub(self.raw as int, o.raw as int),
    {
        sat_i128((self.raw as i128) - (o.raw as i128))
    }

    /// Saturating negation.
    pub fn neg(self) -> (r: Fx)
        ensures
            r.raw as int == fx_neg(self.raw as int),
    {
        sat_i128(-(self.raw as i128))
    }

    /// Saturating fixed-point multiplication.
    pub fn mul(self, o: Fx) -> (r: Fx)
        ensures
            r.raw as int == fx_mul(self.raw as int, o.raw as int),
    {
        proof {
            assert(iabs((self.raw as int) * (o.raw as int)) <= 0x40000000000000000000000000000000)
                by (nonlinear_arith)
                requires
                    -0x8000000000000000 <= self.raw as int <= 0x7fffffffffffffff,
                    -0x8000000000000000 <= o.raw as int <= 0x7fffffffffffffff;
        }
        let p: i128 = (self.raw as i128) * (o.raw as i128);
        let neg = p < 0;
        let m: u128 = if neg {
            (-p) as u128
        } else {
            p as u128
        };
        let q: u128 = m / 65536;
        proof {
            if p >= 0 {
                assert(q as int == tdiv((self.raw as int) * (o.raw as int), SCALE as int));
            } else {
                assert(q as int == -tdiv((self.raw as int) * (o.raw as int), SCALE as int));
            }
        }
        sat_signed(neg, q)
    }

    /// Saturating fixed-point division; division by zero yields zero.
    pub fn div(self, o: Fx) -> (r: Fx)
        ensures
            r.raw as int == fx_div(self.raw as int, o.raw as int),
    {
        if o.raw == 0 {
            return Fx { raw: 0 };
        }
        let neg = (self.raw < 0) != (o.raw < 0);
        let na = abs_u128(self.raw);
        let nb = abs_u128(o.raw);
        let q: u128 = (na * 65536) / nb;
        sat_signed(neg, q)
    }

    /// Fixed-point square root; non-positive inputs yield zero.
    pub fn sqrt(self) -> (r: Fx)
        ensures
            r.raw as int == fx_sqrt(self.raw as int),
    {
        if self.raw <= 0 {
            return Fx { raw: 0 };
        }
        let n: u128 = (self.raw as u128) * 65536;
        let r = isqrt_u128(n);
        proof {
            assert(is_sqrt(n as int, r as int));
            assert((r as int) * (r as int) <= n as int);
            assert(r as int <= i64::MAX) by (nonlinear_arith)
                requires
                    (r as int) * (r as int) <= n as int,
                    n as int <= 0x7fffffffffffffff0000,
                    r >= 0;
        }
        Fx { raw: r as i64 }
    }

    /// Strictly less than.
    pub fn lt(self, o: Fx) -> (r: bool)
        ensures
            r == (self.raw < o.raw),
    {
        self.raw < o.raw
    }

    /// Less than or equal.
    pub fn le(self, o: Fx) -> (r: bool)
        ensures
            r == (self.raw <= o.raw),
    {
        self.raw <= o.raw
    }

    /// True when the value is exactly zero.
    pub fn is_zero(self) -> (r: bool)
        ensures
            r == (self.raw == 0),
    {
        self.raw == 0
    }
}

/// Quotient of two non-negative magnitudes as a fixed-point scalar.
fn div_mag(na: u128, nb: u128) -> (r: Fx)
    requires
        nb > 0,
        na <= 0x8000000000000000,
        nb <= 0x8000000000000000,
    ensures
        r.raw as int == fx_div(na as int, nb as int),
{
    let q: u128 = (na * 65536) / nb;
    sat_signed(false, q)
}

/// Arctangent of a slope in `[0, 1]`, in fractions of a turn.
fn atan_frac(t: Fx) -> (r: Fx)
    ensures
        r.raw as int == atan_frac_s(t.raw as int),
{
    let lin = t.mul(Fx { raw: EIGHTH_TURN });
    let cor = t.mul(Fx { raw: SCALE }.sub(t)).mul(Fx { raw: ATAN_CORRECTION });
    lin.add(cor)
}

/// Four-quadrant arctangent in fractions of a turn.
pub fn atan2_turns(y: Fx, x: Fx) -> (r: Fx)
    ensures
        r.raw as int == atan2_turns_s(y.raw as int, x.raw as int),
{
    let ay = abs_u128(y.raw);
    let ax = abs_u128(x.raw);
    if ax == 0 && ay == 0 {
        return Fx { raw: 0 };
    }
    let base: Fx = if ay <= ax {
        atan_frac(div_mag(ay, ax))
    } else {
        Fx { raw: 16384 }.sub(atan_frac(div_mag(ax, ay)))
    };
    if x.raw >= 0 && y.raw >= 0 {
        base
    } else if x.raw < 0 && y.raw >= 0 {
        Fx { raw: 32768 }.sub(base)
    } else if x.raw < 0 {
        base.sub(Fx { raw: 32768 })
    } else {
        base.neg()
    }
}

} // verus!
