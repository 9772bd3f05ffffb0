//! The scalar type of the renderer: a signed binary fixed-point number.
//!
//! Every quantity the renderer computes with (coordinates, colors, angles,
//! reflectance terms) is an `Fx`: an `i64` holding the value scaled by
//! `SCALE`, so 32 bits of the word are fractional.  All operations are
//! total: results outside the representable range saturate, and a divisor
//! of zero yields zero, the documented graceful-degradation policy for
//! numerically degenerate scenes.  Each operation's contract states its
//! result exactly, as integer arithmetic on the raw words.

use vstd::prelude::*;

verus! {

/// Number of raw units in one: scalars carry 32 fractional bits.
pub const SCALE: i64 = 4294967296;

/// A fixed-point scalar; the value represented is `raw / SCALE`.
#[derive(Clone, Copy, Debug, PartialEq, Eq, Structural)]
pub struct Fx {
    pub raw: i64,
}

/// Clamp a mathematical integer into the range of an `i64`.
pub open spec fn sat64(x: int) -> int {
    if x > i64::MAX as int {
        i64::MAX as int
    } else if x < i64::MIN as int {
        i64::MIN as int
    } else {
        x
    }
}

pub open spec fn abs_i(x: int) -> int {
    if x < 0 {
        -x
    } else {
        x
    }
}

/// Quotient rounded toward zero, as machine integer division computes it.
pub open spec fn quot(n: int, d: int) -> int {
    if (n < 0) == (d < 0) {
        abs_i(n) / abs_i(d)
    } else {
        -(abs_i(n) / abs_i(d))
    }
}

/// Largest `r >= 0` with `r * r <= n` (zero for negative `n`).
pub open spec fn sqrt_floor(n: int) -> int
    decreases n,
{
    if n < 1 {
        0
    } else {
        let r = 2 * sqrt_floor(n / 4);
        if (r + 1) * (r + 1) <= n {
            r + 1
        } else {
            r
        }
    }
}

/// `sqrt_floor` satisfies its defining bracket.
pub proof fn lemma_sqrt_floor_correct(n: int)
    requires
        n >= 0,
    ensures
        ({
            let r = sqrt_floor(n);
            0 <= r && r * r <= n && n < (r + 1) * (r + 1)
        }),
    decreases n,
{
    if n < 1 {
        assert(sqrt_floor(n) == 0);
    } else {
        lemma_sqrt_floor_correct(n / 4);
        let r0 = sqrt_floor(n / 4);
        assert(n == 4 * (n / 4) + n % 4);
        assert((2 * r0) * (2 * r0) <= n) by (nonlinear_arith)
            requires
                r0 * r0 <= n / 4,
                n == 4 * (n / 4) + n % 4,
                n % 4 >= 0,
        ;
        assert(n < (2 * r0 + 2) * (2 * r0 + 2)) by (nonlinear_arith)
            requires
                n / 4 < (r0 + 1) * (r0 + 1),
                n == 4 * (n / 4) + n % 4,
                n % 4 < 4,
        ;
    }
}

/// The bracket `r * r <= n < (r + 1) * (r + 1)` pins the square root down.
pub proof fn lemma_sqrt_floor_unique(n: int, r: int)
    requires
        n >= 0,
        r >= 0,
        r * r <= n,
        n < (r + 1) * (r + 1),
    ensures
        sqrt_floor(n) == r,
{
    lemma_sqrt_floor_correct(n);
    let s = sqrt_floor(n);
    if s < r {
        assert((s + 1) * (s + 1) <= r * r) by (nonlinear_arith)
            requires
                0 <= s,
                s + 1 <= r,
        ;
    }
    if r < s {
        assert((r + 1) * (r + 1) <= s * s) by (nonlinear_arith)
            requires
                0 <= r,
                r + 1 <= s,
        ;
    }
}

fn sat_i64(x: i128) -> (r: i64)
    ensures
        r as int == sat64(x as int),
{
    if x > i64::MAX as i128 {
        i64::MAX
    } else if x < i64::MIN as i128 {
        i64::MIN
    } else {
        x as i64
    }
}

fn isqrt_u128(n: u128) -> (r: u128)
    ensures
        (r as int) * (r as int) <= n as int,
        (n as int) < (r + 1) * (r + 1),
{
    let mut lo: u128 = 0;
    let mut hi: u128 = 18446744073709551616;
    while hi - lo > 1
        invariant
            lo < hi <= 18446744073709551616u128,
            (lo as int) * (lo as int) <= n as int,
            (n as int) < (hi as int) * (hi as int),
        decreases hi - lo,
    {
        let mid: u128 = lo + (hi - lo) / 2;
        proof {
            assert((mid as int) * (mid as int) < 0x100000000000000000000000000000000int)
                by (nonlinear_arith)
                requires
                    mid as int <= 18446744073709551615int,
            ;
        }
        if mid * mid <= n {
            lo = mid;
        } else {
            hi = mid;
        }
    }
    lo
}

impl Fx {
    /// The scalar with the given raw word.
    pub fn from_raw(raw: i64) -> (r: Fx)
        ensures
            r.raw == raw,
    {
        Fx { raw }
    }

    /// The scalar representing zero.
    pub fn zero() -> (r: Fx)
        ensures
            r == Fx::zero_v(),
    {
        Fx { raw: 0 }
    }

    pub open spec fn zero_v() -> Fx {
        Fx { raw: 0 }
    }

    /// The scalar representing one.
    pub fn one() -> (r: Fx)
        ensures
            r == Fx::one_v(),
    {
        Fx { raw: SCALE }
    }

    pub open spec fn one_v() -> Fx {
        Fx { raw: SCALE }
    }

    /// The scalar representing the given small integer.
    pub fn from_int(v: i32) -> (r: Fx)
        ensures
            r == Fx::from_int_v(v as int),
    {
        Fx { raw: (v as i64) * SCALE }
    }

    pub open spec fn from_int_v(v: int) -> Fx {
        Fx { raw: sat64(v * SCALE) as i64 }
    }

    /// The scalar representing the given count, saturating at the top.
    pub fn from_usize(v: usize) -> (r: Fx)
        ensures
            r == Fx::from_int_v(v as int),
    {
        proof {
            assert((v as int) * (SCALE as int) <= 0x80000000000000000000000000000000int)
                by (nonlinear_arith)
                requires
                    0 <= v as int <= 0xffffffffffffffffint,
            ;
        }
        let w: u128 = (v as u128) * (SCALE as u128);
        if w > i64::MAX as u128 {
            Fx { raw: i64::MAX }
        } else {
            Fx { raw: w as i64 }
        }
    }

    pub open spec fn wrap(x: int) -> Fx {
        Fx { raw: sat64(x) as i64 }
    }

    pub open spec fn add_v(self, o: Fx) -> Fx {
        Fx::wrap(self.raw + o.raw)
    }

    /// Saturating fixed-point addition.
    pub fn add(self, o: Fx) -> (r: Fx)
        ensures
            r == self.add_v(o),
    {
        let s: i128 = self.raw as i128 + o.raw as i128;
        Fx { raw: sat_i64(s) }
    }

    pub open spec fn sub_v(self, o: Fx) -> Fx {
        Fx::wrap(self.raw - o.raw)
    }

    /// Saturating fixed-point subtraction.
    pub fn sub(self, o: Fx) -> (r: Fx)
        ensures
            r == self.sub_v(o),
    {
        let s: i128 = self.raw as i128 - o.raw as i128;
        Fx { raw: sat_i64(s) }
    }

    pub open spec fn neg_v(self) -> Fx {
        Fx::wrap(-(self.raw as int))
    }

    /// Saturating negation.
    pub fn neg(self) -> (r: Fx)
        ensures
            r == self.neg_v(),
    {
        let s: i128 = -(self.raw as i128);
        Fx { raw: sat_i64(s) }
    }

    pub open spec fn mul_v(self, o: Fx) -> Fx {
        Fx::wrap(quot(self.raw * o.raw, SCALE as int))
    }

    /// Fixed-point multiplication: the exact product, rescaled with the
    /// quotient rounded toward zero, then saturated.
    pub fn mul(self, o: Fx) -> (r: Fx)
        ensures
            r == self.mul_v(o),
    {
        let a: i128 = self.raw as i128;
        let b: i128 = o.raw as i128;
        proof {
            assert((a as int) * (b as int) <= 0x40000000000000000000000000000000int
                && (a as int) * (b as int) >= -0x40000000000000000000000000000000int)
                by (nonlinear_arith)
                requires
                    -0x8000000000000000int <= a as int <= 0x7fffffffffffffffint,
                    -0x8000000000000000int <= b as int <= 0x7fffffffffffffffint,
            ;
        }
        let p: i128 = a * b;
        let q: i128 = p / (SCALE as i128);
        Fx { raw: sat_i64(q) }
    }

    pub open spec fn div_v(self, o: Fx) -> Fx {
        if o.raw == 0 {
            Fx { raw: 0 }
        } else {
            Fx::wrap(quot(self.raw * SCALE, o.raw as int))
        }
    }

    /// Fixed-point division, rounded toward zero and saturated; a divisor
    /// of zero yields zero.
    pub fn div(self, o: Fx) -> (r: Fx)
        ensures
            r == self.div_v(o),
    {
        if o.raw == 0 {
            return Fx { raw: 0 };
        }
        let neg: bool = (self.raw < 0) != (o.raw < 0);
        let na: u128 = if self.raw < 0 {
            (-(self.raw as i128)) as u128
        } else {
            self.raw as u128
        };
        let nb: u128 = if o.raw < 0 {
            (-(o.raw as i128)) as u128
        } else {
            o.raw as u128
        };
        proof {
            assert((na as int) * (SCALE as int) <= 0x80000000000000000000000000000000int)
                by (nonlinear_arith)
                requires
                    0 <= na as int <= 0x8000000000000000int,
            ;
        }
        let nn: u128 = na * (SCALE as u128);
        let q: u128 = nn / nb;
        proof {
            vstd::arithmetic::div_mod::lemma_div_nonincreasing(nn as int, nb as int);
        }
        let s: i128 = if neg {
            -(q as i128)
        } else {
            q as i128
        };
        Fx { raw: sat_i64(s) }
    }

    pub open spec fn div_int_v(self, c: i64) -> Fx {
        if c == 0 {
            Fx { raw: 0 }
        } else {
            Fx { raw: sat64(quot(self.raw as int, c as int)) as i64 }
        }
    }

    /// Division of the raw word by a positive integer, rounded toward
    /// zero: used for the constant denominators of power series.
    pub fn div_int(self, c: i64) -> (r: Fx)
        requires
            c > 0,
        ensures
            r == self.div_int_v(c),
    {
        let q: i64 = self.raw / c;
        proof {
            vstd::arithmetic::div_mod::lemma_div_nonincreasing(abs_i(self.raw as int), c as int);
        }
        Fx { raw: q }
    }

    pub open spec fn sqrt_v(self) -> Fx {
        if self.raw <= 0 {
            Fx { raw: 0 }
        } else {
            Fx { raw: sqrt_floor(self.raw * SCALE) as i64 }
        }
    }

    /// Fixed-point square root, rounded down; nonpositive inputs yield zero.
    pub fn sqrt(self) -> (r: Fx)
        ensures
            r == self.sqrt_v(),
    {
        if self.raw <= 0 {
            return Fx { raw: 0 };
        }
        let n: u128 = (self.raw as u128) * (SCALE as u128);
        let s: u128 = isqrt_u128(n);
        proof {
            assert(s as int <= 0x1000000000000int) by (nonlinear_arith)
                requires
                    s as int >= 0,
                    (s as int) * (s as int) <= n as int,
                    n as int <= 0x800000000000000000000000int,
            ;
            lemma_sqrt_floor_unique(n as int, s as int);
        }
        Fx { raw: s as i64 }
    }
}

} // verus!
