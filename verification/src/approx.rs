//! Fixed-point approximations of the transcendental functions the
//! renderer needs: sine and cosine (for rotations), the tangent (for the
//! perspective camera), a decaying exponential and a negated logarithm
//! (for tone mapping), and a fractional power built from the two.
//!
//! Verus has no primitive real functions, so each contract states the
//! computed value exactly: the angle folded into `(-pi, pi]` and a
//! truncated power series on the fixed-point grid.  The doc comments say
//! which real function each series approximates.

use vstd::prelude::*;

use crate::fixed::{Fx, SCALE, quot, sat64};

verus! {

/// Two pi on the fixed-point grid.
pub const TWO_PI_RAW: i64 = 26986075409;

/// Pi on the fixed-point grid.
pub const PI_RAW: i64 = 13493037704;

/// The natural logarithm of two on the fixed-point grid.
pub const LN2_RAW: i64 = 2977044472;

/// A value clamped into `[-1, 1]`, the range of sine and cosine.
pub open spec fn clamp_unit_v(f: Fx) -> Fx {
    if f.raw > SCALE {
        Fx { raw: SCALE }
    } else if f.raw < -4294967296i64 {
        Fx { raw: -4294967296i64 }
    } else {
        f
    }
}

fn clamp_unit(f: Fx) -> (r: Fx)
    ensures
        r == clamp_unit_v(f),
{
    if f.raw > SCALE {
        Fx { raw: SCALE }
    } else if f.raw < -4294967296i64 {
        Fx { raw: -4294967296i64 }
    } else {
        f
    }
}

/// A value clamped into `[0, 1]`.
pub open spec fn clamp_pos_unit_v(f: Fx) -> Fx {
    if f.raw < 0 {
        Fx { raw: 0 }
    } else if f.raw > SCALE {
        Fx { raw: SCALE }
    } else {
        f
    }
}

fn clamp_pos_unit(f: Fx) -> (r: Fx)
    ensures
        r == clamp_pos_unit_v(f),
{
    if f.raw < 0 {
        Fx { raw: 0 }
    } else if f.raw > SCALE {
        Fx { raw: SCALE }
    } else {
        f
    }
}

/// The angle folded into `(-pi, pi]`, congruent modulo two pi.
pub open spec fn fold_angle_v(a: int) -> int {
    let m = a % (TWO_PI_RAW as int);
    if m > PI_RAW as int {
        m - TWO_PI_RAW as int
    } else {
        m
    }
}

fn fold_angle(a: i64) -> (r: i64)
    ensures
        r as int == fold_angle_v(a as int),
{
    let m0: i64 = a % TWO_PI_RAW;
    let m: i64 = if m0 < 0 {
        proof {
            let na = -(a as int);
            vstd::arithmetic::div_mod::lemma_fundamental_div_mod(na, TWO_PI_RAW as int);
            vstd::arithmetic::div_mod::lemma_fundamental_div_mod_converse_mod(
                a as int,
                TWO_PI_RAW as int,
                -(na / (TWO_PI_RAW as int)) - 1,
                TWO_PI_RAW as int - na % (TWO_PI_RAW as int),
            );
        }
        m0 + TWO_PI_RAW
    } else {
        m0
    };
    if m > PI_RAW {
        m - TWO_PI_RAW
    } else {
        m
    }
}

/// The truncated Taylor series of the sine at the folded angle.
pub open spec fn sin_v(a: Fx) -> Fx {
    let m = Fx { raw: fold_angle_v(a.raw as int) as i64 };
    let m2 = m.mul_v(m);
    let m3 = m2.mul_v(m);
    let m5 = m3.mul_v(m2);
    let m7 = m5.mul_v(m2);
    let m9 = m7.mul_v(m2);
    let m11 = m9.mul_v(m2);
    let m13 = m11.mul_v(m2);
    clamp_unit_v(
        m.sub_v(m3.div_int_v(6)).add_v(m5.div_int_v(120)).sub_v(m7.div_int_v(5040)).add_v(
            m9.div_int_v(362880),
        ).sub_v(m11.div_int_v(39916800)).add_v(m13.div_int_v(6227020800)),
    )
}

/// The sine of an angle in radians, approximated by a truncated Taylor
/// series after folding into `(-pi, pi]`, clamped into `[-1, 1]`.
pub fn sin(a: Fx) -> (r: Fx)
    ensures
        r == sin_v(a),
        -SCALE <= r.raw <= SCALE,
{
    let m = Fx { raw: fold_angle(a.raw) };
    let m2 = m.mul(m);
    let m3 = m2.mul(m);
    let m5 = m3.mul(m2);
    let m7 = m5.mul(m2);
    let m9 = m7.mul(m2);
    let m11 = m9.mul(m2);
    let m13 = m11.mul(m2);
    clamp_unit(
        m.sub(m3.div_int(6)).add(m5.div_int(120)).sub(m7.div_int(5040)).add(
            m9.div_int(362880),
        ).sub(m11.div_int(39916800)).add(m13.div_int(6227020800)),
    )
}

/// The truncated Taylor series of the cosine at the folded angle.
pub open spec fn cos_v(a: Fx) -> Fx {
    let m = Fx { raw: fold_angle_v(a.raw as int) as i64 };
    let m2 = m.mul_v(m);
    let m4 = m2.mul_v(m2);
    let m6 = m4.mul_v(m2);
    let m8 = m6.mul_v(m2);
    let m10 = m8.mul_v(m2);
    let m12 = m10.mul_v(m2);
    let m14 = m12.mul_v(m2);
    clamp_unit_v(
        Fx { raw: SCALE }.sub_v(m2.div_int_v(2)).add_v(m4.div_int_v(24)).sub_v(
            m6.div_int_v(720),
        ).add_v(m8.div_int_v(40320)).sub_v(m10.div_int_v(3628800)).add_v(
            m12.div_int_v(479001600),
        ).sub_v(m14.div_int_v(87178291200)),
    )
}

/// The cosine of an angle in radians, approximated by a truncated Taylor
/// series after folding into `(-pi, pi]`, clamped into `[-1, 1]`.
pub fn cos(a: Fx) -> (r: Fx)
    ensures
        r == cos_v(a),
        -SCALE <= r.raw <= SCALE,
{
    let m = Fx { raw: fold_angle(a.raw) };
    let m2 = m.mul(m);
    let m4 = m2.mul(m2);
    let m6 = m4.mul(m2);
    let m8 = m6.mul(m2);
    let m10 = m8.mul(m2);
    let m12 = m10.mul(m2);
    let m14 = m12.mul(m2);
    clamp_unit(
        Fx::one().sub(m2.div_int(2)).add(m4.div_int(24)).sub(m6.div_int(720)).add(
            m8.div_int(40320),
        ).sub(m10.div_int(3628800)).add(m12.div_int(479001600)).sub(m14.div_int(87178291200)),
    )
}

pub open spec fn tan_v(a: Fx) -> Fx {
    sin_v(a).div_v(cos_v(a))
}

/// The tangent: sine over cosine; an angle whose cosine rounds to zero
/// yields zero, the documented degenerate fallback.
pub fn tan(a: Fx) -> (r: Fx)
    ensures
        r == tan_v(a),
{
    sin(a).div(cos(a))
}

/// The truncated Taylor series of `exp(-t)` for `t` in `[0, ln 2)`,
/// clamped into `[0, 1]`.
pub open spec fn exp_taylor_v(t: Fx) -> Fx {
    let t2 = t.mul_v(t);
    let t3 = t2.mul_v(t);
    let t4 = t3.mul_v(t);
    let t5 = t4.mul_v(t);
    let t6 = t5.mul_v(t);
    let t7 = t6.mul_v(t);
    let t8 = t7.mul_v(t);
    clamp_pos_unit_v(
        Fx { raw: SCALE }.sub_v(t).add_v(t2.div_int_v(2)).sub_v(t3.div_int_v(6)).add_v(
            t4.div_int_v(24),
        ).sub_v(t5.div_int_v(120)).add_v(t6.div_int_v(720)).sub_v(t7.div_int_v(5040)).add_v(
            t8.div_int_v(40320),
        ),
    )
}

fn exp_taylor(t: Fx) -> (r: Fx)
    ensures
        r == exp_taylor_v(t),
        0 <= r.raw <= SCALE,
{
    let t2 = t.mul(t);
    let t3 = t2.mul(t);
    let t4 = t3.mul(t);
    let t5 = t4.mul(t);
    let t6 = t5.mul(t);
    let t7 = t6.mul(t);
    let t8 = t7.mul(t);
    clamp_pos_unit(
        Fx::one().sub(t).add(t2.div_int(2)).sub(t3.div_int(6)).add(t4.div_int(24)).sub(
            t5.div_int(120),
        ).add(t6.div_int(720)).sub(t7.div_int(5040)).add(t8.div_int(40320)),
    )
}

/// The raw word halved `k` times, rounding down.
pub open spec fn shr_v(v: int, k: int) -> int
    decreases k,
{
    if k <= 0 {
        v
    } else {
        shr_v(v, k - 1) / 2
    }
}

/// `exp(-x)`: the argument is split at multiples of `ln 2`, the series
/// handles the remainder, and the result is halved once per multiple.
/// Negative arguments yield one, and thirty-three or more halvings yield
/// zero exactly.
pub open spec fn exp_neg_v(x: Fx) -> Fx {
    if x.raw < 0 {
        Fx { raw: SCALE }
    } else {
        let n = (x.raw as int) / (LN2_RAW as int);
        if n >= 33 {
            Fx { raw: 0 }
        } else {
            let e = exp_taylor_v(Fx { raw: (x.raw - n * LN2_RAW) as i64 });
            Fx { raw: shr_v(e.raw as int, n) as i64 }
        }
    }
}

/// The decaying exponential `exp(-x)`, in `[0, 1]`.
pub fn exp_neg(x: Fx) -> (r: Fx)
    ensures
        r == exp_neg_v(x),
        0 <= r.raw <= SCALE,
{
    if x.raw < 0 {
        return Fx::one();
    }
    let n: i64 = x.raw / LN2_RAW;
    if n >= 33 {
        return Fx { raw: 0 };
    }
    let t = Fx { raw: x.raw - n * LN2_RAW };
    let e = exp_taylor(t);
    let mut v: i64 = e.raw;
    let mut i: i64 = 0;
    while i < n
        invariant
            0 <= i <= n,
            0 <= v <= SCALE,
            v as int == shr_v(e.raw as int, i as int),
        decreases n - i,
    {
        v = v / 2;
        i = i + 1;
    }
    Fx { raw: v }
}

/// The doubling normalization of `neg_ln_v`: double until the word
/// reaches one, counting the doublings (the cap of thirty-three can
/// never bind for a positive word, and keeps the recursion finite).
pub open spec fn norm_pair_v(m: int, k: int) -> (int, int)
    decreases 33 - k,
{
    if m >= SCALE as int || k >= 33 {
        (m, k)
    } else {
        norm_pair_v(2 * m, k + 1)
    }
}

/// The truncated series of `ln((1 + w) / (1 - w))` halved: `w + w^3/3 +
/// w^5/5 + ...`, doubled at the end.
pub open spec fn ln_series_v(w: Fx) -> Fx {
    let w2 = w.mul_v(w);
    let w3 = w2.mul_v(w);
    let w5 = w3.mul_v(w2);
    let w7 = w5.mul_v(w2);
    let w9 = w7.mul_v(w2);
    let w11 = w9.mul_v(w2);
    let s = w.add_v(w3.div_int_v(3)).add_v(w5.div_int_v(5)).add_v(w7.div_int_v(7)).add_v(
        w9.div_int_v(9),
    ).add_v(w11.div_int_v(11));
    s.add_v(s)
}

fn ln_series(w: Fx) -> (r: Fx)
    ensures
        r == ln_series_v(w),
{
    let w2 = w.mul(w);
    let w3 = w2.mul(w);
    let w5 = w3.mul(w2);
    let w7 = w5.mul(w2);
    let w9 = w7.mul(w2);
    let w11 = w9.mul(w2);
    let s = w.add(w3.div_int(3)).add(w5.div_int(5)).add(w7.div_int(7)).add(w9.div_int(9)).add(
        w11.div_int(11),
    );
    s.add(s)
}

/// `-ln(y)` for `y` in `(0, 1]`: the word is doubled into `[1, 2)` of
/// one, each doubling contributing `ln 2`, and the mantissa's logarithm
/// comes from the arctangent-like series.  Arguments outside `(0, 1)`
/// yield zero.
pub open spec fn neg_ln_v(y: Fx) -> Fx {
    if y.raw <= 0 || y.raw >= SCALE {
        Fx { raw: 0 }
    } else {
        let mk = norm_pair_v(y.raw as int, 0);
        let mf = Fx { raw: mk.0 as i64 };
        let w = mf.sub_v(Fx { raw: SCALE }).div_v(mf.add_v(Fx { raw: SCALE }));
        Fx { raw: (mk.1 * (LN2_RAW as int)) as i64 }.sub_v(ln_series_v(w))
    }
}

/// The negated natural logarithm on `(0, 1)`; zero elsewhere.
pub fn neg_ln(y: Fx) -> (r: Fx)
    ensures
        r == neg_ln_v(y),
{
    if y.raw <= 0 || y.raw >= SCALE {
        return Fx { raw: 0 };
    }
    let mut m: i64 = y.raw;
    let mut k: i64 = 0;
    while m < SCALE && k < 33
        invariant
            1 <= m,
            m <= 2 * SCALE,
            0 <= k <= 33,
            norm_pair_v(y.raw as int, 0) == norm_pair_v(m as int, k as int),
        decreases 33 - k,
    {
        m = m * 2;
        k = k + 1;
    }
    let mf = Fx { raw: m };
    let w = mf.sub(Fx::one()).div(mf.add(Fx::one()));
    Fx { raw: k * LN2_RAW }.sub(ln_series(w))
}

/// `y` raised to the power `p`, as `exp(-p * (-ln y))`: defined for `y`
/// in `(0, 1]` and positive `p`; a nonpositive base yields zero and a
/// nonpositive exponent yields one.
pub open spec fn pow_frac_v(y: Fx, p: Fx) -> Fx {
    if y.raw <= 0 {
        Fx { raw: 0 }
    } else if p.raw <= 0 {
        Fx { raw: SCALE }
    } else {
        exp_neg_v(neg_ln_v(y).mul_v(p))
    }
}

/// The fractional power used by gamma correction, in `[0, 1]` for a base
/// in `[0, 1]`.
pub fn pow_frac(y: Fx, p: Fx) -> (r: Fx)
    ensures
        r == pow_frac_v(y, p),
{
    if y.raw <= 0 {
        return Fx { raw: 0 };
    }
    if p.raw <= 0 {
        return Fx::one();
    }
    exp_neg(neg_ln(y).mul(p))
}

} // verus!
