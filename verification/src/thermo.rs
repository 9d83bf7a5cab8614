//! Fixed-point thermometric conversion core.
//!
//! The resistance-to-temperature relation of an NTC thermistor,
//! `1/T = 1/T0 + ln(R/R0)/B`, and its inverse `R = R0 * exp(B*(1/T - 1/T0))`
//! are evaluated entirely in integer arithmetic:
//!
//! * temperatures in millikelvin,
//! * resistances in milliohms,
//! * reciprocal temperatures scaled by `10^15` (so `10^15 / t_mk` is `1/T`
//!   in units of `10^-12` per kelvin),
//! * natural logarithms in femtonepers (`10^-15` log units),
//! * the exponential scaled by `2^30` (`EXP_ONE`).
//!
//! `exp_scaled` approximates `2^30 * e^(d/10^15)` by splitting `d` into
//! eighth-octave steps plus a remainder evaluated with a cubic polynomial;
//! `ln_scaled` inverts it by a bracketing binary search. Both are ordinary
//! verified functions whose contracts pin them to their spec-level mirrors.

use vstd::prelude::*;

verus! {

use vstd::arithmetic::div_mod::{
    lemma_fundamental_div_mod,
    lemma_fundamental_div_mod_converse_div,
    lemma_fundamental_div_mod_converse_mod,
    lemma_div_is_ordered,
    lemma_div_is_ordered_by_denominator,
    lemma_div_multiples_vanish,
    lemma_div_pos_is_pos,
    lemma_div_nonincreasing,
};
use crate::{clamp_i64, lemma_mul_bound};

/// The fixed-point representation of 1.0 in the exponential domain (`2^30`).
pub const EXP_ONE: i64 = 1_073_741_824;

/// Largest magnitude of a logarithm, in femtonepers (21 nepers); arguments
/// beyond this saturate, which bounds every exponential below `2^62`.
pub const LN_CLAMP: i64 = 21_000_000_000_000_000;

/// `ln(2)/8` in femtonepers: the eighth-octave step of the range reduction.
pub const LN2_OVER_8: i64 = 86_643_397_569_993;

/// Powers of two, as a spec-level recurrence.
pub open spec fn pow2i(n: nat) -> int
    decreases n,
{
    if n == 0 {
        1
    } else {
        2 * pow2i((n - 1) as nat)
    }
}

pub proof fn lemma_pow2i_pos(n: nat)
    ensures
        pow2i(n) >= 1,
    decreases n,
{
    if n > 0 {
        lemma_pow2i_pos((n - 1) as nat);
    }
}

pub proof fn lemma_pow2i_mono(a: nat, b: nat)
    requires
        a <= b,
    ensures
        pow2i(a) <= pow2i(b),
    decreases b,
{
    if a < b {
        lemma_pow2i_mono(a, (b - 1) as nat);
        lemma_pow2i_pos((b - 1) as nat);
    }
}

/// Euclidean quotient and remainder, matching the spec-level `/` and `%`.
pub fn div_mod_euclid(d: i64, m: i64) -> (qr: (i64, i64))
    requires
        1 <= m,
        -0x4000_0000_0000_0000 <= d <= 0x4000_0000_0000_0000,
    ensures
        qr.0 == d as int / m as int,
        qr.1 == d as int % m as int,
{
    if d >= 0 {
        let q: i64 = d / m;
        let r: i64 = d % m;
        (q, r)
    } else {
        let n: i64 = -d;
        let q0: i64 = n / m;
        let r0: i64 = n % m;
        if r0 == 0 {
            proof {
                lemma_fundamental_div_mod(n as int, m as int);
                assert((-q0) as int * m as int == -(m as int * q0 as int)) by (nonlinear_arith);
                lemma_fundamental_div_mod_converse_div(d as int, m as int, -q0 as int, 0);
                lemma_fundamental_div_mod_converse_mod(d as int, m as int, -q0 as int, 0);
            }
            (-q0, 0)
        } else {
            proof {
                lemma_fundamental_div_mod(n as int, m as int);
                assert((-q0 - 1) as int * m as int == -(m as int * q0 as int) - m)
                    by (nonlinear_arith);
                lemma_fundamental_div_mod_converse_div(
                    d as int,
                    m as int,
                    -q0 - 1 as int,
                    m - r0 as int,
                );
                lemma_fundamental_div_mod_converse_mod(
                    d as int,
                    m as int,
                    -q0 - 1 as int,
                    m - r0 as int,
                );
            }
            (-q0 - 1, m - r0)
        }
    }
}

/// Quotient rounded toward zero, as hardware division does.
pub open spec fn div_trunc(a: int, b: int) -> int {
    if b == 0 {
        0
    } else if a >= 0 && b > 0 {
        a / b
    } else if a < 0 && b > 0 {
        -((-a) / b)
    } else if a >= 0 {
        -(a / (-b))
    } else {
        (-a) / (-b)
    }
}

/// Signed division rounding toward zero.
pub fn div_trunc_i64(a: i64, b: i64) -> (q: i64)
    requires
        b != 0,
        -0x4000_0000_0000_0000 <= a <= 0x4000_0000_0000_0000,
        -0x4000_0000_0000_0000 <= b <= 0x4000_0000_0000_0000,
    ensures
        q == div_trunc(a as int, b as int),
{
    let na: i64 = if a >= 0 {
        a
    } else {
        -a
    };
    let nb: i64 = if b >= 0 {
        b
    } else {
        -b
    };
    let q0: i64 = na / nb;
    if (a >= 0) == (b >= 0) {
        q0
    } else {
        -q0
    }
}

/// `2^30 * 2^(j/8)`, rounded to nearest, for the eight octave fractions.
pub open spec fn octave_factor(j: int) -> int {
    if j == 0 {
        1_073_741_824
    } else if j == 1 {
        1_170_923_762
    } else if j == 2 {
        1_276_901_417
    } else if j == 3 {
        1_392_470_869
    } else if j == 4 {
        1_518_500_250
    } else if j == 5 {
        1_655_936_265
    } else if j == 6 {
        1_805_811_301
    } else {
        1_969_251_188
    }
}

/// Cubic fixed-point approximation of `2^30 * e^(f/10^15)` for
/// `0 <= f < ln(2)/8`. The remainder is first coarsened to steps of `2^20`
/// femtonepers; each Taylor term is an exact integer expression
/// (`2^50/10^15`, `2^69/10^30` and `2^90/(6*10^45)` are `2^30` times the
/// first, second and third Taylor coefficients at that coarseness).
pub open spec fn exp_poly(f: int) -> int {
    let f2 = f / 1048576;
    let t1 = (f2 * 1125899906842624) / 1000000000000000;
    let t2 = (f2 * f2 * 590295810358705651712) / 1000000000000000000000000000000;
    let t3 = ((f2 * f2 * f2 / 10000000000000) * 1237940039285380274899124224)
        / 600000000000000000000000000000000;
    EXP_ONE + t1 + t2 + t3
}

/// `2^30 * e^(d/10^15)`, by eighth-octave range reduction: with
/// `d = (8q + j) * ln(2)/8 + f`, the result is
/// `2^q * 2^(j/8) * exp_poly(f)`.
pub open spec fn exp_scaled_spec(d: int) -> int {
    let k = d / (LN2_OVER_8 as int);
    let f = d % (LN2_OVER_8 as int);
    let q = k / 8;
    let j = k % 8;
    let m = (octave_factor(j) * exp_poly(f)) / (EXP_ONE as int);
    if q >= 0 {
        m * pow2i(q as nat)
    } else {
        m / pow2i((-q) as nat)
    }
}

/// Fixed-point exponential: `2^30 * e^(d/10^15)`, rounded down at each
/// arithmetic step.
pub fn exp_scaled(d: i64) -> (r: i64)
    requires
        -LN_CLAMP <= d <= LN_CLAMP,
    ensures
        r == exp_scaled_spec(d as int),
        0 <= r < 0x4000_0000_0000_0000,
{
    let (k, f) = div_mod_euclid(d, LN2_OVER_8);
    proof {
        lemma_fundamental_div_mod(d as int, LN2_OVER_8 as int);
        assert(-243 <= k <= 242);
    }
    let (q, j) = div_mod_euclid(k, 8);
    let f2: i64 = f / 1048576;
    proof {
        lemma_div_is_ordered(f as int, 86643397569992, 1048576);
        assert(f2 <= 82629582);
    }
    let f2u: u128 = f2 as u128;
    proof {
        lemma_mul_bound(f2 as int, f2 as int, 82629582, 82629582);
        lemma_mul_bound(f2 as int * f2 as int, f2 as int, 6827647821494724, 82629582);
    }
    let t1: u128 = (f2u * 1125899906842624) / 1000000000000000;
    let t2: u128 = (f2u * f2u * 590295810358705651712) / 1000000000000000000000000000000;
    let t3: u128 = ((f2u * f2u * f2u / 10000000000000) * 1237940039285380274899124224)
        / 600000000000000000000000000000000;
    proof {
        lemma_div_is_ordered(
            f2 as int * 1125899906842624,
            82629582int * 1125899906842624,
            1000000000000000,
        );
        lemma_div_is_ordered(
            f2 as int * f2 as int * 590295810358705651712,
            6827647821494724int * 590295810358705651712,
            1000000000000000000000000000000,
        );
        lemma_div_is_ordered(
            (f2 as int * f2 as int * f2 as int / 10000000000000) * 1237940039285380274899124224,
            56416568553331int * 1237940039285380274899124224,
            600000000000000000000000000000000,
        );
        assert(t1 <= 93032638 && t2 <= 4030331 && t3 <= 116400);
    }
    let p: u128 = 1073741824 + t1 + t2 + t3;
    let c: i64 = if j == 0 {
        1_073_741_824
    } else if j == 1 {
        1_170_923_762
    } else if j == 2 {
        1_276_901_417
    } else if j == 3 {
        1_392_470_869
    } else if j == 4 {
        1_518_500_250
    } else if j == 5 {
        1_655_936_265
    } else if j == 6 {
        1_805_811_301
    } else {
        1_969_251_188
    };
    proof {
        lemma_mul_bound(c as int, p as int, 1969251188, 1170921193);
        lemma_div_is_ordered(
            c as int * p as int,
            1969251188int * 1170921193,
            EXP_ONE as int,
        );
    }
    let mu: u128 = (c as u128) * p / 1073741824;
    let nq: i64 = if q >= 0 {
        q
    } else {
        -q
    };
    let mut p2: u64 = 1;
    let mut i: i64 = 0;
    while i < nq
        invariant
            0 <= i <= nq <= 31,
            p2 == pow2i(i as nat),
        decreases nq - i,
    {
        proof {
            lemma_pow2i_mono((i + 1) as nat, 31);
            assert(pow2i(31) == 0x80000000) by {
                reveal_with_fuel(pow2i, 32);
            }
        }
        p2 = p2 * 2;
        i = i + 1;
    }
    proof {
        lemma_pow2i_pos(nq as nat);
    }
    let r64: u64 = if q >= 0 {
        proof {
            lemma_pow2i_mono(nq as nat, 30);
            assert(pow2i(30) == 0x40000000) by {
                reveal_with_fuel(pow2i, 31);
            }
            lemma_mul_bound(mu as int, p2 as int, 2147478936, 0x40000000);
        }
        (mu as u64) * p2
    } else {
        (mu as u64) / p2
    };
    r64 as i64
}

/// The exponential with the range reduction already applied: octave number
/// `k` (eighths of an octave) and remainder `f`.
pub open spec fn exp_at(k: int, f: int) -> int {
    let q = k / 8;
    let j = k % 8;
    let m = (octave_factor(j) * exp_poly(f)) / (EXP_ONE as int);
    if q >= 0 {
        m * pow2i(q as nat)
    } else {
        m / pow2i((-q) as nat)
    }
}

/// The remainder polynomial grows with its argument and stays within one
/// eighth-octave's span of values.
proof fn lemma_exp_poly_mono(f1: int, f2: int)
    requires
        0 <= f1 <= f2 <= LN2_OVER_8 - 1,
    ensures
        exp_poly(f1) <= exp_poly(f2),
        EXP_ONE <= exp_poly(f2) <= 1_170_921_193,
{
    let a = f1 / 1048576;
    let b = f2 / 1048576;
    lemma_div_is_ordered(f1, f2, 1048576);
    lemma_div_is_ordered(f2, 86643397569992, 1048576);
    lemma_div_pos_is_pos(f1, 1048576);
    assert(0 <= a <= b <= 82629582);
    lemma_mul_bound(b, b, 82629582, 82629582);
    crate::lemma_mul_mono(a, b, 1125899906842624);
    lemma_div_is_ordered(a * 1125899906842624, b * 1125899906842624, 1000000000000000);
    assert(a * a <= b * b) by (nonlinear_arith)
        requires
            0 <= a <= b,
    ;
    crate::lemma_mul_mono(a * a, b * b, 590295810358705651712);
    lemma_div_is_ordered(
        a * a * 590295810358705651712,
        b * b * 590295810358705651712,
        1000000000000000000000000000000,
    );
    assert(a * a * a <= b * b * b) by (nonlinear_arith)
        requires
            0 <= a <= b,
    ;
    lemma_div_is_ordered(a * a * a, b * b * b, 10000000000000);
    crate::lemma_mul_mono(
        a * a * a / 10000000000000,
        b * b * b / 10000000000000,
        1237940039285380274899124224,
    );
    lemma_div_is_ordered(
        (a * a * a / 10000000000000) * 1237940039285380274899124224,
        (b * b * b / 10000000000000) * 1237940039285380274899124224,
        600000000000000000000000000000000,
    );
    // Bounds of the terms at the top of the range.
    crate::lemma_mul_mono(b, 82629582, 1125899906842624);
    lemma_div_is_ordered(
        b * 1125899906842624,
        82629582int * 1125899906842624,
        1000000000000000,
    );
    crate::lemma_mul_mono(b * b, 82629582int * 82629582, 590295810358705651712);
    lemma_div_is_ordered(
        b * b * 590295810358705651712,
        6827647821494724int * 590295810358705651712,
        1000000000000000000000000000000,
    );
    lemma_mul_bound(b * b, b, 6827647821494724, 82629582);
    lemma_div_is_ordered(b * b * b, 564165685533319659325368int, 10000000000000);
    crate::lemma_mul_mono(
        b * b * b / 10000000000000,
        56416568553331int,
        1237940039285380274899124224,
    );
    lemma_div_is_ordered(
        (b * b * b / 10000000000000) * 1237940039285380274899124224,
        56416568553331int * 1237940039285380274899124224,
        600000000000000000000000000000000,
    );
    // Every term is nonnegative.
    lemma_div_pos_is_pos(a * 1125899906842624, 1000000000000000);
    assert(0 <= a * a && 0 <= a * a * a) by (nonlinear_arith)
        requires
            0 <= a,
    ;
    crate::lemma_mul_mono(0, a * a, 590295810358705651712);
    lemma_div_pos_is_pos(a * a * 590295810358705651712, 1000000000000000000000000000000);
    lemma_div_pos_is_pos(a * a * a, 10000000000000);
    crate::lemma_mul_mono(0, a * a * a / 10000000000000, 1237940039285380274899124224);
    lemma_div_pos_is_pos(
        (a * a * a / 10000000000000) * 1237940039285380274899124224,
        600000000000000000000000000000000,
    );
}

/// Within one eighth-octave, the exponential grows with the remainder.
proof fn lemma_exp_at_mono_f(k: int, f1: int, f2: int)
    requires
        -243 <= k <= 242,
        0 <= f1 <= f2 <= LN2_OVER_8 - 1,
    ensures
        exp_at(k, f1) <= exp_at(k, f2),
        0 <= exp_at(k, f1),
{
    lemma_exp_poly_mono(f1, f2);
    let j = k % 8;
    let q = k / 8;
    let c = octave_factor(j);
    let p1 = exp_poly(f1);
    let p2 = exp_poly(f2);
    crate::lemma_mul_mono(p1, p2, c);
    lemma_div_is_ordered(c * p1, c * p2, EXP_ONE as int);
    crate::lemma_mul_mono(0, p1, c);
    lemma_div_pos_is_pos(c * p1, EXP_ONE as int);
    let m1 = (c * p1) / (EXP_ONE as int);
    let m2 = (c * p2) / (EXP_ONE as int);
    if q >= 0 {
        lemma_pow2i_pos(q as nat);
        crate::lemma_mul_mono(m1, m2, pow2i(q as nat));
        crate::lemma_mul_mono(0, m1, pow2i(q as nat));
    } else {
        lemma_pow2i_pos((-q) as nat);
        lemma_div_is_ordered(m1, m2, pow2i((-q) as nat));
        lemma_div_pos_is_pos(m1, pow2i((-q) as nat));
    }
}

/// The remainder polynomial is exactly one at a zero remainder.
proof fn lemma_exp_poly_zero()
    ensures
        exp_poly(0) == EXP_ONE as int,
{
    lemma_div_pos_is_pos(0, 1048576);
    lemma_div_nonincreasing(0, 1048576);
    let f2 = 0int / 1048576;
    assert(f2 == 0);
    assert(f2 * 1125899906842624 == 0 && f2 * f2 * 590295810358705651712 == 0 && f2 * f2 * f2
        == 0) by (nonlinear_arith)
        requires
            f2 == 0,
    ;
    lemma_div_pos_is_pos(0, 1000000000000000);
    lemma_div_nonincreasing(0, 1000000000000000);
    lemma_div_pos_is_pos(0, 1000000000000000000000000000000);
    lemma_div_nonincreasing(0, 1000000000000000000000000000000);
    lemma_div_pos_is_pos(0, 10000000000000);
    lemma_div_nonincreasing(0, 10000000000000);
    assert((f2 * f2 * f2 / 10000000000000) * 1237940039285380274899124224 == 0)
        by (nonlinear_arith)
        requires
            f2 * f2 * f2 / 10000000000000 == 0,
    ;
    lemma_div_pos_is_pos(0, 600000000000000000000000000000000);
    lemma_div_nonincreasing(0, 600000000000000000000000000000000);
}

/// Crossing an eighth-octave boundary can only increase the exponential:
/// the top of one step stays at or below the bottom of the next, because
/// each octave factor exceeds its predecessor by more than the remainder
/// polynomial's whole span.
proof fn lemma_exp_at_step(k: int)
    requires
        -243 <= k <= 241,
    ensures
        exp_at(k, LN2_OVER_8 - 1) <= exp_at(k + 1, 0),
{
    let j = k % 8;
    let q = k / 8;
    lemma_fundamental_div_mod(k, 8);
    let pmax = exp_poly(LN2_OVER_8 - 1);
    lemma_exp_poly_mono(0, LN2_OVER_8 - 1);
    lemma_exp_poly_zero();
    let c = octave_factor(j);
    assert(0 <= c * pmax) by (nonlinear_arith)
        requires
            0 <= c,
            0 <= pmax,
    ;
    let m_hi = (c * pmax) / (EXP_ONE as int);
    lemma_div_pos_is_pos(c * pmax, EXP_ONE as int);
    if j < 7 {
        // Same power of two; the next octave factor absorbs the span.
        lemma_fundamental_div_mod_converse_div(k + 1, 8, q, j + 1);
        lemma_fundamental_div_mod_converse_mod(k + 1, 8, q, j + 1);
        let c2 = octave_factor(j + 1);
        assert(c * pmax <= c2 * (EXP_ONE as int)) by (nonlinear_arith)
            requires
                0 <= pmax <= 1_170_921_193,
                0 <= c,
                c * 1_170_921_193 <= c2 * 1_073_741_824,
        ;
        lemma_div_is_ordered(c * pmax, c2 * (EXP_ONE as int), EXP_ONE as int);
        lemma_div_multiples_vanish(c2, EXP_ONE as int);
        assert(c2 * (EXP_ONE as int) == (EXP_ONE as int) * c2) by (nonlinear_arith);
        let m_lo = (c2 * (EXP_ONE as int)) / (EXP_ONE as int);
        assert(m_hi <= m_lo && m_lo == c2);
        if q >= 0 {
            lemma_pow2i_pos(q as nat);
            crate::lemma_mul_mono(m_hi, m_lo, pow2i(q as nat));
        } else {
            lemma_pow2i_pos((-q) as nat);
            lemma_div_is_ordered(m_hi, m_lo, pow2i((-q) as nat));
        }
    } else {
        // The next step starts a new octave: twice the base factor.
        lemma_fundamental_div_mod_converse_div(k + 1, 8, q + 1, 0);
        lemma_fundamental_div_mod_converse_mod(k + 1, 8, q + 1, 0);
        let s = EXP_ONE as int;
        assert(c == 1_969_251_188);
        assert(m_hi <= 2 * s) by {
            assert(c * pmax <= (2 * s) * s) by (nonlinear_arith)
                requires
                    c == 1_969_251_188,
                    0 <= pmax <= 1_170_921_193,
                    s == 1_073_741_824,
            ;
            lemma_div_is_ordered(c * pmax, (2 * s) * s, s);
            lemma_div_multiples_vanish(2 * s, s);
            assert((2 * s) * s == s * (2 * s)) by (nonlinear_arith);
        }
        assert(s * s == s * s) by (nonlinear_arith);
        lemma_div_multiples_vanish(s, s);
        let m_lo = (s * s) / s;
        assert(m_lo == s);
        if q >= 0 {
            // 2^q doubles into 2^(q+1).
            lemma_pow2i_pos(q as nat);
            assert(pow2i((q + 1) as nat) == 2 * pow2i(q as nat));
            crate::lemma_mul_mono(m_hi, 2 * s, pow2i(q as nat));
            assert((2 * s) * pow2i(q as nat) == s * (2 * pow2i(q as nat))) by (nonlinear_arith);
        } else if q == -1 {
            // The halving disappears at octave zero.
            assert(pow2i(1) == 2 && pow2i(0) == 1) by {
                reveal_with_fuel(pow2i, 3);
            }
            lemma_div_is_ordered(m_hi, 2 * s, pow2i(1));
            lemma_div_multiples_vanish(s, 2);
            assert(2 * s == s * 2) by (nonlinear_arith);
            assert(exp_at(k + 1, 0) == s * pow2i(0));
            assert(s * pow2i(0) == s) by (nonlinear_arith);
        } else {
            // Both sides divide; one halving cancels against the doubled
            // numerator.
            let n = (-q) as nat;
            lemma_pow2i_pos((n - 1) as nat);
            lemma_div_is_ordered(m_hi, 2 * s, pow2i(n));
            assert(pow2i(n) == 2 * pow2i((n - 1) as nat));
            vstd::arithmetic::div_mod::lemma_div_denominator(
                2 * s,
                2,
                pow2i((n - 1) as nat),
            );
            lemma_div_multiples_vanish(s, 2);
            assert(2 * s == 2 * s) by (nonlinear_arith);
        }
    }
}

/// The reduced exponential is monotone over octave number and remainder,
/// ordered lexicographically.
proof fn lemma_exp_at_mono(k1: int, f1: int, k2: int, f2: int)
    requires
        -243 <= k1 <= k2 <= 242,
        0 <= f1 <= LN2_OVER_8 - 1,
        0 <= f2 <= LN2_OVER_8 - 1,
        k1 == k2 ==> f1 <= f2,
    ensures
        exp_at(k1, f1) <= exp_at(k2, f2),
    decreases k2 - k1,
{
    if k1 == k2 {
        lemma_exp_at_mono_f(k1, f1, f2);
    } else {
        lemma_exp_at_mono_f(k1, f1, LN2_OVER_8 - 1);
        lemma_exp_at_step(k1);
        lemma_exp_at_mono(k1 + 1, 0, k2, f2);
    }
}

/// The fixed-point exponential is monotone in its argument.
pub proof fn lemma_exp_scaled_mono(d1: int, d2: int)
    requires
        -LN_CLAMP <= d1 <= d2 <= LN_CLAMP,
    ensures
        exp_scaled_spec(d1) <= exp_scaled_spec(d2),
{
    let l8 = LN2_OVER_8 as int;
    let k1 = d1 / l8;
    let f1 = d1 % l8;
    let k2 = d2 / l8;
    let f2 = d2 % l8;
    lemma_fundamental_div_mod(d1, l8);
    lemma_fundamental_div_mod(d2, l8);
    lemma_div_is_ordered(d1, d2, l8);
    assert(-243 <= k1 && k2 <= 242);
    assert(exp_scaled_spec(d1) == exp_at(k1, f1));
    assert(exp_scaled_spec(d2) == exp_at(k2, f2));
    if k1 == k2 {
        assert(f1 <= f2);
    }
    lemma_exp_at_mono(k1, f1, k2, f2);
}

/// The bracketing binary search that inverts `exp_scaled_spec`; it is the
/// spec-level mirror of the loop in `ln_scaled`.
pub open spec fn ln_search(y: int, lo: int, hi: int) -> int
    decreases hi - lo,
{
    if hi <= lo + 1 {
        lo
    } else {
        let mid = lo + (hi - lo) / 2;
        if exp_scaled_spec(mid) <= y {
            ln_search(y, mid, hi)
        } else {
            ln_search(y, lo, mid)
        }
    }
}

/// `10^15 * ln(y/2^30)`: the inverse of `exp_scaled_spec`, saturating at
/// both ends of the logarithm range.
pub open spec fn ln_scaled_spec(y: int) -> int {
    if y < exp_scaled_spec(-LN_CLAMP as int) {
        -LN_CLAMP as int
    } else if y >= exp_scaled_spec(LN_CLAMP as int) {
        LN_CLAMP as int
    } else {
        ln_search(y, -LN_CLAMP as int, LN_CLAMP as int)
    }
}

/// Fixed-point natural logarithm, as a binary search over `exp_scaled`:
/// inside the representable range the result `d` brackets the argument,
/// `exp_scaled_spec(d) <= y < exp_scaled_spec(d + 1)`.
pub fn ln_scaled(y: i64) -> (d: i64)
    requires
        0 <= y,
    ensures
        d == ln_scaled_spec(y as int),
        -LN_CLAMP <= d <= LN_CLAMP,
        exp_scaled_spec(-LN_CLAMP as int) <= y ==> exp_scaled_spec(d as int) <= y,
        d < LN_CLAMP ==> y < exp_scaled_spec(d as int + 1),
{
    let elo: i64 = exp_scaled(-LN_CLAMP);
    if y < elo {
        return -LN_CLAMP;
    }
    let ehi: i64 = exp_scaled(LN_CLAMP);
    if y >= ehi {
        return LN_CLAMP;
    }
    let mut lo: i64 = -LN_CLAMP;
    let mut hi: i64 = LN_CLAMP;
    while lo + 1 < hi
        invariant
            -LN_CLAMP <= lo < hi <= LN_CLAMP,
            exp_scaled_spec(lo as int) <= y < exp_scaled_spec(hi as int),
            ln_search(y as int, lo as int, hi as int) == ln_search(
                y as int,
                -LN_CLAMP as int,
                LN_CLAMP as int,
            ),
        decreases hi - lo,
    {
        let mid: i64 = lo + (hi - lo) / 2;
        let em: i64 = exp_scaled(mid);
        if em <= y {
            lo = mid;
        } else {
            hi = mid;
        }
    }
    lo
}

/// The binary search stays inside its bracket: the result's exponential is
/// at most the argument and the next value's exponential exceeds it.
proof fn lemma_ln_search_brackets(y: int, lo: int, hi: int)
    requires
        -LN_CLAMP <= lo < hi <= LN_CLAMP,
        exp_scaled_spec(lo) <= y,
        y < exp_scaled_spec(hi),
    ensures
        lo <= ln_search(y, lo, hi) < hi,
        exp_scaled_spec(ln_search(y, lo, hi)) <= y,
        y < exp_scaled_spec(ln_search(y, lo, hi) + 1),
    decreases hi - lo,
{
    if hi <= lo + 1 {
        assert(hi == lo + 1);
    } else {
        let mid = lo + (hi - lo) / 2;
        lemma_fundamental_div_mod(hi - lo, 2);
        lemma_div_is_ordered(2, hi - lo, 2);
        assert(lo < mid < hi);
        if exp_scaled_spec(mid) <= y {
            lemma_ln_search_brackets(y, mid, hi);
        } else {
            lemma_ln_search_brackets(y, lo, mid);
        }
    }
}

/// The fixed-point logarithm is monotone in its argument.
pub proof fn lemma_ln_scaled_mono(y1: int, y2: int)
    requires
        0 <= y1 <= y2,
    ensures
        ln_scaled_spec(y1) <= ln_scaled_spec(y2),
        -LN_CLAMP <= ln_scaled_spec(y1) <= LN_CLAMP,
        -LN_CLAMP <= ln_scaled_spec(y2) <= LN_CLAMP,
{
    let elo = exp_scaled_spec(-LN_CLAMP as int);
    let ehi = exp_scaled_spec(LN_CLAMP as int);
    let a = ln_scaled_spec(y1);
    let b = ln_scaled_spec(y2);
    if elo <= y1 && y1 < ehi {
        lemma_ln_search_brackets(y1, -LN_CLAMP as int, LN_CLAMP as int);
    }
    if elo <= y2 && y2 < ehi {
        lemma_ln_search_brackets(y2, -LN_CLAMP as int, LN_CLAMP as int);
    }
    if y1 < elo {
        // a is the floor of the range; anything is at least it.
    } else if y1 >= ehi {
        assert(y2 >= ehi);
    } else if y2 >= ehi {
        assert(b == LN_CLAMP as int);
    } else {
        // Both searched: were a above b, monotonicity of the exponential
        // would push y1 above y2.
        if a > b {
            lemma_exp_scaled_mono(b + 1, a);
            assert(false);
        }
    }
}

/// Lower temperature bound of the conversion, in millikelvin (10 K).
pub const TEMP_MIN_MK: i64 = 10_000;

/// Upper temperature bound of the conversion, in millikelvin (1000 K).
pub const TEMP_MAX_MK: i64 = 1_000_000;

/// Reciprocal-temperature scale: `10^15 / t_mk` is `1/T` in units of
/// `10^-12` per kelvin.
pub const INV_TEMP_SCALE: i64 = 1_000_000_000_000_000;

/// Largest admissible base resistance, in milliohms (1 megaohm).
pub const R0_MAX_MOHM: i64 = 1_000_000_000;

/// Largest admissible beta magnitude, in millikelvin (10000 K).
pub const BETA_MAX_MK: i64 = 10_000_000;

/// Validity of a thermistor model parameter set: base temperature in range,
/// positive base resistance, nonzero beta, all within machine bounds.
pub open spec fn model_wf(t0: int, r0: int, b: int) -> bool {
    &&& TEMP_MIN_MK <= t0 <= TEMP_MAX_MK
    &&& 1 <= r0 <= R0_MAX_MOHM
    &&& b != 0
    &&& -BETA_MAX_MK <= b <= BETA_MAX_MK
}

/// `R0 * exp(B*(1/T - 1/T0))` in milliohms, never below 1 milliohm.
pub open spec fn resistance_spec(t0: int, r0: int, b: int, t: int) -> int {
    let d0 = b * (INV_TEMP_SCALE as int / t - INV_TEMP_SCALE as int / t0);
    let d = clamp_i64(d0, -LN_CLAMP as int, LN_CLAMP as int);
    let r = (r0 * exp_scaled_spec(d)) / (EXP_ONE as int);
    if r < 1 {
        1
    } else {
        r
    }
}

/// `1 / (1/T0 + ln(R/R0)/B)` in millikelvin, clamped into the conversion's
/// temperature range.
pub open spec fn temperature_spec(t0: int, r0: int, b: int, r: int) -> int {
    let y = (r * EXP_ONE) / r0;
    let d = ln_scaled_spec(y);
    let inv = INV_TEMP_SCALE as int / t0 + div_trunc(d, b);
    if inv <= 0 {
        TEMP_MAX_MK as int
    } else {
        clamp_i64(INV_TEMP_SCALE as int / inv, TEMP_MIN_MK as int, TEMP_MAX_MK as int)
    }
}

/// The resistance a thermistor with parameters `(t0, r0, b)` shows at
/// temperature `t` millikelvin.
pub fn resistance_from_temperature(t0: i64, r0: i64, b: i64, t: i64) -> (r: i64)
    requires
        model_wf(t0 as int, r0 as int, b as int),
        TEMP_MIN_MK <= t <= TEMP_MAX_MK,
    ensures
        r == resistance_spec(t0 as int, r0 as int, b as int, t as int),
        1 <= r,
{
    proof {
        lemma_div_is_ordered_by_denominator(INV_TEMP_SCALE as int, TEMP_MIN_MK as int, t as int);
        lemma_div_is_ordered_by_denominator(INV_TEMP_SCALE as int, TEMP_MIN_MK as int, t0 as int);
        lemma_div_pos_is_pos(INV_TEMP_SCALE as int, t as int);
        lemma_div_pos_is_pos(INV_TEMP_SCALE as int, t0 as int);
    }
    let invt: i64 = INV_TEMP_SCALE / t;
    let invt0: i64 = INV_TEMP_SCALE / t0;
    let diff: i64 = invt - invt0;
    proof {
        lemma_mul_bound(b as int, diff as int, BETA_MAX_MK as int, 100_000_000_000);
    }
    let d0w: i128 = (b as i128) * (diff as i128);
    let d: i64 = if d0w > LN_CLAMP as i128 {
        LN_CLAMP
    } else if d0w < -LN_CLAMP as i128 {
        -LN_CLAMP
    } else {
        d0w as i64
    };
    let e: i64 = exp_scaled(d);
    proof {
        lemma_mul_bound(r0 as int, e as int, R0_MAX_MOHM as int, 0x4000_0000_0000_0000);
    }
    let rw: u128 = (r0 as u128) * (e as u128);
    proof {
        lemma_div_is_ordered(
            rw as int,
            R0_MAX_MOHM as int * 0x4000_0000_0000_0000,
            EXP_ONE as int,
        );
    }
    let rq: u128 = rw / 1073741824;
    let rr: i64 = rq as i64;
    if rr < 1 {
        1
    } else {
        rr
    }
}

/// Truncating division is monotone in the dividend for a positive divisor.
proof fn lemma_div_trunc_mono(a1: int, a2: int, b: int)
    requires
        a1 <= a2,
        0 < b,
    ensures
        div_trunc(a1, b) <= div_trunc(a2, b),
{
    if 0 <= a1 {
        lemma_div_is_ordered(a1, a2, b);
    } else if a2 < 0 {
        lemma_div_is_ordered(-a2, -a1, b);
    } else {
        lemma_div_pos_is_pos(-a1, b);
        lemma_div_pos_is_pos(a2, b);
    }
}

/// An NTC thermistor's resistance falls as its temperature rises: for a
/// positive beta the conversion is monotonically decreasing in temperature.
pub proof fn lemma_resistance_antitone(t0: int, r0: int, b: int, t1: int, t2: int)
    requires
        model_wf(t0, r0, b),
        0 < b,
        TEMP_MIN_MK <= t1 <= t2 <= TEMP_MAX_MK,
    ensures
        resistance_spec(t0, r0, b, t2) <= resistance_spec(t0, r0, b, t1),
{
    let inv0 = INV_TEMP_SCALE as int / t0;
    let inv1 = INV_TEMP_SCALE as int / t1;
    let inv2 = INV_TEMP_SCALE as int / t2;
    lemma_div_is_ordered_by_denominator(INV_TEMP_SCALE as int, t1, t2);
    crate::lemma_mul_mono(inv2 - inv0, inv1 - inv0, b);
    let d1 = clamp_i64(b * (inv1 - inv0), -LN_CLAMP as int, LN_CLAMP as int);
    let d2 = clamp_i64(b * (inv2 - inv0), -LN_CLAMP as int, LN_CLAMP as int);
    assert(d2 <= d1);
    lemma_exp_scaled_mono(d2, d1);
    crate::lemma_mul_mono(exp_scaled_spec(d2), exp_scaled_spec(d1), r0);
    lemma_div_is_ordered(r0 * exp_scaled_spec(d2), r0 * exp_scaled_spec(d1), EXP_ONE as int);
}

/// The recovered temperature falls as the measured resistance rises: for a
/// positive beta the conversion is monotonically decreasing in resistance.
pub proof fn lemma_temperature_antitone(t0: int, r0: int, b: int, r1: int, r2: int)
    requires
        model_wf(t0, r0, b),
        0 < b,
        1 <= r1 <= r2,
    ensures
        temperature_spec(t0, r0, b, r2) <= temperature_spec(t0, r0, b, r1),
{
    let y1 = (r1 * EXP_ONE) / r0;
    let y2 = (r2 * EXP_ONE) / r0;
    lemma_div_is_ordered(r1 * EXP_ONE, r2 * EXP_ONE, r0);
    lemma_div_pos_is_pos(r1 * EXP_ONE, r0);
    lemma_ln_scaled_mono(y1, y2);
    let d1 = ln_scaled_spec(y1);
    let d2 = ln_scaled_spec(y2);
    lemma_div_trunc_mono(d1, d2, b);
    let inv0 = INV_TEMP_SCALE as int / t0;
    let inv1 = inv0 + div_trunc(d1, b);
    let inv2 = inv0 + div_trunc(d2, b);
    if 0 < inv1 {
        lemma_div_is_ordered_by_denominator(INV_TEMP_SCALE as int, inv1, inv2);
        lemma_div_pos_is_pos(INV_TEMP_SCALE as int, inv2);
    }
}

/// The temperature, in millikelvin, at which a thermistor with parameters
/// `(t0, r0, b)` shows resistance `r` milliohms.
pub fn temperature_from_resistance(t0: i64, r0: i64, b: i64, r: i64) -> (t: i64)
    requires
        model_wf(t0 as int, r0 as int, b as int),
        1 <= r,
    ensures
        t == temperature_spec(t0 as int, r0 as int, b as int, r as int),
        TEMP_MIN_MK <= t <= TEMP_MAX_MK,
{
    let yw: u128 = (r as u128) * 1073741824;
    let yq: u128 = yw / (r0 as u128);
    let elo: i64 = exp_scaled(-LN_CLAMP);
    let ecap: i64 = exp_scaled(LN_CLAMP);
    proof {
        lemma_div_pos_is_pos(yw as int, r0 as int);
    }
    let d: i64 = if yq < elo as u128 {
        -LN_CLAMP
    } else if yq >= ecap as u128 {
        LN_CLAMP
    } else {
        ln_scaled(yq as i64)
    };
    let term: i64 = div_trunc_i64(d, b);
    proof {
        lemma_div_is_ordered_by_denominator(INV_TEMP_SCALE as int, TEMP_MIN_MK as int, t0 as int);
        lemma_div_pos_is_pos(INV_TEMP_SCALE as int, t0 as int);
    }
    let invt0: i64 = INV_TEMP_SCALE / t0;
    let inv: i64 = invt0 + term;
    if inv <= 0 {
        TEMP_MAX_MK
    } else {
        proof {
            lemma_div_pos_is_pos(INV_TEMP_SCALE as int, inv as int);
            lemma_div_nonincreasing(INV_TEMP_SCALE as int, inv as int);
        }
        let tq: i64 = INV_TEMP_SCALE / inv;
        if tq > TEMP_MAX_MK {
            TEMP_MAX_MK
        } else if tq < TEMP_MIN_MK {
            TEMP_MIN_MK
        } else {
            tq
        }
    }
}

} // verus!
