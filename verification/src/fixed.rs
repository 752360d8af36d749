//! Signed 64-bit fixed-point arithmetic in micro-units (one unit is
//! `SCALE` = 1,000,000), together with the clamping, scaling and division
//! helpers the overlay engine is built on, and the decay lemmas for the
//! damped velocities.

use vstd::prelude::*;

verus! {

use vstd::arithmetic::div_mod::{
    lemma_div_by_multiple,
    lemma_div_is_ordered,
    lemma_div_nonincreasing,
    lemma_div_pos_is_pos,
    lemma_fundamental_div_mod,
    lemma_fundamental_div_mod_converse,
};

/// Number of micro-units in one real unit: all continuous state
/// (positions in window pixels, zoom, radius, velocities) is stored
/// multiplied by this factor.
pub const SCALE: i64 = 1_000_000;

/// Largest magnitude a stored cursor coordinate may take
/// (one million window pixels, in micro-units).
pub const POS_LIMIT: i64 = 1_000_000_000_000;

/// Largest magnitude the camera pan offset may take on either axis
/// (one million window pixels, in micro-units).
pub const TARGET_LIMIT: i64 = 1_000_000_000_000;

/// Largest magnitude either damped velocity may take (one billion
/// real units, in micro-units): far beyond anything reachable by input,
/// but small enough that every intermediate product fits in an `i64`.
pub const VEL_LIMIT: i64 = 1_000_000_000_000_000;

/// Largest magnitude accepted from a single scroll event
/// (one million scroll lines, in micro-units).
pub const DELTA_LIMIT: i64 = 1_000_000_000_000;

/// Largest window dimension the engine accepts, in whole pixels;
/// chosen so a dimension in micro-units stays within `POS_LIMIT`.
pub const DIM_LIMIT: u32 = 1_000_000;

/// Magnitude of an integer.
pub open spec fn abs_i(v: int) -> int {
    if v >= 0 {
        v
    } else {
        -v
    }
}

/// Clamp `v` into the closed interval `[lo, hi]`.
pub open spec fn clamp_spec(v: int, lo: int, hi: int) -> int {
    if v < lo {
        lo
    } else if v > hi {
        hi
    } else {
        v
    }
}

/// Integer division truncated toward zero, for a positive divisor.
pub open spec fn div_trunc(a: int, b: int) -> int {
    if a >= 0 {
        a / b
    } else {
        -((-a) / b)
    }
}

/// `v * num / den`, truncated toward zero: the exact-arithmetic form of
/// multiplying by the rational factor `num / den`.
pub open spec fn scaled(v: int, num: int, den: int) -> int {
    div_trunc(v * num, den)
}

/// Fixed-point division: the micro-unit representation of the real
/// quotient of the values represented by `a` and `b`, truncated toward zero.
pub open spec fn fdiv_spec(a: int, b: int) -> int {
    div_trunc(a * SCALE, b)
}

/// Exponential decay by the factor `num / den`, iterated `k` times.
pub open spec fn iter_scaled(v: int, num: int, den: int, k: nat) -> int
    decreases k,
{
    if k == 0 {
        v
    } else {
        iter_scaled(scaled(v, num, den), num, den, (k - 1) as nat)
    }
}

/// Clamp `v` into `[lo, hi]`.
pub fn clamp_i64(v: i64, lo: i64, hi: i64) -> (r: i64)
    requires
        lo <= hi,
    ensures
        r == clamp_spec(v as int, lo as int, hi as int),
        lo <= r <= hi,
{
    if v < lo {
        lo
    } else if v > hi {
        hi
    } else {
        v
    }
}

/// Truncating division of `a * b` by a positive `den`, with sign handled
/// explicitly so only nonnegative machine division is performed.
fn mul_div_trunc(a: i64, b: i64, den: i64) -> (r: i64)
    requires
        0 < den,
        0 <= b,
        i64::MIN < a,
        abs_i(a as int) * b <= i64::MAX,
    ensures
        r == scaled(a as int, b as int, den as int),
        abs_i(r as int) <= abs_i(a as int) * b,
{
    if a >= 0 {
        proof {
            assert(a * b >= 0) by (nonlinear_arith)
                requires
                    a >= 0,
                    b >= 0,
            ;
        }
        let p: i64 = a * b;
        let q: i64 = p / den;
        proof {
            lemma_div_pos_is_pos(p as int, den as int);
            lemma_div_nonincreasing(p as int, den as int);
        }
        q
    } else {
        let m: i64 = -a;
        proof {
            assert(m * b >= 0) by (nonlinear_arith)
                requires
                    m >= 0,
                    b >= 0,
            ;
            assert(m * b == -((a as int) * b)) by (nonlinear_arith)
                requires
                    m == -(a as int),
            ;
        }
        let p: i64 = m * b;
        let q: i64 = p / den;
        proof {
            lemma_div_pos_is_pos(p as int, den as int);
            lemma_div_nonincreasing(p as int, den as int);
        }
        -q
    }
}

/// Multiply by the rational decay factor `num / den` (with
/// `0 <= num <= den`), truncating toward zero.
pub fn decay(v: i64, num: i64, den: i64) -> (r: i64)
    requires
        0 < den,
        0 <= num <= den,
        i64::MIN < v,
        abs_i(v as int) * num <= i64::MAX,
    ensures
        r == scaled(v as int, num as int, den as int),
        abs_i(r as int) <= abs_i(v as int),
{
    proof {
        lemma_scaled_abs_le(v as int, num as int, den as int);
    }
    mul_div_trunc(v, num, den)
}

/// Fixed-point division of `a` by a positive `b`, truncated toward zero.
pub fn fdiv(a: i64, b: i64) -> (r: i64)
    requires
        0 < b,
        i64::MIN < a,
        abs_i(a as int) * SCALE <= i64::MAX,
    ensures
        r == fdiv_spec(a as int, b as int),
        abs_i(r as int) <= abs_i(a as int) * SCALE,
{
    mul_div_trunc(a, SCALE, b)
}

/// Decay by a factor at most one cannot grow a value's magnitude.
pub proof fn lemma_scaled_abs_le(v: int, num: int, den: int)
    requires
        0 < den,
        0 <= num <= den,
    ensures
        abs_i(scaled(v, num, den)) <= abs_i(v),
{
    let m = abs_i(v);
    assert(m * num >= 0) by (nonlinear_arith)
        requires
            m >= 0,
            num >= 0,
    ;
    assert(m * num <= m * den) by (nonlinear_arith)
        requires
            m >= 0,
            num <= den,
    ;
    lemma_div_is_ordered(m * num, m * den, den);
    lemma_div_by_multiple(m, den);
    lemma_div_pos_is_pos(m * num, den);
    if v >= 0 {
        assert(scaled(v, num, den) == (m * num) / den);
    } else {
        assert(v * num == -(m * num)) by (nonlinear_arith)
            requires
                m == -v,
        ;
        if m * num == 0 {
            assert(scaled(v, num, den) == 0int / den);
            assert(0int / den == 0) by {
                lemma_div_pos_is_pos(0, den);
                lemma_div_nonincreasing(0, den);
            }
        } else {
            assert(scaled(v, num, den) == -((m * num) / den));
        }
    }
}

/// Geometric decay, stated exactly: one decay step multiplies the
/// magnitude by at most `num / den`.
pub proof fn lemma_scaled_geometric(v: int, num: int, den: int)
    requires
        0 < den,
        0 <= num,
    ensures
        den * abs_i(scaled(v, num, den)) <= num * abs_i(v),
{
    let m = abs_i(v);
    assert(m * num >= 0) by (nonlinear_arith)
        requires
            m >= 0,
            num >= 0,
    ;
    lemma_fundamental_div_mod(m * num, den);
    lemma_div_pos_is_pos(m * num, den);
    assert(den * ((m * num) / den) <= m * num);
    assert(m * num == num * m) by (nonlinear_arith);
    if v >= 0 {
        assert(scaled(v, num, den) == (m * num) / den);
    } else {
        assert(v * num == -(m * num)) by (nonlinear_arith)
            requires
                m == -v,
        ;
        if m * num == 0 {
            assert(scaled(v, num, den) == 0int / den);
            assert(0int / den == 0) by {
                lemma_div_pos_is_pos(0, den);
                lemma_div_nonincreasing(0, den);
            }
        } else {
            assert(scaled(v, num, den) == -((m * num) / den));
        }
    }
}

/// A strict decay step (`num < den`) strictly shrinks a nonzero value.
pub proof fn lemma_scaled_strictly_decreases(v: int, num: int, den: int)
    requires
        0 < den,
        0 <= num < den,
        v != 0,
    ensures
        abs_i(scaled(v, num, den)) <= abs_i(v) - 1,
{
    let m = abs_i(v);
    assert(m >= 1);
    assert(m * num <= m * den - m) by (nonlinear_arith)
        requires
            m >= 1,
            num <= den - 1,
    ;
    let top = den * (m - 1) + (den - 1);
    assert(m * den - m <= den * (m - 1) + (den - 1)) by (nonlinear_arith)
        requires
            m >= 1,
            den > 0,
    ;
    assert(den * (m - 1) + (den - 1) == (m - 1) * den + (den - 1)) by (nonlinear_arith);
    lemma_fundamental_div_mod_converse(top, den, m - 1, den - 1);
    assert(top / den == m - 1);
    assert(m * num >= 0) by (nonlinear_arith)
        requires
            m >= 0,
            num >= 0,
    ;
    lemma_div_is_ordered(m * num, top, den);
    lemma_div_pos_is_pos(m * num, den);
    if v >= 0 {
        assert(scaled(v, num, den) == (m * num) / den);
    } else {
        assert(v * num == -(m * num)) by (nonlinear_arith)
            requires
                m == -v,
        ;
        if m * num == 0 {
            assert(scaled(v, num, den) == 0int / den);
            assert(0int / den == 0) by {
                lemma_div_pos_is_pos(0, den);
                lemma_div_nonincreasing(0, den);
            }
        } else {
            assert(scaled(v, num, den) == -((m * num) / den));
        }
    }
}

/// Iterated geometric decay, stated exactly: `k` decay steps multiply
/// the magnitude by at most `(num / den)` to the `k`-th power.
pub proof fn lemma_iter_scaled_geometric(v: int, num: int, den: int, k: nat)
    requires
        0 < den,
        0 <= num,
    ensures
        abs_i(iter_scaled(v, num, den, k)) * vstd::arithmetic::power::pow(den, k) <= abs_i(v)
            * vstd::arithmetic::power::pow(num, k),
    decreases k,
{
    vstd::arithmetic::power::lemma_pow_positive(den, k);
    if k == 0 {
        vstd::arithmetic::power::lemma_pow0(den);
        vstd::arithmetic::power::lemma_pow0(num);
    } else {
        let w = scaled(v, num, den);
        let j = (k - 1) as nat;
        let a = abs_i(iter_scaled(w, num, den, j));
        let pd = vstd::arithmetic::power::pow(den, j);
        let pn = vstd::arithmetic::power::pow(num, j);
        assert(iter_scaled(v, num, den, k) == iter_scaled(w, num, den, j));
        assert(vstd::arithmetic::power::pow(den, k) == den * pd) by {
            vstd::arithmetic::power::lemma_pow1(den);
            vstd::arithmetic::power::lemma_pow_adds(den, 1, j);
        }
        assert(vstd::arithmetic::power::pow(num, k) == num * pn) by {
            vstd::arithmetic::power::lemma_pow1(num);
            vstd::arithmetic::power::lemma_pow_adds(num, 1, j);
        }
        lemma_scaled_geometric(v, num, den);
        lemma_iter_scaled_geometric(w, num, den, j);
        vstd::arithmetic::power::lemma_pow_positive(den, j);
        lemma_pow_nonneg(num, j);
        assert(a * (den * pd) == den * (a * pd)) by (nonlinear_arith);
        assert(den * (a * pd) <= den * (abs_i(w) * pn)) by (nonlinear_arith)
            requires
                den > 0,
                a * pd <= abs_i(w) * pn,
        ;
        assert(den * (abs_i(w) * pn) == (den * abs_i(w)) * pn) by (nonlinear_arith);
        assert((den * abs_i(w)) * pn <= (num * abs_i(v)) * pn) by (nonlinear_arith)
            requires
                pn >= 0,
                den * abs_i(w) <= num * abs_i(v),
        ;
        assert((num * abs_i(v)) * pn == abs_i(v) * (num * pn)) by (nonlinear_arith);
    }
}

/// A power of a nonnegative base is nonnegative.
proof fn lemma_pow_nonneg(b: int, e: nat)
    requires
        0 <= b,
    ensures
        0 <= vstd::arithmetic::power::pow(b, e),
    decreases e,
{
    if e == 0 {
        vstd::arithmetic::power::lemma_pow0(b);
    } else {
        lemma_pow_nonneg(b, (e - 1) as nat);
        assert(vstd::arithmetic::power::pow(b, e) == b * vstd::arithmetic::power::pow(
            b,
            (e - 1) as nat,
        )) by {
            vstd::arithmetic::power::lemma_pow1(b);
            vstd::arithmetic::power::lemma_pow_adds(b, 1, (e - 1) as nat);
        }
        assert(b * vstd::arithmetic::power::pow(b, (e - 1) as nat) >= 0) by (nonlinear_arith)
            requires
                b >= 0,
                vstd::arithmetic::power::pow(b, (e - 1) as nat) >= 0,
        ;
    }
}

/// Bounded convergence of the damped velocities: after at most `abs_i(v)`
/// decay steps by any strict factor `num / den`, the value is exactly zero.
pub proof fn lemma_iter_scaled_zero(v: int, num: int, den: int, k: nat)
    requires
        0 < den,
        0 <= num < den,
        abs_i(v) <= k,
    ensures
        iter_scaled(v, num, den, k) == 0,
    decreases k,
{
    if k == 0 {
        assert(v == 0);
    } else {
        lemma_scaled_abs_le(v, num, den);
        if v == 0 {
            assert(0int * num == 0) by (nonlinear_arith);
            assert(scaled(0, num, den) == 0int / den);
            assert(0int / den == 0) by {
                lemma_div_pos_is_pos(0, den);
                lemma_div_nonincreasing(0, den);
            }
            lemma_iter_scaled_zero(0, num, den, (k - 1) as nat);
        } else {
            lemma_scaled_strictly_decreases(v, num, den);
            lemma_iter_scaled_zero(scaled(v, num, den), num, den, (k - 1) as nat);
        }
    }
}

} // verus!
