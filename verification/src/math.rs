use vstd::prelude::*;

verus! {

/// Godot's `wrapi`: `value` wrapped into the half-open range between `min`
/// and `max` (from `min` up to, not including, `max`; mirrored when
/// `max < min`; `min` itself when the range is empty).
pub open spec fn spec_wrapi(value: int, min: int, max: int) -> int {
    if max == min {
        min
    } else if max > min {
        min + (value - min) % (max - min)
    } else {
        min - (min - value) % (min - max)
    }
}

/// Wraps the integer `value` between `min` and `max`, as Godot's global
/// `wrapi` does.
pub fn wrapi(value: i64, min: i64, max: i64) -> (r: i64)
    ensures
        r == spec_wrapi(value as int, min as int, max as int),
{
    if max == min {
        return min;
    }
    let v = value as i128;
    let lo = min as i128;
    let hi = max as i128;
    if hi > lo {
        let range: i128 = hi - lo;
        let d: i128 = v - lo;
        let m: i128 = euclid_mod(d, range);
        let r: i128 = lo + m;
        r as i64
    } else {
        let range: i128 = lo - hi;
        let d: i128 = lo - v;
        let m: i128 = euclid_mod(d, range);
        let r: i128 = lo - m;
        r as i64
    }
}

/// Non-negative remainder of `d` by a positive `range`.
fn euclid_mod(d: i128, range: i128) -> (m: i128)
    requires
        range > 0,
        d > i128::MIN,
    ensures
        m == d % range,
        0 <= m < range,
{
    if d >= 0 {
        let m = d % range;
        m
    } else {
        let nd: i128 = -d;
        let r: i128 = nd % range;
        proof {
            lemma_neg_mod(d as int, range as int, r as int);
        }
        if r == 0 {
            0
        } else {
            range - r
        }
    }
}

proof fn lemma_neg_mod(d: int, range: int, r: int)
    requires
        range > 0,
        d < 0,
        r == (-d) % range,
    ensures
        r == 0 ==> d % range == 0,
        r != 0 ==> d % range == range - r,
{
    let q = (-d) / range;
    vstd::arithmetic::div_mod::lemma_fundamental_div_mod(-d, range);
    assert(-d == range * q + r);
    assert(d == range * (-q) + (-r)) by (nonlinear_arith)
        requires -d == range * q + r;
    if r == 0 {
        assert(d == range * (-q));
        vstd::arithmetic::div_mod::lemma_mod_multiples_basic(-q, range);
        assert((-q) * range == range * (-q)) by (nonlinear_arith);
    } else {
        assert(d == range * (-q - 1) + (range - r)) by (nonlinear_arith)
            requires d == range * (-q) + (-r);
        vstd::arithmetic::div_mod::lemma_fundamental_div_mod_converse(d, range, -q - 1, range - r);
    }
}

/// A non-empty range wraps every value into itself, keeping it congruent
/// to the original value.
pub proof fn lemma_wrapi_range(value: int, min: int, max: int)
    requires
        min < max,
    ensures
        min <= spec_wrapi(value, min, max) < max,
        (spec_wrapi(value, min, max) - value) % (max - min) == 0,
        min <= value < max ==> spec_wrapi(value, min, max) == value,
{
    let r = max - min;
    let m = (value - min) % r;
    vstd::arithmetic::div_mod::lemma_fundamental_div_mod(value - min, r);
    let q = (value - min) / r;
    assert(spec_wrapi(value, min, max) - value == -(r * q));
    vstd::arithmetic::div_mod::lemma_mod_multiples_basic(-q, r);
    assert((-q) * r == -(r * q)) by (nonlinear_arith);
    if min <= value < max {
        vstd::arithmetic::div_mod::lemma_small_mod((value - min) as nat, r as nat);
    }
}

/// `x` clamped into the range of `i64`.
pub open spec fn spec_clamp_i64(x: int) -> i64 {
    if x > i64::MAX {
        i64::MAX
    } else if x < i64::MIN {
        i64::MIN
    } else {
        x as i64
    }
}

/// `a + b`, saturating at the bounds of `i64`.
pub fn sat_add(a: i64, b: i64) -> (r: i64)
    ensures
        r == spec_clamp_i64(a + b),
{
    let s: i128 = a as i128 + b as i128;
    if s > i64::MAX as i128 {
        i64::MAX
    } else if s < i64::MIN as i128 {
        i64::MIN
    } else {
        s as i64
    }
}

/// `a - b`, saturating at the bounds of `i64`.
pub fn sat_sub(a: i64, b: i64) -> (r: i64)
    ensures
        r == spec_clamp_i64(a - b),
{
    let s: i128 = a as i128 - b as i128;
    if s > i64::MAX as i128 {
        i64::MAX
    } else if s < i64::MIN as i128 {
        i64::MIN
    } else {
        s as i64
    }
}

} // verus!
