//! Fixed-point scalars.
//!
//! A scalar is an `i64` carrying the real number `value / SCALE`.  Every
//! operation saturates symmetrically at `±FX_MAX`, so negation is always
//! exact, and divisions truncate toward zero as the hardware `/` does.
//! The spec functions below are the mathematical model of each operation;
//! the executable functions return exactly what the model says.

use vstd::prelude::*;

verus! {

/// Scale of the fixed-point representation: one unit of real value.
pub const SCALE: i64 = 65536;

/// Greatest magnitude a scalar may carry.  Saturation stops here on both
/// sides (never at `i64::MIN`), so `-x` of any scalar in range is in range.
pub const FX_MAX: i64 = 0x7fff_ffff_ffff_ffff;

/// Clamp a mathematical integer into the symmetric scalar range.
pub open spec fn sat(x: int) -> int {
    if x > FX_MAX as int {
        FX_MAX as int
    } else if x < -(FX_MAX as int) {
        -(FX_MAX as int)
    } else {
        x
    }
}

/// `sat`, carried back into `i64`.
pub open spec fn sat64(x: int) -> i64 {
    sat(x) as i64
}

/// Magnitude of a mathematical integer.
pub open spec fn mag(a: int) -> int {
    if a < 0 {
        -a
    } else {
        a
    }
}

/// Division truncating toward zero, matching the behavior of `/` on the
/// machine integers: divide the magnitudes (where spec-level Euclidean `/`
/// agrees with truncation) and restore the sign.  Unspecified for `b == 0`,
/// like the spec-level `/`.
pub open spec fn tdiv(a: int, b: int) -> int {
    if (a < 0) != (b < 0) {
        -(mag(a) / mag(b))
    } else {
        mag(a) / mag(b)
    }
}

pub open spec fn spec_add(a: i64, b: i64) -> i64 {
    sat64(a + b)
}

pub open spec fn spec_sub(a: i64, b: i64) -> i64 {
    sat64(a - b)
}

pub open spec fn spec_neg(a: i64) -> i64 {
    sat64(-a)
}

/// Fixed-point product: `(a * b) / SCALE`, truncated and saturated.
pub open spec fn spec_mul(a: i64, b: i64) -> i64 {
    sat64(tdiv(a * b, SCALE as int))
}

/// Fixed-point quotient: `(a * SCALE) / b`, truncated and saturated.
/// Total in spec; the executable function requires `b != 0`.
pub open spec fn spec_div(a: i64, b: i64) -> i64 {
    if b == 0 {
        0
    } else {
        sat64(tdiv(a * SCALE, b as int))
    }
}

/// What it means for `r` to be the integer square root of `n`.
pub open spec fn is_sqrt(n: int, r: int) -> bool {
    0 <= r && r * r <= n && n < (r + 1) * (r + 1)
}

/// The integer square root, as a total spec value; meaningful for `n >= 0`
/// (see `lemma_sqrt_exists`).
pub open spec fn sqrt_val(n: int) -> int {
    choose|r: int| is_sqrt(n, r)
}

/// Every nonnegative integer has an integer square root, so `sqrt_val`
/// denotes one.
pub proof fn lemma_sqrt_exists(n: int)
    requires
        n >= 0,
    ensures
        is_sqrt(n, sqrt_val(n)),
    decreases n,
{
    if n == 0 {
        assert(is_sqrt(0, 0));
    } else {
        lemma_sqrt_exists(n - 1);
        let r = sqrt_val(n - 1);
        if (r + 1) * (r + 1) <= n {
            assert(is_sqrt(n, r + 1)) by (nonlinear_arith)
                requires
                    is_sqrt(n - 1, r),
                    (r + 1) * (r + 1) <= n,
            ;
        } else {
            assert(is_sqrt(n, r));
        }
    }
}

/// The integer square root is unique.
pub proof fn lemma_sqrt_unique(n: int, r1: int, r2: int)
    requires
        is_sqrt(n, r1),
        is_sqrt(n, r2),
    ensures
        r1 == r2,
{
    assert(r1 == r2) by (nonlinear_arith)
        requires
            is_sqrt(n, r1),
            is_sqrt(n, r2),
    ;
}

/// The fixed-point square root: the integer square root of `x * SCALE`,
/// which carries the square root of the real value `x / SCALE`.  For
/// `x >= 0` it fits easily in `i64` (it is below `2^40`).
pub open spec fn spec_sqrt64(x: i64) -> i64 {
    sqrt_val(x * SCALE) as i64
}

pub fn fx_sqrt(x: i64) -> (r: i64)
    requires
        x >= 0,
    ensures
        r == spec_sqrt64(x),
        r as int == sqrt_val(x * SCALE),
        r >= 0,
{
    proof {
        assert((x as int) * (SCALE as int) < 0x100000000000000000000) by (nonlinear_arith)
            requires
                0 <= x <= i64::MAX,
        ;
    }
    let n: u128 = (x as u128) * (SCALE as u128);
    let mut lo: u128 = 0;
    let mut hi: u128 = 0x10000000000;
    while lo + 1 < hi
        invariant
            n == (x as int) * (SCALE as int),
            (lo as int) * (lo as int) <= n as int,
            (n as int) < (hi as int) * (hi as int),
            lo < hi,
            hi <= 0x10000000000,
        decreases hi - lo,
    {
        let mid = lo + (hi - lo) / 2;
        proof {
            assert(mid * mid <= u128::MAX) by (nonlinear_arith)
                requires
                    mid <= 0x10000000000,
            ;
        }
        if mid * mid <= n {
            lo = mid;
        } else {
            hi = mid;
        }
    }
    proof {
        assert(is_sqrt(n as int, lo as int));
        lemma_sqrt_exists(n as int);
        lemma_sqrt_unique(n as int, lo as int, sqrt_val(n as int));
    }
    lo as i64
}

/// The 64-bit carrier of the fixed-point square root is faithful: the
/// root of a nonnegative scalar is below `2^40`, so the cast loses nothing.
pub proof fn lemma_sqrt64_bounds(x: i64)
    requires
        x >= 0,
    ensures
        spec_sqrt64(x) as int == sqrt_val(x * SCALE),
        0 <= spec_sqrt64(x) < 0x10000000000,
        is_sqrt(x * SCALE, sqrt_val(x * SCALE)),
{
    lemma_sqrt_exists(x * SCALE);
    let n = (x as int) * (SCALE as int);
    let r = sqrt_val(n);
    assert(0 <= r < 0x10000000000) by (nonlinear_arith)
        requires
            is_sqrt(n, r),
            n < 0x100000000000000000000,
    ;
    assert(n < 0x100000000000000000000) by (nonlinear_arith)
        requires
            0 <= x <= i64::MAX,
            n == (x as int) * (SCALE as int),
    ;
}

/// Multiplying a moderate scalar by one (the unit scale) is exact.
pub proof fn lemma_mul_one_exact(x: i64)
    requires
        mag(x as int) <= 0x7fffffffffff,
    ensures
        spec_mul(x, SCALE) == x,
        spec_mul(SCALE, x) == x,
{
    vstd::arithmetic::div_mod::lemma_div_multiples_vanish(mag(x as int), SCALE as int);
    assert(mag((x as int) * (SCALE as int)) == (SCALE as int) * mag(x as int)) by (nonlinear_arith);
    assert(mag((SCALE as int) * (x as int)) == (SCALE as int) * mag(x as int)) by (nonlinear_arith);
}

/// A product with a zero factor is exactly zero.
pub proof fn lemma_mul_zero(b: i64)
    ensures
        spec_mul(0, b) == 0,
        spec_mul(b, 0) == 0,
{
    vstd::arithmetic::div_mod::lemma_div_of0(SCALE as int);
}

/// The square of any scalar is nonnegative after scaling and saturation.
pub proof fn lemma_mul_square_nonneg(a: i64)
    ensures
        spec_mul(a, a) >= 0,
{
    assert(a * a >= 0) by (nonlinear_arith);
    vstd::arithmetic::div_mod::lemma_div_pos_is_pos(a * a, SCALE as int);
}

/// A product with a factor in `[0, SCALE]` shrinks: the other factor is an
/// upper bound.
pub proof fn lemma_mul_unit_range(a: i64, b: i64)
    requires
        0 <= a <= SCALE,
        0 <= b,
    ensures
        0 <= spec_mul(a, b) <= b,
{
    let p = (a as int) * (b as int);
    assert(0 <= (a as int) * (b as int) && (a as int) * (b as int) <= (SCALE as int) * (b as int))
        by (nonlinear_arith)
        requires
            0 <= a <= SCALE,
            0 <= b,
    ;
    vstd::arithmetic::div_mod::lemma_div_pos_is_pos(p, SCALE as int);
    vstd::arithmetic::div_mod::lemma_div_is_ordered(p, (SCALE as int) * (b as int), SCALE as int);
    vstd::arithmetic::div_mod::lemma_div_multiples_vanish(b as int, SCALE as int);
}

/// Carry a small integer into fixed point.
pub open spec fn spec_from_int(n: i64) -> i64 {
    sat64(n * SCALE)
}

pub fn fx_from_int(n: i64) -> (r: i64)
    ensures
        r == spec_from_int(n),
{
    proof {
        assert(mag(n as int) * (SCALE as int) < -(i128::MIN as int)) by (nonlinear_arith)
            requires
                i64::MIN <= n <= i64::MAX,
        ;
    }
    clip((n as i128) * (SCALE as i128))
}

pub open spec fn spec_min(a: i64, b: i64) -> i64 {
    if a < b {
        a
    } else {
        b
    }
}

pub fn fx_min(a: i64, b: i64) -> (r: i64)
    ensures
        r == spec_min(a, b),
{
    if a < b {
        a
    } else {
        b
    }
}

pub open spec fn spec_abs(a: i64) -> i64 {
    if a < 0 {
        spec_neg(a)
    } else {
        a
    }
}

pub fn fx_abs(a: i64) -> (r: i64)
    ensures
        r == spec_abs(a),
        r >= 0,
{
    if a < 0 {
        fx_neg(a)
    } else {
        a
    }
}

pub open spec fn spec_clamp(x: i64, lo: i64, hi: i64) -> i64 {
    if x < lo {
        lo
    } else if x > hi {
        hi
    } else {
        x
    }
}

pub fn fx_clamp(x: i64, lo: i64, hi: i64) -> (r: i64)
    requires
        lo <= hi,
    ensures
        r == spec_clamp(x, lo, hi),
        lo <= r <= hi,
{
    if x < lo {
        lo
    } else if x > hi {
        hi
    } else {
        x
    }
}

/// Saturate a wide intermediate result back into the scalar range.
fn clip(x: i128) -> (r: i64)
    ensures
        r == sat64(x as int),
        r as int == sat(x as int),
{
    if x > FX_MAX as i128 {
        FX_MAX
    } else if x < -(FX_MAX as i128) {
        -FX_MAX
    } else {
        x as i64
    }
}

pub fn fx_add(a: i64, b: i64) -> (r: i64)
    ensures
        r == spec_add(a, b),
{
    clip(a as i128 + b as i128)
}

pub fn fx_sub(a: i64, b: i64) -> (r: i64)
    ensures
        r == spec_sub(a, b),
{
    clip(a as i128 - b as i128)
}

pub fn fx_neg(a: i64) -> (r: i64)
    ensures
        r == spec_neg(a),
{
    clip(-(a as i128))
}

pub fn fx_mul(a: i64, b: i64) -> (r: i64)
    ensures
        r == spec_mul(a, b),
{
    proof {
        assert((a as int) * (b as int) <= i128::MAX && i128::MIN <= (a as int) * (b as int))
            by (nonlinear_arith)
            requires
                i64::MIN <= a <= i64::MAX,
                i64::MIN <= b <= i64::MAX,
        ;
    }
    let p: i128 = (a as i128) * (b as i128);
    let q: i128 = p / (SCALE as i128);
    clip(q)
}

pub fn fx_div(a: i64, b: i64) -> (r: i64)
    requires
        b != 0,
    ensures
        r == spec_div(a, b),
{
    proof {
        assert(-(i128::MIN as int) > (mag(a as int)) * (SCALE as int)) by (nonlinear_arith)
            requires
                i64::MIN <= a <= i64::MAX,
        ;
    }
    let n: i128 = (a as i128) * (SCALE as i128);
    let na: i128 = if n < 0 { -n } else { n };
    let nb: i128 = if b < 0 { -(b as i128) } else { b as i128 };
    proof {
        vstd::arithmetic::div_mod::lemma_div_nonincreasing(na as int, nb as int);
        vstd::arithmetic::div_mod::lemma_div_pos_is_pos(na as int, nb as int);
    }
    let q0: i128 = na / nb;
    let q: i128 = if (a < 0) != (b < 0) { -q0 } else { q0 };
    clip(q)
}

} // verus!
