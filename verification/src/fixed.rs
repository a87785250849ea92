//! Fixed-point numbers: an `i64` counts millionths of a unit.
//!
//! Every operation saturates at the ends of the `i64` range instead of
//! overflowing, and every quotient is rounded toward zero.

use vstd::prelude::*;

verus! {

/// The number one.
pub const ONE: i64 = 1_000_000;

/// The value of `v` brought into the `i64` range.
pub open spec fn saturate(v: int) -> i64 {
    if v < i64::MIN {
        i64::MIN
    } else if v > i64::MAX {
        i64::MAX
    } else {
        v as i64
    }
}

/// The absolute value of `v`.
pub open spec fn magnitude(v: int) -> int {
    if v < 0 {
        -v
    } else {
        v
    }
}

/// The quotient of `n` by `d`, rounded toward zero.
pub open spec fn quotient(n: int, d: int) -> int
    recommends
        d != 0,
{
    if (n < 0) != (d < 0) {
        -(magnitude(n) / magnitude(d))
    } else {
        magnitude(n) / magnitude(d)
    }
}

/// A count of millionths of millionths as a count of millionths, rounded
/// toward zero.
pub open spec fn rescale(n: int) -> int {
    if n < 0 {
        -((-n) / 1_000_000)
    } else {
        n / 1_000_000
    }
}

/// The sum of `a` and `b`, saturated.
pub open spec fn spec_plus(a: i64, b: i64) -> i64 {
    saturate(a + b)
}

/// The difference of `a` and `b`, saturated.
pub open spec fn spec_minus(a: i64, b: i64) -> i64 {
    saturate(a - b)
}

/// The product of `a` and `b`, rounded toward zero to a millionth and
/// saturated.
pub open spec fn spec_times(a: i64, b: i64) -> i64 {
    saturate(rescale(a * b))
}

/// The quotient of `a` by `b`, rounded toward zero to a millionth and
/// saturated.
pub open spec fn spec_divide(a: i64, b: i64) -> i64
    recommends
        b != 0,
{
    saturate(quotient(a * ONE, b as int))
}

/// The whole number `n` as a fixed-point number.
pub open spec fn spec_from_whole(n: i32) -> i64 {
    (n * ONE) as i64
}

/// The whole part of `v`: the fraction is dropped.
pub open spec fn spec_whole(v: i64) -> i64 {
    rescale(v as int) as i64
}

/// The screen coordinate of `v`: its whole part, kept within `i32`.
pub open spec fn spec_pixel(v: i64) -> i32 {
    let w = rescale(v as int);
    if w < i32::MIN {
        i32::MIN
    } else if w > i32::MAX {
        i32::MAX
    } else {
        w as i32
    }
}

/// Whether `r` is the square root of `n` rounded down.
pub open spec fn is_floor_sqrt(r: int, n: int) -> bool {
    0 <= r && r * r <= n < (r + 1) * (r + 1)
}

/// The square root of `n` rounded down, for `n >= 0`.
pub open spec fn floor_sqrt(n: int) -> int {
    choose|r: int| is_floor_sqrt(r, n)
}

/// The length of the vector `(x, y)`, rounded down to a millionth.
pub open spec fn spec_hypot(x: i64, y: i64) -> i64 {
    saturate(floor_sqrt(x * x + y * y))
}

/// At most one number is the rounded-down square root of `n`.
pub proof fn lemma_floor_sqrt_unique(r: int, s: int, n: int)
    requires
        is_floor_sqrt(r, n),
        is_floor_sqrt(s, n),
    ensures
        r == s,
{
    if r < s {
        assert((r + 1) * (r + 1) <= s * s) by (nonlinear_arith)
            requires
                0 <= r,
                r + 1 <= s,
        ;
    } else if s < r {
        assert((s + 1) * (s + 1) <= r * r) by (nonlinear_arith)
            requires
                0 <= s,
                s + 1 <= r,
        ;
    }
}

/// A product whose exact value has magnitude at most `bound` whole
/// millionths has magnitude at most `bound`.
pub proof fn lemma_times_magnitude(a: i64, b: i64, bound: int)
    requires
        magnitude(a * b) <= bound * ONE,
        0 <= bound <= i64::MAX,
    ensures
        magnitude(spec_times(a, b) as int) <= bound,
{
}

/// Multiplying by a factor of magnitude at most one brings a number no
/// further from zero.
pub proof fn lemma_times_shrinks(a: i64, c: i64)
    requires
        -ONE <= c <= ONE,
    ensures
        magnitude(spec_times(a, c) as int) <= magnitude(a as int),
{
    assert(magnitude(a * c) <= magnitude(a as int) * ONE) by (nonlinear_arith)
        requires
            -ONE <= c <= ONE,
    ;
}

/// Where nothing is negative, the quotient is the plain one, rounded down.
pub proof fn lemma_divide_positive(a: i64, b: i64)
    requires
        0 <= a,
        0 < b,
    ensures
        spec_divide(a, b) == saturate((a * ONE) / (b as int)),
{
    assert(a * ONE >= 0) by (nonlinear_arith)
        requires
            a >= 0,
            ONE == 1_000_000,
    ;
}

/// The product of a whole number `k` with `b` is exact.
pub proof fn lemma_times_whole(k: int, b: i64)
    requires
        i64::MIN <= k * ONE <= i64::MAX,
    ensures
        spec_times((k * ONE) as i64, b) == saturate(k * b),
{
    let a = (k * ONE) as i64;
    assert(a * b == (k * b) * ONE) by (nonlinear_arith)
        requires
            a == k * ONE,
    ;
}

fn narrow(v: i128) -> (r: i64)
    ensures
        r == saturate(v as int),
{
    if v < i64::MIN as i128 {
        i64::MIN
    } else if v > i64::MAX as i128 {
        i64::MAX
    } else {
        v as i64
    }
}

fn unsigned(v: i64) -> (r: u128)
    ensures
        r == magnitude(v as int),
{
    if v < 0 {
        (-(v as i128)) as u128
    } else {
        v as u128
    }
}

/// The sum of `a` and `b`.
#[verifier::when_used_as_spec(spec_plus)]
pub fn plus(a: i64, b: i64) -> (r: i64)
    ensures
        r == spec_plus(a, b),
{
    narrow(a as i128 + b as i128)
}

/// The difference of `a` and `b`.
#[verifier::when_used_as_spec(spec_minus)]
pub fn minus(a: i64, b: i64) -> (r: i64)
    ensures
        r == spec_minus(a, b),
{
    narrow(a as i128 - b as i128)
}

/// The product of `a` and `b`, rounded toward zero to a millionth.
#[verifier::when_used_as_spec(spec_times)]
pub fn times(a: i64, b: i64) -> (r: i64)
    ensures
        r == spec_times(a, b),
{
    assert(-0x8000_0000_0000_0000 * 0x8000_0000_0000_0000 <= a * b
        <= 0x8000_0000_0000_0000 * 0x8000_0000_0000_0000) by (nonlinear_arith)
        requires
            -0x8000_0000_0000_0000 <= a < 0x8000_0000_0000_0000,
            -0x8000_0000_0000_0000 <= b < 0x8000_0000_0000_0000,
    ;
    let wide: i128 = (a as i128) * (b as i128);
    narrow(wide / (ONE as i128))
}

/// The quotient of `a` by `b`, rounded toward zero to a millionth.
#[verifier::when_used_as_spec(spec_divide)]
pub fn divide(a: i64, b: i64) -> (r: i64)
    requires
        b != 0,
    ensures
        r == spec_divide(a, b),
{
    let n: u128 = unsigned(a) * 1_000_000;
    let d: u128 = unsigned(b);
    let q: u128 = n / d;
    if (a < 0) != (b < 0) {
        narrow(-(q as i128))
    } else {
        narrow(q as i128)
    }
}

/// The whole number `n` as a fixed-point number.
#[verifier::when_used_as_spec(spec_from_whole)]
pub fn from_whole(n: i32) -> (r: i64)
    ensures
        r == spec_from_whole(n),
        r == n * ONE,
{
    (n as i64) * ONE
}

/// The whole part of `v`: the fraction is dropped.
#[verifier::when_used_as_spec(spec_whole)]
pub fn whole(v: i64) -> (r: i64)
    ensures
        r == spec_whole(v),
{
    v / ONE
}

/// The screen coordinate of `v`: its whole part, kept within `i32`.
#[verifier::when_used_as_spec(spec_pixel)]
pub fn pixel(v: i64) -> (r: i32)
    ensures
        r == spec_pixel(v),
{
    let w: i64 = v / ONE;
    if w < i32::MIN as i64 {
        i32::MIN
    } else if w > i32::MAX as i64 {
        i32::MAX
    } else {
        w as i32
    }
}

/// The square root of `n`, rounded down.
pub fn sqrt(n: u128) -> (r: u64)
    ensures
        r == floor_sqrt(n as int),
        is_floor_sqrt(r as int, n as int),
{
    let mut low: u128 = 0;
    let mut high: u128 = 0x1_0000_0000_0000_0000;
    while high - low > 1
        invariant
            low < high <= 0x1_0000_0000_0000_0000,
            low * low <= n < high * high,
        decreases high - low,
    {
        let mid: u128 = low + (high - low) / 2;
        assert(mid * mid <= 0xffff_ffff_ffff_ffff * 0xffff_ffff_ffff_ffff) by (nonlinear_arith)
            requires
                0 <= mid <= 0xffff_ffff_ffff_ffff,
        ;
        if mid * mid <= n {
            low = mid;
        } else {
            high = mid;
        }
    }
    proof {
        assert(is_floor_sqrt(low as int, n as int));
        lemma_floor_sqrt_unique(low as int, floor_sqrt(n as int), n as int);
    }
    low as u64
}

/// The length of the vector `(x, y)`, rounded down to a millionth.
#[verifier::when_used_as_spec(spec_hypot)]
pub fn hypot(x: i64, y: i64) -> (r: i64)
    ensures
        r == spec_hypot(x, y),
        0 <= r,
        r < i64::MAX ==> is_floor_sqrt(r as int, x * x + y * y),
{
    let a: u128 = unsigned(x);
    let b: u128 = unsigned(y);
    assert(a * a <= 0x8000_0000_0000_0000 * 0x8000_0000_0000_0000) by (nonlinear_arith)
        requires
            0 <= a <= 0x8000_0000_0000_0000,
    ;
    assert(b * b <= 0x8000_0000_0000_0000 * 0x8000_0000_0000_0000) by (nonlinear_arith)
        requires
            0 <= b <= 0x8000_0000_0000_0000,
    ;
    assert(a * a == x * x) by (nonlinear_arith)
        requires
            a == x || a == -x,
    ;
    assert(b * b == y * y) by (nonlinear_arith)
        requires
            b == y || b == -y,
    ;
    let length: u64 = sqrt(a * a + b * b);
    if length > i64::MAX as u64 {
        i64::MAX
    } else {
        length as i64
    }
}

} // verus!
