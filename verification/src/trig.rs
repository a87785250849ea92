//! Sine and cosine of fixed-point angles.
//!
//! An angle is a count of millionths of a radian. A quarter turn is taken as
//! `HALF_PI` millionths exactly, so that the four quadrants tile the circle,
//! and the sine of the first quadrant is the odd polynomial of degree eleven
//! in Horner form, each quotient rounded down.
//!
//! The contracts say which number comes out, and that it never leaves the
//! span from minus one to one. How near it is to the sine of the real
//! numbers is measured by the tests, not proved: within one turn of zero the
//! two differ by less than three millionths, and since a turn is taken a
//! little short, each further turn shifts the angle by little more than a
//! millionth of a radian.

use vstd::prelude::*;
use crate::fixed::ONE;

verus! {

/// A quarter turn.
pub const HALF_PI: i64 = 1_570_796;

/// Half a turn.
pub const PI: i64 = 3_141_592;

/// A full turn.
pub const TAU: i64 = 6_283_184;

/// One factor of the Horner form: `1 - x2 * p / k`.
pub open spec fn horner(x2: int, p: int, k: int) -> int {
    ONE - (x2 * p) / (k * ONE)
}

/// The sine of `t`, for `t` in the first quadrant.
pub open spec fn quarter_sine(t: int) -> int
    recommends
        0 <= t <= HALF_PI,
{
    let x2 = (t * t) / (ONE as int);
    let p = horner(
        x2,
        horner(x2, horner(x2, horner(x2, horner(x2, ONE as int, 110), 72), 42), 20),
        6,
    );
    let s = (t * p) / (ONE as int);
    if s > ONE {
        ONE as int
    } else {
        s
    }
}

/// The angle `a` brought into one turn, `0 <= r < TAU`.
pub open spec fn reduce(a: int) -> int {
    a % (TAU as int)
}

/// The sine of the angle `r`, for `0 <= r < TAU`.
pub open spec fn sine_of_reduced(r: int) -> int
    recommends
        0 <= r < TAU,
{
    let t = r % (HALF_PI as int);
    let q = r / (HALF_PI as int);
    if q == 0 {
        quarter_sine(t)
    } else if q == 1 {
        quarter_sine(HALF_PI - t)
    } else if q == 2 {
        -quarter_sine(t)
    } else {
        -quarter_sine(HALF_PI - t)
    }
}

/// The sine of `angle`.
pub open spec fn spec_sin(angle: i64) -> i64 {
    sine_of_reduced(reduce(angle as int)) as i64
}

/// The cosine of `angle`: the sine a quarter turn further on.
pub open spec fn spec_cos(angle: i64) -> i64 {
    sine_of_reduced(reduce(angle + HALF_PI)) as i64
}

/// The polynomial stays between zero and one on the first quadrant.
pub proof fn lemma_quarter_sine_bounds(t: int)
    requires
        0 <= t <= HALF_PI,
    ensures
        0 <= quarter_sine(t) <= ONE,
{
    let x2 = (t * t) / (ONE as int);
    assert(0 <= t * t <= 1_570_796 * 1_570_796) by (nonlinear_arith)
        requires
            0 <= t <= 1_570_796,
    ;
    assert(0 <= x2 <= 2_467_401);
    let c5 = horner(x2, ONE as int, 110);
    lemma_horner_bounds(x2, ONE as int, 110);
    let c4 = horner(x2, c5, 72);
    lemma_horner_bounds(x2, c5, 72);
    let c3 = horner(x2, c4, 42);
    lemma_horner_bounds(x2, c4, 42);
    let c2 = horner(x2, c3, 20);
    lemma_horner_bounds(x2, c3, 20);
    let c1 = horner(x2, c2, 6);
    lemma_horner_bounds(x2, c2, 6);
    assert(0 <= t * c1) by (nonlinear_arith)
        requires
            0 <= t,
            0 <= c1,
    ;
}

proof fn lemma_horner_bounds(x2: int, p: int, k: int)
    requires
        0 <= x2 <= 2_467_401,
        0 <= p <= ONE,
        6 <= k,
    ensures
        0 <= horner(x2, p, k) <= ONE,
{
    assert(0 <= x2 * p <= 2_467_401 * 1_000_000) by (nonlinear_arith)
        requires
            0 <= x2 <= 2_467_401,
            0 <= p <= 1_000_000,
    ;
    assert(k * ONE >= 6_000_000) by (nonlinear_arith)
        requires
            k >= 6,
    ;
    let d = k * ONE;
    assert(0 <= (x2 * p) / d <= 1_000_000) by (nonlinear_arith)
        requires
            0 <= x2 * p <= 2_467_401 * 1_000_000,
            d >= 6_000_000,
    ;
}

/// Sine and cosine never leave the interval from minus one to one.
pub proof fn lemma_unit_bounds(angle: i64)
    ensures
        -ONE <= spec_sin(angle) <= ONE,
        -ONE <= spec_cos(angle) <= ONE,
{
    lemma_reduced_bounds(reduce(angle as int));
    lemma_reduced_bounds(reduce(angle + HALF_PI));
}

/// At the four axes sine and cosine are exact.
pub proof fn lemma_axes()
    ensures
        spec_sin(0) == 0,
        spec_cos(0) == ONE,
        spec_sin(HALF_PI) == ONE,
        spec_cos(HALF_PI) == 0,
        spec_sin(PI) == 0,
        spec_cos(PI) == -ONE,
        spec_sin((-HALF_PI) as i64) == -ONE,
        spec_cos((-HALF_PI) as i64) == 0,
{
    assert(quarter_sine(0) == 0);
    assert(quarter_sine(HALF_PI as int) == ONE) by {
        let x2 = (1_570_796int * 1_570_796int) / 1_000_000int;
        assert(x2 == 2_467_400);
        assert(horner(x2, ONE as int, 110) == 977_570);
        assert(horner(x2, 977_570, 72) == 966_500);
        assert(horner(x2, 966_500, 42) == 943_221);
        assert(horner(x2, 943_221, 20) == 883_635);
        assert(horner(x2, 883_635, 6) == 636_620);
    }
}

proof fn lemma_reduced_bounds(r: int)
    requires
        0 <= r < TAU,
    ensures
        -ONE <= sine_of_reduced(r) <= ONE,
{
    let t = r % (HALF_PI as int);
    lemma_quarter_sine_bounds(t);
    lemma_quarter_sine_bounds(HALF_PI - t);
}

fn step(x2: i64, p: i64, k: i64) -> (r: i64)
    requires
        0 <= x2 <= 2_467_401,
        0 <= p <= ONE,
        6 <= k <= 110,
    ensures
        r == horner(x2 as int, p as int, k as int),
        0 <= r <= ONE,
{
    proof {
        lemma_horner_bounds(x2 as int, p as int, k as int);
        assert(0 <= x2 * p <= 2_467_401 * 1_000_000) by (nonlinear_arith)
            requires
                0 <= x2 <= 2_467_401,
                0 <= p <= 1_000_000,
        ;
    }
    ONE - (x2 * p) / (k * ONE)
}

fn first_quadrant(t: i64) -> (r: i64)
    requires
        0 <= t <= HALF_PI,
    ensures
        r == quarter_sine(t as int),
        0 <= r <= ONE,
{
    proof {
        lemma_quarter_sine_bounds(t as int);
        assert(0 <= t * t <= 1_570_796 * 1_570_796) by (nonlinear_arith)
            requires
                0 <= t <= 1_570_796,
        ;
    }
    let x2: i64 = (t * t) / ONE;
    let c5: i64 = step(x2, ONE, 110);
    let c4: i64 = step(x2, c5, 72);
    let c3: i64 = step(x2, c4, 42);
    let c2: i64 = step(x2, c3, 20);
    let c1: i64 = step(x2, c2, 6);
    assert(0 <= t * c1 <= 1_570_796 * 1_000_000) by (nonlinear_arith)
        requires
            0 <= t <= 1_570_796,
            0 <= c1 <= 1_000_000,
    ;
    let s: i64 = (t * c1) / ONE;
    if s > ONE {
        ONE
    } else {
        s
    }
}

fn reduced(angle: i64, shift: i64) -> (r: i64)
    requires
        0 <= shift < TAU,
    ensures
        r == reduce(angle + shift),
        0 <= r < TAU,
{
    let rem: i64 = angle % TAU;
    let base: i64 = if rem < 0 {
        rem + TAU
    } else {
        rem
    };
    assert(base == (angle as int) % (TAU as int));
    let moved: i64 = base + shift;
    if moved >= TAU {
        moved - TAU
    } else {
        moved
    }
}

fn sin_of_reduced(r: i64) -> (s: i64)
    requires
        0 <= r < TAU,
    ensures
        s == sine_of_reduced(r as int),
        -ONE <= s <= ONE,
{
    let t: i64 = r % HALF_PI;
    let q: i64 = r / HALF_PI;
    if q == 0 {
        first_quadrant(t)
    } else if q == 1 {
        first_quadrant(HALF_PI - t)
    } else if q == 2 {
        -first_quadrant(t)
    } else {
        -first_quadrant(HALF_PI - t)
    }
}

/// The sine of `angle`.
#[verifier::when_used_as_spec(spec_sin)]
pub fn sin(angle: i64) -> (r: i64)
    ensures
        r == spec_sin(angle),
        -ONE <= r <= ONE,
{
    sin_of_reduced(reduced(angle, 0))
}

/// The cosine of `angle`.
#[verifier::when_used_as_spec(spec_cos)]
pub fn cos(angle: i64) -> (r: i64)
    ensures
        r == spec_cos(angle),
        -ONE <= r <= ONE,
{
    sin_of_reduced(reduced(angle, HALF_PI))
}

} // verus!
