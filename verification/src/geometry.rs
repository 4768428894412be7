//! Exact integer geometry for the detection rules.
//!
//! Distances are never computed: two distances are compared by their squares,
//! and an angle is compared with a tolerance by its tangent. Thresholds are
//! fixed-point numbers in millionths, so a comparison "value < threshold"
//! becomes "value * SCALE < threshold" over the integers.

use vstd::prelude::*;

verus! {

/// The fixed-point scale: a threshold `t` stands for the number `t / SCALE`.
pub const SCALE: u64 = 1_000_000;

/// The largest absolute difference of two 32-bit coordinates.
pub const MAX_DELTA: u64 = 0xFFFF_FFFF;

/// The largest square of a distance between two positions:
/// `2 * MAX_DELTA * MAX_DELTA`.
pub const MAX_SEPARATION_SQ: u128 = 36_893_488_130_239_234_050;

/// Absolute value.
pub open spec fn abs(v: int) -> int {
    if v < 0 {
        -v
    } else {
        v
    }
}

/// Time that passed from `from` to `to`; zero if `to` is the earlier one.
pub open spec fn elapsed(from: u64, to: u64) -> u64 {
    if to >= from {
        (to - from) as u64
    } else {
        0
    }
}

/// The square of the Euclidean distance between `(ax, ay)` and `(bx, by)`.
pub open spec fn distance_sq(ax: int, ay: int, bx: int, by: int) -> int {
    (ax - bx) * (ax - bx) + (ay - by) * (ay - by)
}

/// Whether a distance with square `d_sq` is strictly below `limit / SCALE`.
pub open spec fn closer_than(d_sq: int, limit: int) -> bool {
    d_sq * (SCALE * SCALE) < limit * limit
}

/// Whether a displacement `delta` covers at least the fraction `pct / SCALE`
/// of an axis whose calibrated span is `span`.
pub open spec fn reaches(delta: int, span: int, pct: int) -> bool {
    abs(delta) * SCALE >= span * pct
}

/// Whether the direction of a motion deviates from the `along` axis by no
/// more than the angle whose tangent is `slope / SCALE`.
pub open spec fn within_cone(along: int, across: int, slope: int) -> bool {
    abs(across) * SCALE <= abs(along) * slope
}

/// Whether a separation with square `last_sq` is strictly below the
/// separation with square `first_sq` reduced by the fraction `pct / SCALE`.
pub open spec fn shrunk(first_sq: int, last_sq: int, pct: int) -> bool {
    pct <= SCALE && last_sq * (SCALE * SCALE) < first_sq * ((SCALE - pct) * (SCALE - pct))
}

/// Whether a separation with square `last_sq` is strictly above the
/// separation with square `first_sq` enlarged by the fraction `pct / SCALE`.
pub open spec fn grown(first_sq: int, last_sq: int, pct: int) -> bool {
    last_sq * (SCALE * SCALE) > first_sq * ((SCALE + pct) * (SCALE + pct))
}

/// Computes [`elapsed`].
pub fn elapsed_between(from: u64, to: u64) -> (dt: u64)
    ensures
        dt == elapsed(from, to),
{
    if to >= from {
        to - from
    } else {
        0
    }
}

/// The difference `to - from` of two coordinates.
pub fn delta(from: i32, to: i32) -> (d: i64)
    ensures
        d == to - from,
        -MAX_DELTA <= d <= MAX_DELTA,
{
    to as i64 - from as i64
}

/// Computes [`abs`] of a coordinate difference.
pub(crate) fn magnitude(d: i64) -> (m: u128)
    requires
        -MAX_DELTA <= d <= MAX_DELTA,
    ensures
        m == abs(d as int),
        m <= MAX_DELTA,
{
    if d < 0 {
        (-d) as u128
    } else {
        d as u128
    }
}

/// Computes [`distance_sq`].
pub fn separation_sq(ax: i32, ay: i32, bx: i32, by: i32) -> (d_sq: u128)
    ensures
        d_sq == distance_sq(ax as int, ay as int, bx as int, by as int),
        d_sq <= MAX_SEPARATION_SQ,
{
    let mx = magnitude(delta(bx, ax));
    let my = magnitude(delta(by, ay));
    assert(mx * mx <= 18_446_744_065_119_617_025 && mx * mx == (ax - bx) * (ax - bx))
        by (nonlinear_arith)
        requires
            mx <= 4_294_967_295,
            mx == abs(ax - bx),
    ;
    assert(my * my <= 18_446_744_065_119_617_025 && my * my == (ay - by) * (ay - by))
        by (nonlinear_arith)
        requires
            my <= 4_294_967_295,
            my == abs(ay - by),
    ;
    mx * mx + my * my
}

/// Decides [`closer_than`] for the distance between two positions.
pub fn is_closer_than(ax: i32, ay: i32, bx: i32, by: i32, limit: u64) -> (close: bool)
    ensures
        close == closer_than(distance_sq(ax as int, ay as int, bx as int, by as int), limit as int),
{
    let d_sq = separation_sq(ax, ay, bx, by);
    let unit: u128 = 1_000_000_000_000;
    let wide: u128 = limit as u128;
    assert(wide * wide <= 0xFFFF_FFFF_FFFF_FFFE_0000_0000_0000_0001) by (nonlinear_arith)
        requires
            0 <= wide <= 0xFFFF_FFFF_FFFF_FFFF,
    ;
    d_sq * unit < wide * wide
}

/// Decides [`reaches`] for a displacement between two coordinates of one
/// axis with the calibrated range `range`.
pub fn does_reach(from: i32, to: i32, range: (i32, i32), pct: u64) -> (far: bool)
    ensures
        far == reaches(to - from, range.1 - range.0, pct as int),
{
    let m = magnitude(delta(from, to));
    let span: i64 = delta(range.0, range.1);
    let covered: i128 = (m as i128) * 1_000_000;
    assert(-0x1_0000_0000_0000_0000_0000_0000 <= span * pct <= 0x1_0000_0000_0000_0000_0000_0000)
        by (nonlinear_arith)
        requires
            -0x1_0000_0000 <= span <= 0x1_0000_0000,
            0 <= pct <= 0x1_0000_0000_0000_0000,
    ;
    let needed: i128 = (span as i128) * (pct as i128);
    covered >= needed
}

/// Decides [`within_cone`] for a motion with the given displacements.
pub(crate) fn is_within_cone(along: i64, across: i64, slope: u64) -> (inside: bool)
    requires
        -MAX_DELTA <= along <= MAX_DELTA,
        -MAX_DELTA <= across <= MAX_DELTA,
    ensures
        inside == within_cone(along as int, across as int, slope as int),
{
    let a = magnitude(along);
    let c = magnitude(across);
    assert(a * slope <= 0x1_0000_0000_0000_0000_0000_0000) by (nonlinear_arith)
        requires
            0 <= a <= 0x1_0000_0000,
            0 <= slope <= 0x1_0000_0000_0000_0000,
    ;
    c * 1_000_000 <= a * (slope as u128)
}

/// Decides [`shrunk`] for two squared separations.
pub(crate) fn has_shrunk(first_sq: u128, last_sq: u128, pct: u64) -> (less: bool)
    requires
        first_sq <= MAX_SEPARATION_SQ,
        last_sq <= MAX_SEPARATION_SQ,
    ensures
        less == shrunk(first_sq as int, last_sq as int, pct as int),
{
    if pct > SCALE {
        return false;
    }
    let unit: u128 = 1_000_000_000_000;
    let rest: u128 = (SCALE - pct) as u128;
    assert(0 <= rest * rest <= 1_000_000_000_000) by (nonlinear_arith)
        requires
            0 <= rest <= 1_000_000,
    ;
    let square: u128 = rest * rest;
    assert(first_sq * square <= 36_893_488_130_239_234_050 * 1_000_000_000_000)
        by (nonlinear_arith)
        requires
            0 <= first_sq <= 36_893_488_130_239_234_050,
            0 <= square <= 1_000_000_000_000,
    ;
    last_sq * unit < first_sq * square
}

/// Decides [`grown`] for two squared separations. The right-hand product may
/// exceed 128 bits; it is then larger than any left-hand side.
pub(crate) fn has_grown(first_sq: u128, last_sq: u128, pct: u64) -> (more: bool)
    requires
        first_sq <= MAX_SEPARATION_SQ,
        last_sq <= MAX_SEPARATION_SQ,
    ensures
        more == grown(first_sq as int, last_sq as int, pct as int),
{
    let unit: u128 = 1_000_000_000_000;
    let lhs: u128 = last_sq * unit;
    if first_sq == 0 {
        assert(first_sq * ((SCALE + pct) * (SCALE + pct)) == 0) by (nonlinear_arith)
            requires
                first_sq == 0,
        ;
        return lhs > 0;
    }
    let factor: u128 = SCALE as u128 + pct as u128;
    match factor.checked_mul(factor) {
        None => {
            assert(first_sq * (factor * factor) > u128::MAX) by (nonlinear_arith)
                requires
                    first_sq >= 1,
                    factor * factor > u128::MAX,
            ;
            false
        },
        Some(square) => match first_sq.checked_mul(square) {
            None => false,
            Some(rhs) => lhs > rhs,
        },
    }
}

} // verus!
