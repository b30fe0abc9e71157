//! Fixed-point three-component vectors and exact linear interpolation.
//!
//! A component counts thousandths of a world unit, so 24.5 units is the
//! integer 24_500. Interpolation between two samples is computed with
//! integer multiply-and-divide, which keeps the endpoints exact and never
//! overshoots.

use vstd::prelude::*;

verus! {

/// Number of fixed-point units per world unit (and per second, for times).
pub const UNITS_PER_WHOLE: i64 = 1000;

/// Largest magnitude a coordinate may have. Keeping every coordinate inside
/// this bound lets interpolation run in `i64` without overflow.
pub const COORD_LIMIT: i64 = 1_000_000_000;

/// Largest value a time (an elapsed duration or a sampling period) may have.
pub const TIME_LIMIT: i64 = 1_000_000_000;

/// A position, Euler-angle triple, or velocity in fixed-point form.
#[derive(Clone, Copy, PartialEq, Eq, Structural, Debug)]
pub struct Vec3 {
    pub x: i64,
    pub y: i64,
    pub z: i64,
}

impl Vec3 {
    /// Every component has magnitude at most `COORD_LIMIT`.
    pub open spec fn in_range(self) -> bool {
        &&& -COORD_LIMIT <= self.x <= COORD_LIMIT
        &&& -COORD_LIMIT <= self.y <= COORD_LIMIT
        &&& -COORD_LIMIT <= self.z <= COORD_LIMIT
    }

    #[inline]
    pub fn new(x: i64, y: i64, z: i64) -> (v: Vec3)
        ensures
            v == (Vec3 { x, y, z }),
    {
        Vec3 { x, y, z }
    }

    /// The zero vector.
    #[inline]
    pub fn zero() -> (v: Vec3)
        ensures
            v == (Vec3 { x: 0i64, y: 0i64, z: 0i64 }),
            v.in_range(),
    {
        Vec3 { x: 0, y: 0, z: 0 }
    }
}

/// Exact linear interpolation of one component: the value `num/den` of the
/// way from `a` to `b`, rounded toward `a`.
pub open spec fn lerp1(a: int, b: int, num: int, den: int) -> int {
    if b >= a {
        a + (b - a) * num / den
    } else {
        a - (a - b) * num / den
    }
}

/// At `num == 0` interpolation returns the start point exactly.
pub proof fn lemma_lerp1_zero(a: int, b: int, den: int)
    requires
        den > 0,
    ensures
        lerp1(a, b, 0, den) == a,
{
    assert((b - a) * 0 == 0);
    assert((a - b) * 0 == 0);
    assert(0int / den == 0) by (nonlinear_arith)
        requires
            den > 0,
    ;
}

/// At `num == den` interpolation returns the end point exactly.
pub proof fn lemma_lerp1_full(a: int, b: int, den: int)
    requires
        den > 0,
    ensures
        lerp1(a, b, den, den) == b,
{
    assert((b - a) * den / den == b - a) by (nonlinear_arith)
        requires
            den > 0,
    ;
    assert((a - b) * den / den == a - b) by (nonlinear_arith)
        requires
            den > 0,
    ;
}

/// The interpolant never leaves the closed interval between its endpoints.
pub proof fn lemma_lerp1_bounded(a: int, b: int, num: int, den: int)
    requires
        den > 0,
        0 <= num <= den,
    ensures
        b >= a ==> a <= lerp1(a, b, num, den) <= b,
        b < a ==> b <= lerp1(a, b, num, den) <= a,
{
    if b >= a {
        assert(0 <= (b - a) * num / den <= b - a) by (nonlinear_arith)
            requires
                den > 0,
                0 <= num <= den,
                b >= a,
        ;
    } else {
        assert(0 <= (a - b) * num / den <= a - b) by (nonlinear_arith)
            requires
                den > 0,
                0 <= num <= den,
                b < a,
        ;
    }
}

/// Moving `num` forward moves the interpolant monotonically from `a`
/// toward `b`: there is no overshoot and no reversal.
pub proof fn lemma_lerp1_monotone(a: int, b: int, num1: int, num2: int, den: int)
    requires
        den > 0,
        0 <= num1 <= num2 <= den,
    ensures
        b >= a ==> lerp1(a, b, num1, den) <= lerp1(a, b, num2, den),
        b <= a ==> lerp1(a, b, num1, den) >= lerp1(a, b, num2, den),
{
    if b >= a {
        assert((b - a) * num1 / den <= (b - a) * num2 / den) by (nonlinear_arith)
            requires
                den > 0,
                0 <= num1 <= num2,
                b >= a,
        ;
    }
    if b <= a {
        assert((a - b) * num1 / den <= (a - b) * num2 / den) by (nonlinear_arith)
            requires
                den > 0,
                0 <= num1 <= num2,
                b <= a,
        ;
    }
}

/// Interpolate one fixed-point component. Exact at both endpoints and
/// bounded between them.
pub fn lerp_component(a: i64, b: i64, num: i64, den: i64) -> (r: i64)
    requires
        0 < den <= TIME_LIMIT,
        0 <= num <= den,
        -COORD_LIMIT <= a <= COORD_LIMIT,
        -COORD_LIMIT <= b <= COORD_LIMIT,
    ensures
        r == lerp1(a as int, b as int, num as int, den as int),
        -COORD_LIMIT <= r <= COORD_LIMIT,
{
    proof {
        lemma_lerp1_bounded(a as int, b as int, num as int, den as int);
    }
    if b >= a {
        let diff: i64 = b - a;
        assert(0 <= diff * num <= diff * den <= 2_000_000_000_000_000_000) by (nonlinear_arith)
            requires
                0 <= num <= den,
                0 <= diff <= 2_000_000_000,
                den <= 1_000_000_000,
        ;
        let scaled: i64 = diff * num;
        let q: i64 = scaled / den;
        assert(0 <= q <= diff) by (nonlinear_arith)
            requires
                den > 0,
                0 <= scaled <= diff * den,
                q == scaled / den,
        ;
        a + q
    } else {
        let diff: i64 = a - b;
        assert(0 <= diff * num <= diff * den <= 2_000_000_000_000_000_000) by (nonlinear_arith)
            requires
                0 <= num <= den,
                0 <= diff <= 2_000_000_000,
                den <= 1_000_000_000,
        ;
        let scaled: i64 = diff * num;
        let q: i64 = scaled / den;
        assert(0 <= q <= diff) by (nonlinear_arith)
            requires
                den > 0,
                0 <= scaled <= diff * den,
                q == scaled / den,
        ;
        a - q
    }
}

/// Interpolate each component of a vector `num/den` of the way from `a`
/// to `b`.
pub fn lerp(a: &Vec3, b: &Vec3, num: i64, den: i64) -> (r: Vec3)
    requires
        0 < den <= TIME_LIMIT,
        0 <= num <= den,
        a.in_range(),
        b.in_range(),
    ensures
        r.x == lerp1(a.x as int, b.x as int, num as int, den as int),
        r.y == lerp1(a.y as int, b.y as int, num as int, den as int),
        r.z == lerp1(a.z as int, b.z as int, num as int, den as int),
        r.in_range(),
{
    Vec3 {
        x: lerp_component(a.x, b.x, num, den),
        y: lerp_component(a.y, b.y, num, den),
        z: lerp_component(a.z, b.z, num, den),
    }
}

} // verus!
