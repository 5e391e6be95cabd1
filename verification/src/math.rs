//! Integer geometric primitives: points and vectors in the kernel's two
//! coordinate frames, triangles, and exact rational numbers for curve
//! parameters.
//!
//! Every coordinate handed to the kernel must lie within [`MAX_COORD`] in
//! magnitude; under that bound every predicate in this crate evaluates
//! exactly in 128-bit intermediate arithmetic.

use vstd::prelude::*;

verus! {

/// Largest magnitude allowed for a coordinate of a point in the kernel.
///
/// Keeping coordinates within this bound guarantees that orientation,
/// in-circle and segment-crossing determinants fit in `i128`.
pub const MAX_COORD: i64 = 1048576;

/// A point in a surface's own 2D parameter space.
#[derive(Clone, Copy, Debug, PartialEq, Eq, Structural)]
pub struct Point2 {
    pub x: i64,
    pub y: i64,
}

/// A point in global 3D space.
#[derive(Clone, Copy, Debug, PartialEq, Eq, Structural)]
pub struct Point3 {
    pub x: i64,
    pub y: i64,
    pub z: i64,
}

/// A displacement in a surface's 2D parameter space.
#[derive(Clone, Copy, Debug, PartialEq, Eq, Structural)]
pub struct Vector2 {
    pub x: i64,
    pub y: i64,
}

/// A displacement in global 3D space.
#[derive(Clone, Copy, Debug, PartialEq, Eq, Structural)]
pub struct Vector3 {
    pub x: i64,
    pub y: i64,
    pub z: i64,
}

/// A triangle in a surface's 2D parameter space.
#[derive(Clone, Copy, Debug, PartialEq, Eq, Structural)]
pub struct Triangle2 {
    pub a: Point2,
    pub b: Point2,
    pub c: Point2,
}

/// A triangle in global 3D space.
#[derive(Clone, Copy, Debug, PartialEq, Eq, Structural)]
pub struct Triangle3 {
    pub a: Point3,
    pub b: Point3,
    pub c: Point3,
}

/// An RGBA color attached to a face and to the triangles derived from it.
#[derive(Clone, Copy, Debug, PartialEq, Eq, Structural)]
pub struct Color {
    pub r: u8,
    pub g: u8,
    pub b: u8,
    pub a: u8,
}

/// Whether a 2D point's coordinates lie within magnitude `m`.
pub open spec fn bounded2(p: Point2, m: int) -> bool {
    -m <= p.x <= m && -m <= p.y <= m
}

/// Whether a 3D point's coordinates lie within magnitude `m`.
pub open spec fn bounded3(p: Point3, m: int) -> bool {
    -m <= p.x <= m && -m <= p.y <= m && -m <= p.z <= m
}

impl Point2 {
    pub fn new(x: i64, y: i64) -> (r: Point2)
        ensures
            r == (Point2 { x, y }),
    {
        Point2 { x, y }
    }
}

impl Point3 {
    pub fn new(x: i64, y: i64, z: i64) -> (r: Point3)
        ensures
            r == (Point3 { x, y, z }),
    {
        Point3 { x, y, z }
    }
}

impl Vector3 {
    pub fn new(x: i64, y: i64, z: i64) -> (r: Vector3)
        ensures
            r == (Vector3 { x, y, z }),
    {
        Vector3 { x, y, z }
    }
}

/// The product of two `i64` values, computed exactly in `i128`.
pub fn mul_i64(a: i64, b: i64) -> (r: i128)
    ensures
        r == a * b,
{
    proof {
        lemma_i64_mul_fits(a as int, b as int);
    }
    (a as i128) * (b as i128)
}

/// The product of any two `i64` values fits in `i128`.
pub proof fn lemma_i64_mul_fits(a: int, b: int)
    requires
        i64::MIN <= a <= i64::MAX,
        i64::MIN <= b <= i64::MAX,
    ensures
        i128::MIN <= a * b <= i128::MAX,
{
    assert(i128::MIN <= a * b <= i128::MAX) by (nonlinear_arith)
        requires
            -0x8000_0000_0000_0000 <= a <= 0x7fff_ffff_ffff_ffff,
            -0x8000_0000_0000_0000 <= b <= 0x7fff_ffff_ffff_ffff,
    ;
}

/// Twice the signed area of the triangle `a`, `b`, `c` in the 2D parameter
/// plane: positive iff the triangle winds counter-clockwise.
pub open spec fn orient2d(a: Point2, b: Point2, c: Point2) -> int {
    (b.x - a.x) * (c.y - a.y) - (b.y - a.y) * (c.x - a.x)
}

/// Computes [`orient2d`] exactly.
pub fn orient2d_exec(a: Point2, b: Point2, c: Point2) -> (r: i128)
    requires
        bounded2(a, 8 * MAX_COORD),
        bounded2(b, 8 * MAX_COORD),
        bounded2(c, 8 * MAX_COORD),
    ensures
        r == orient2d(a, b, c),
{
    let bax: i64 = b.x - a.x;
    let bay: i64 = b.y - a.y;
    let cax: i64 = c.x - a.x;
    let cay: i64 = c.y - a.y;
    let p1: i128 = mul_i64(bax, cay);
    let p2: i128 = mul_i64(bay, cax);
    proof {
        lemma_i64_mul_fits(bax as int, cay as int);
        lemma_i64_mul_fits(bay as int, cax as int);
        assert(p1 - p2 == orient2d(a, b, c));
        assert(-0x1_0000_0000_0000_0000_0000_0000 <= p1 <= 0x1_0000_0000_0000_0000_0000_0000)
            by (nonlinear_arith)
            requires
                p1 == bax * cay,
                -0x1_0000_0000 <= bax <= 0x1_0000_0000,
                -0x1_0000_0000 <= cay <= 0x1_0000_0000,
        ;
        assert(-0x1_0000_0000_0000_0000_0000_0000 <= p2 <= 0x1_0000_0000_0000_0000_0000_0000)
            by (nonlinear_arith)
            requires
                p2 == bay * cax,
                -0x1_0000_0000 <= bay <= 0x1_0000_0000,
                -0x1_0000_0000 <= cax <= 0x1_0000_0000,
        ;
    }
    p1 - p2
}

/// Multiplication distributes over subtraction.
pub proof fn lemma_sub_mul(a: int, b: int, c: int)
    ensures
        (a - b) * c == a * c - b * c,
{
    assert((a - b) * c == a * c - b * c) by (nonlinear_arith);
}

/// An exact rational number; the denominator is always positive.
#[derive(Clone, Copy, Debug, PartialEq, Eq, Structural)]
pub struct Rat {
    pub num: i64,
    pub den: i64,
}

impl Rat {
    /// A rational is well formed when its denominator is positive.
    pub open spec fn wf(self) -> bool {
        self.den > 0
    }

    /// The rational with value `n`.
    pub fn whole(n: i64) -> (r: Rat)
        ensures
            r.num == n,
            r.den == 1,
            r.wf(),
    {
        Rat { num: n, den: 1 }
    }
}

/// `a <= b` as rationals; meaningful when both are well formed.
pub open spec fn rat_le(a: Rat, b: Rat) -> bool {
    a.num * b.den <= b.num * a.den
}

/// `a < b` as rationals; meaningful when both are well formed.
pub open spec fn rat_lt(a: Rat, b: Rat) -> bool {
    a.num * b.den < b.num * a.den
}

/// `a == b` as rationals; meaningful when both are well formed.
pub open spec fn rat_eq(a: Rat, b: Rat) -> bool {
    a.num * b.den == b.num * a.den
}

/// Decides [`rat_le`] exactly.
pub fn rat_le_exec(a: Rat, b: Rat) -> (r: bool)
    ensures
        r == rat_le(a, b),
{
    mul_i64(a.num, b.den) <= mul_i64(b.num, a.den)
}

/// Decides [`rat_lt`] exactly.
pub fn rat_lt_exec(a: Rat, b: Rat) -> (r: bool)
    ensures
        r == rat_lt(a, b),
{
    mul_i64(a.num, b.den) < mul_i64(b.num, a.den)
}

/// The rational order is reflexive.
pub proof fn lemma_rat_le_refl(a: Rat)
    ensures
        rat_le(a, a),
{
}

/// The rational order is total on well-formed rationals.
pub proof fn lemma_rat_le_total(a: Rat, b: Rat)
    requires
        a.wf(),
        b.wf(),
    ensures
        rat_le(a, b) || rat_le(b, a),
        rat_le(a, b) <==> (rat_lt(a, b) || rat_eq(a, b)),
        rat_lt(a, b) <==> !rat_le(b, a),
{
}

/// The rational order is transitive on well-formed rationals.
pub proof fn lemma_rat_le_trans(a: Rat, b: Rat, c: Rat)
    requires
        a.wf(),
        b.wf(),
        c.wf(),
        rat_le(a, b),
        rat_le(b, c),
    ensures
        rat_le(a, c),
{
    assert(a.num * c.den <= c.num * a.den) by (nonlinear_arith)
        requires
            a.den > 0,
            b.den > 0,
            c.den > 0,
            a.num * b.den <= b.num * a.den,
            b.num * c.den <= c.num * b.den,
    ;
}

/// Strict-below-or-equal chains compose on well-formed rationals.
pub proof fn lemma_rat_lt_le_trans(a: Rat, b: Rat, c: Rat)
    requires
        a.wf(),
        b.wf(),
        c.wf(),
        rat_lt(a, b),
        rat_le(b, c),
    ensures
        rat_lt(a, c),
{
    assert(a.num * c.den < c.num * a.den) by (nonlinear_arith)
        requires
            a.den > 0,
            b.den > 0,
            c.den > 0,
            a.num * b.den < b.num * a.den,
            b.num * c.den <= c.num * b.den,
    ;
}

/// Equal rationals compare equally against any third well-formed rational.
pub proof fn lemma_rat_eq_le(a: Rat, b: Rat, c: Rat)
    requires
        a.wf(),
        b.wf(),
        c.wf(),
        rat_eq(a, b),
    ensures
        rat_le(a, c) <==> rat_le(b, c),
        rat_le(c, a) <==> rat_le(c, b),
{
    assert((a.num * c.den <= c.num * a.den) <==> (b.num * c.den <= c.num * b.den))
        by (nonlinear_arith)
        requires
            a.den > 0,
            b.den > 0,
            c.den > 0,
            a.num * b.den == b.num * a.den,
    ;
    assert((c.num * a.den <= a.num * c.den) <==> (c.num * b.den <= b.num * c.den))
        by (nonlinear_arith)
        requires
            a.den > 0,
            b.den > 0,
            c.den > 0,
            a.num * b.den == b.num * a.den,
    ;
}

} // verus!
