//! The boundary-representation object graph: surfaces, curves, vertices,
//! edges, cycles, faces, sketches and solids.
//!
//! All objects are immutable values built bottom-up. Equality everywhere is
//! structural, so independently constructed but identical objects deduplicate
//! correctly in face sets and in traversal.

use vstd::prelude::*;

use crate::math::{bounded2, bounded3, Color, Point2, Point3, Triangle3, Vector2, Vector3,
    MAX_COORD};

verus! {

/// One of the three global coordinate axes.
#[derive(Clone, Copy, Debug, PartialEq, Eq, Structural)]
pub enum Axis {
    X,
    Y,
    Z,
}

/// A unit vector along a global axis, possibly negated.
///
/// Surfaces are parameterized by two such vectors; restricting the basis to
/// exact unit axis vectors keeps every local<->global conversion exact on the
/// integer grid.
#[derive(Clone, Copy, Debug, PartialEq, Eq, Structural)]
pub struct UnitVec {
    pub axis: Axis,
    pub neg: bool,
}

impl UnitVec {
    /// The x component of the unit vector.
    pub open spec fn dx(self) -> int {
        if self.axis == Axis::X {
            if self.neg { -1 } else { 1 }
        } else {
            0
        }
    }

    /// The y component of the unit vector.
    pub open spec fn dy(self) -> int {
        if self.axis == Axis::Y {
            if self.neg { -1 } else { 1 }
        } else {
            0
        }
    }

    /// The z component of the unit vector.
    pub open spec fn dz(self) -> int {
        if self.axis == Axis::Z {
            if self.neg { -1 } else { 1 }
        } else {
            0
        }
    }

    pub fn new(axis: Axis, neg: bool) -> (r: UnitVec)
        ensures
            r == (UnitVec { axis, neg }),
    {
        UnitVec { axis, neg }
    }
}

/// The coordinate of a 3D point along an axis.
pub open spec fn axis_coord(p: Point3, axis: Axis) -> int {
    match axis {
        Axis::X => p.x as int,
        Axis::Y => p.y as int,
        Axis::Z => p.z as int,
    }
}

/// An infinite plane embedded in 3D, parameterized by two distinct unit axis
/// vectors; the plane's own 2D coordinate frame is `(u, v)` anchored at
/// `origin`. Immutable; may be shared by many faces.
#[derive(Clone, Copy, Debug, PartialEq, Eq, Structural)]
pub struct Surface {
    pub origin: Point3,
    pub u: UnitVec,
    pub v: UnitVec,
}

/// `global` is the image of the surface-local point `local` under the
/// surface's parameterization.
pub open spec fn surface_at(s: Surface, local: Point2, global: Point3) -> bool {
    &&& global.x == s.origin.x + local.x * s.u.dx() + local.y * s.v.dx()
    &&& global.y == s.origin.y + local.x * s.u.dy() + local.y * s.v.dy()
    &&& global.z == s.origin.z + local.x * s.u.dz() + local.y * s.v.dz()
}

impl Surface {
    /// A surface is well formed when its two parameter directions span
    /// distinct axes.
    pub open spec fn wf(self) -> bool {
        self.u.axis != self.v.axis
    }

    /// The axis normal to the surface: the one spanned by neither parameter
    /// direction.
    pub open spec fn normal_axis(self) -> Axis {
        if self.u.axis != Axis::X && self.v.axis != Axis::X {
            Axis::X
        } else if self.u.axis != Axis::Y && self.v.axis != Axis::Y {
            Axis::Y
        } else {
            Axis::Z
        }
    }

    /// Whether a global point lies on the surface. For a well-formed surface
    /// the parameter directions sweep the full integer grid of the plane, so
    /// a point is on the surface exactly when its normal-axis coordinate
    /// matches the origin's.
    pub open spec fn on_surface(self, p: Point3) -> bool {
        axis_coord(p, self.normal_axis()) == axis_coord(self.origin, self.normal_axis())
    }

    /// The xy plane: origin zero, `u` along x, `v` along y.
    pub fn xy_plane() -> (r: Surface)
        ensures
            r.origin == (Point3 { x: 0, y: 0, z: 0 }),
            r.u == (UnitVec { axis: Axis::X, neg: false }),
            r.v == (UnitVec { axis: Axis::Y, neg: false }),
            r.wf(),
            bounded3(r.origin, MAX_COORD as int),
    {
        Surface {
            origin: Point3 { x: 0, y: 0, z: 0 },
            u: UnitVec { axis: Axis::X, neg: false },
            v: UnitVec { axis: Axis::Y, neg: false },
        }
    }

    /// Converts surface-local coordinates to the global point they denote.
    pub fn point_from_surface_coords(&self, local: Point2) -> (r: Point3)
        requires
            bounded2(local, 4 * MAX_COORD as int),
            bounded3(self.origin, MAX_COORD as int),
        ensures
            surface_at(*self, local, r),
            bounded3(r, 9 * MAX_COORD as int),
            self.wf() ==> self.on_surface(r),
    {
        let x: i64 = self.origin.x + unit_mul(self.u.x_comp(), local.x)
            + unit_mul(self.v.x_comp(), local.y);
        let y: i64 = self.origin.y + unit_mul(self.u.y_comp(), local.x)
            + unit_mul(self.v.y_comp(), local.y);
        let z: i64 = self.origin.z + unit_mul(self.u.z_comp(), local.x)
            + unit_mul(self.v.z_comp(), local.y);
        let r = Point3 { x, y, z };
        proof {
            if self.wf() {
                lemma_surface_at_on_surface(*self, local, r);
            }
        }
        r
    }

    /// Converts a global point on the surface to its surface-local
    /// coordinates.
    pub fn point_to_surface_coords(&self, p: Point3) -> (r: Point2)
        requires
            self.wf(),
            self.on_surface(p),
            bounded3(p, 8 * MAX_COORD as int),
            bounded3(self.origin, MAX_COORD as int),
        ensures
            surface_at(*self, r, p),
            bounded2(r, 27 * MAX_COORD as int),
            r == project(*self, p),
    {
        let rx: i64 = unit_mul(
            self.u.x_comp(), p.x - self.origin.x,
        ) + unit_mul(self.u.y_comp(), p.y - self.origin.y)
            + unit_mul(self.u.z_comp(), p.z - self.origin.z);
        let ry: i64 = unit_mul(
            self.v.x_comp(), p.x - self.origin.x,
        ) + unit_mul(self.v.y_comp(), p.y - self.origin.y)
            + unit_mul(self.v.z_comp(), p.z - self.origin.z);
        proof {
            lemma_surface_coords_from_components(*self, p, rx as int, ry as int);
        }
        Point2 { x: rx, y: ry }
    }
}

/// The surface-local coordinates of a global point: its offset from the
/// surface origin projected onto the two parameter directions. For a point
/// on a well-formed surface this inverts the parameterization exactly.
pub open spec fn project(s: Surface, p: Point3) -> Point2 {
    Point2 {
        x: (s.u.dx() * (p.x - s.origin.x) + s.u.dy() * (p.y - s.origin.y) + s.u.dz() * (p.z
            - s.origin.z)) as i64,
        y: (s.v.dx() * (p.x - s.origin.x) + s.v.dy() * (p.y - s.origin.y) + s.v.dz() * (p.z
            - s.origin.z)) as i64,
    }
}

/// The parameter coordinates recovered by projecting a point of a
/// well-formed surface onto the parameter directions are correct: mapping
/// them back through the parameterization reproduces the point.
pub proof fn lemma_surface_coords_from_components(s: Surface, p: Point3, rx: int, ry: int)
    requires
        s.wf(),
        s.on_surface(p),
        rx == s.u.dx() * (p.x - s.origin.x) + s.u.dy() * (p.y - s.origin.y) + s.u.dz() * (p.z
            - s.origin.z),
        ry == s.v.dx() * (p.x - s.origin.x) + s.v.dy() * (p.y - s.origin.y) + s.v.dz() * (p.z
            - s.origin.z),
    ensures
        p.x == s.origin.x + rx * s.u.dx() + ry * s.v.dx(),
        p.y == s.origin.y + rx * s.u.dy() + ry * s.v.dy(),
        p.z == s.origin.z + rx * s.u.dz() + ry * s.v.dz(),
{
    match (s.u.axis, s.v.axis) {
        (Axis::X, Axis::Y) => {
            assert(p.x == s.origin.x + rx * s.u.dx() + ry * s.v.dx() && p.y == s.origin.y + rx
                * s.u.dy() + ry * s.v.dy() && p.z == s.origin.z + rx * s.u.dz() + ry * s.v.dz())
                by (nonlinear_arith)
                requires
                    s.u.dx() == 1 || s.u.dx() == -1,
                    s.u.dy() == 0,
                    s.u.dz() == 0,
                    s.v.dx() == 0,
                    s.v.dy() == 1 || s.v.dy() == -1,
                    s.v.dz() == 0,
                    p.z == s.origin.z,
                    rx == s.u.dx() * (p.x - s.origin.x) + s.u.dy() * (p.y - s.origin.y)
                        + s.u.dz() * (p.z - s.origin.z),
                    ry == s.v.dx() * (p.x - s.origin.x) + s.v.dy() * (p.y - s.origin.y)
                        + s.v.dz() * (p.z - s.origin.z),
            ;
        },
        (Axis::X, Axis::Z) => {
            assert(p.x == s.origin.x + rx * s.u.dx() + ry * s.v.dx() && p.y == s.origin.y + rx
                * s.u.dy() + ry * s.v.dy() && p.z == s.origin.z + rx * s.u.dz() + ry * s.v.dz())
                by (nonlinear_arith)
                requires
                    s.u.dx() == 1 || s.u.dx() == -1,
                    s.u.dy() == 0,
                    s.u.dz() == 0,
                    s.v.dx() == 0,
                    s.v.dy() == 0,
                    s.v.dz() == 1 || s.v.dz() == -1,
                    p.y == s.origin.y,
                    rx == s.u.dx() * (p.x - s.origin.x) + s.u.dy() * (p.y - s.origin.y)
                        + s.u.dz() * (p.z - s.origin.z),
                    ry == s.v.dx() * (p.x - s.origin.x) + s.v.dy() * (p.y - s.origin.y)
                        + s.v.dz() * (p.z - s.origin.z),
            ;
        },
        (Axis::Y, Axis::X) => {
            assert(p.x == s.origin.x + rx * s.u.dx() + ry * s.v.dx() && p.y == s.origin.y + rx
                * s.u.dy() + ry * s.v.dy() && p.z == s.origin.z + rx * s.u.dz() + ry * s.v.dz())
                by (nonlinear_arith)
                requires
                    s.u.dx() == 0,
                    s.u.dy() == 1 || s.u.dy() == -1,
                    s.u.dz() == 0,
                    s.v.dx() == 1 || s.v.dx() == -1,
                    s.v.dy() == 0,
                    s.v.dz() == 0,
                    p.z == s.origin.z,
                    rx == s.u.dx() * (p.x - s.origin.x) + s.u.dy() * (p.y - s.origin.y)
                        + s.u.dz() * (p.z - s.origin.z),
                    ry == s.v.dx() * (p.x - s.origin.x) + s.v.dy() * (p.y - s.origin.y)
                        + s.v.dz() * (p.z - s.origin.z),
            ;
        },
        (Axis::Y, Axis::Z) => {
            assert(p.x == s.origin.x + rx * s.u.dx() + ry * s.v.dx() && p.y == s.origin.y + rx
                * s.u.dy() + ry * s.v.dy() && p.z == s.origin.z + rx * s.u.dz() + ry * s.v.dz())
                by (nonlinear_arith)
                requires
                    s.u.dx() == 0,
                    s.u.dy() == 1 || s.u.dy() == -1,
                    s.u.dz() == 0,
                    s.v.dx() == 0,
                    s.v.dy() == 0,
                    s.v.dz() == 1 || s.v.dz() == -1,
                    p.x == s.origin.x,
                    rx == s.u.dx() * (p.x - s.origin.x) + s.u.dy() * (p.y - s.origin.y)
                        + s.u.dz() * (p.z - s.origin.z),
                    ry == s.v.dx() * (p.x - s.origin.x) + s.v.dy() * (p.y - s.origin.y)
                        + s.v.dz() * (p.z - s.origin.z),
            ;
        },
        (Axis::Z, Axis::X) => {
            assert(p.x == s.origin.x + rx * s.u.dx() + ry * s.v.dx() && p.y == s.origin.y + rx
                * s.u.dy() + ry * s.v.dy() && p.z == s.origin.z + rx * s.u.dz() + ry * s.v.dz())
                by (nonlinear_arith)
                requires
                    s.u.dx() == 0,
                    s.u.dy() == 0,
                    s.u.dz() == 1 || s.u.dz() == -1,
                    s.v.dx() == 1 || s.v.dx() == -1,
                    s.v.dy() == 0,
                    s.v.dz() == 0,
                    p.y == s.origin.y,
                    rx == s.u.dx() * (p.x - s.origin.x) + s.u.dy() * (p.y - s.origin.y)
                        + s.u.dz() * (p.z - s.origin.z),
                    ry == s.v.dx() * (p.x - s.origin.x) + s.v.dy() * (p.y - s.origin.y)
                        + s.v.dz() * (p.z - s.origin.z),
            ;
        },
        (Axis::Z, Axis::Y) => {
            assert(p.x == s.origin.x + rx * s.u.dx() + ry * s.v.dx() && p.y == s.origin.y + rx
                * s.u.dy() + ry * s.v.dy() && p.z == s.origin.z + rx * s.u.dz() + ry * s.v.dz())
                by (nonlinear_arith)
                requires
                    s.u.dx() == 0,
                    s.u.dy() == 0,
                    s.u.dz() == 1 || s.u.dz() == -1,
                    s.v.dx() == 0,
                    s.v.dy() == 1 || s.v.dy() == -1,
                    s.v.dz() == 0,
                    p.x == s.origin.x,
                    rx == s.u.dx() * (p.x - s.origin.x) + s.u.dy() * (p.y - s.origin.y)
                        + s.u.dz() * (p.z - s.origin.z),
                    ry == s.v.dx() * (p.x - s.origin.x) + s.v.dy() * (p.y - s.origin.y)
                        + s.v.dz() * (p.z - s.origin.z),
            ;
        },
        _ => {
            assert(false);
        },
    }
}

/// Multiplies a unit factor (-1, 0 or 1) by a coordinate, exactly.
pub fn unit_mul(u: i64, c: i64) -> (r: i64)
    requires
        -1 <= u <= 1,
        c != i64::MIN,
    ensures
        r == u * c,
        r == c || r == 0 || r == -c,
{
    if u == 1 {
        c
    } else if u == -1 {
        proof {
            assert((-1) * c == -c) by (nonlinear_arith);
        }
        -c
    } else {
        proof {
            assert(0 * c == 0) by (nonlinear_arith);
        }
        0
    }
}

impl UnitVec {
    /// The x component, as a machine integer.
    pub fn x_comp(&self) -> (r: i64)
        ensures
            r as int == self.dx(),
            -1 <= r <= 1,
    {
        match self.axis {
            Axis::X => if self.neg { -1 } else { 1 },
            _ => 0,
        }
    }

    /// The y component, as a machine integer.
    pub fn y_comp(&self) -> (r: i64)
        ensures
            r as int == self.dy(),
            -1 <= r <= 1,
    {
        match self.axis {
            Axis::Y => if self.neg { -1 } else { 1 },
            _ => 0,
        }
    }

    /// The z component, as a machine integer.
    pub fn z_comp(&self) -> (r: i64)
        ensures
            r as int == self.dz(),
            -1 <= r <= 1,
    {
        match self.axis {
            Axis::Z => if self.neg { -1 } else { 1 },
            _ => 0,
        }
    }
}

/// A point of a well-formed surface's parameterization lies on that surface.
pub proof fn lemma_surface_at_on_surface(s: Surface, local: Point2, global: Point3)
    requires
        s.wf(),
        surface_at(s, local, global),
    ensures
        s.on_surface(global),
{
}

/// Surface-local coordinates are unique: the parameterization of a
/// well-formed surface is injective, so converting local to global and back
/// reproduces the original local coordinates exactly.
pub proof fn lemma_surface_coords_unique(s: Surface, l1: Point2, l2: Point2, global: Point3)
    requires
        s.wf(),
        surface_at(s, l1, global),
        surface_at(s, l2, global),
    ensures
        l1 == l2,
{
}

/// A line in global 3D space, parameterized as `origin + t * direction`.
/// Immutable; may be shared by many edges.
#[derive(Clone, Copy, Debug, PartialEq, Eq, Structural)]
pub struct Curve {
    pub origin: Point3,
    pub direction: Vector3,
}

/// `p` is the point of curve `c` at parameter `t`.
pub open spec fn curve_at(c: Curve, t: int, p: Point3) -> bool {
    &&& p.x == c.origin.x + t * c.direction.x
    &&& p.y == c.origin.y + t * c.direction.y
    &&& p.z == c.origin.z + t * c.direction.z
}

impl Curve {
    /// A curve is well formed when its direction is nonzero.
    pub open spec fn wf(self) -> bool {
        !(self.direction.x == 0 && self.direction.y == 0 && self.direction.z == 0)
    }

    /// The global x axis.
    pub fn x_axis() -> (r: Curve)
        ensures
            r.origin == (Point3 { x: 0, y: 0, z: 0 }),
            r.direction == (Vector3 { x: 1, y: 0, z: 0 }),
            r.wf(),
    {
        Curve {
            origin: Point3 { x: 0, y: 0, z: 0 },
            direction: Vector3 { x: 1, y: 0, z: 0 },
        }
    }
}

/// A line in a surface's 2D parameter space.
#[derive(Clone, Copy, Debug, PartialEq, Eq, Structural)]
pub struct Curve2 {
    pub origin: Point2,
    pub direction: Vector2,
}

/// `p` is the point of the 2D curve `c` at parameter `t`.
pub open spec fn curve2_at(c: Curve2, t: int, p: Point2) -> bool {
    &&& p.x == c.origin.x + t * c.direction.x
    &&& p.y == c.origin.y + t * c.direction.y
}

/// A curve known in two frames at once: in some surface's 2D parameter space
/// and in its canonical global 3D form. The two must stay consistent.
#[derive(Clone, Copy, Debug, PartialEq, Eq, Structural)]
pub struct LocalCurve {
    pub local: Curve2,
    pub canonical: Curve,
}

/// The local form of an edge's curve matches its canonical form under the
/// given surface: the surface maps the local origin to the canonical origin
/// and the local direction to the canonical direction.
pub open spec fn local_curve_on_surface(c: LocalCurve, s: Surface) -> bool {
    &&& surface_at(s, c.local.origin, c.canonical.origin)
    &&& c.canonical.direction.x == c.local.direction.x * s.u.dx() + c.local.direction.y * s.v.dx()
    &&& c.canonical.direction.y == c.local.direction.x * s.u.dy() + c.local.direction.y * s.v.dy()
    &&& c.canonical.direction.z == c.local.direction.x * s.u.dz() + c.local.direction.y * s.v.dz()
}

/// A single position in global 3D space, shared by every vertex at that
/// position; equality is by position.
#[derive(Clone, Copy, Debug, PartialEq, Eq, Structural)]
pub struct GlobalVertex {
    pub position: Point3,
}

impl GlobalVertex {
    pub fn from_position(position: Point3) -> (r: GlobalVertex)
        ensures
            r == (GlobalVertex { position }),
    {
        GlobalVertex { position }
    }
}

/// A point on a curve: its curve-local parameter plus a reference to its
/// global form.
#[derive(Clone, Copy, Debug, PartialEq, Eq, Structural)]
pub struct Vertex {
    pub position: i64,
    pub global: GlobalVertex,
}

impl Vertex {
    pub fn new(position: i64, global: GlobalVertex) -> (r: Vertex)
        ensures
            r == (Vertex { position, global }),
    {
        Vertex { position, global }
    }
}

/// The vertices bounding an edge: exactly two for a bounded segment, or none
/// for an edge on a closed curve.
#[derive(Clone, Copy, Debug, PartialEq, Eq, Structural)]
pub enum VerticesOfEdge {
    /// The edge spans a closed curve and has no bounding vertices.
    Closed,
    /// The edge is bounded by a start and an end vertex.
    Two { start: Vertex, end: Vertex },
}

/// A bounded or unbounded curve segment: a curve in local and canonical form
/// plus its bounding vertices.
#[derive(Clone, Copy, Debug, PartialEq, Eq, Structural)]
pub struct Edge {
    pub curve: LocalCurve,
    pub vertices: VerticesOfEdge,
}

impl Edge {
    /// An edge is well formed when its canonical curve is a real line and
    /// its bounding vertices, if any, are distinct points of that line.
    pub open spec fn wf(self) -> bool {
        &&& self.curve.canonical.wf()
        &&& match self.vertices {
            VerticesOfEdge::Closed => true,
            VerticesOfEdge::Two { start, end } => {
                &&& start.position != end.position
                &&& curve_at(self.curve.canonical, start.position as int, start.global.position)
                &&& curve_at(self.curve.canonical, end.position as int, end.global.position)
            },
        }
    }

    pub fn new(curve: LocalCurve, vertices: VerticesOfEdge) -> (r: Edge)
        ensures
            r == (Edge { curve, vertices }),
    {
        Edge { curve, vertices }
    }

    /// The global start position of a bounded edge.
    pub open spec fn start_position(self) -> Point3
        recommends
            self.vertices is Two,
    {
        match self.vertices {
            VerticesOfEdge::Closed => self.curve.canonical.origin,
            VerticesOfEdge::Two { start, end: _ } => start.global.position,
        }
    }

    /// The global end position of a bounded edge.
    pub open spec fn end_position(self) -> Point3
        recommends
            self.vertices is Two,
    {
        match self.vertices {
            VerticesOfEdge::Closed => self.curve.canonical.origin,
            VerticesOfEdge::Two { start: _, end } => end.global.position,
        }
    }
}

/// An ordered, closed loop of edges bounding a face: each edge's end equals
/// the next edge's start, and the last edge closes back to the first.
#[derive(Clone, Debug)]
#[verifier::ext_equal]
pub struct Cycle {
    pub edges: Vec<Edge>,
}

/// Structural equality of cycles.
pub open spec fn cycle_eq(a: Cycle, b: Cycle) -> bool {
    a.edges@ == b.edges@
}

impl Cycle {
    /// A cycle is well formed when it has at least one edge, every edge is a
    /// well-formed bounded segment, and the edges connect head-to-tail into
    /// a closed loop.
    pub open spec fn wf(self) -> bool {
        &&& self.edges@.len() >= 1
        &&& forall|i: int| 0 <= i < self.edges@.len() ==> (#[trigger] self.edges@[i]).wf()
        &&& forall|i: int| 0 <= i < self.edges@.len() ==> (#[trigger] self.edges@[i]).vertices is Two
        &&& forall|i: int|
            0 <= i < self.edges@.len() ==> (#[trigger] self.edges@[i]).end_position()
                == self.edges@[(i + 1) % (self.edges@.len() as int)].start_position()
    }

    /// All of the cycle's edges lie on the given surface.
    pub open spec fn on_surface(self, s: Surface) -> bool {
        forall|i: int|
            0 <= i < self.edges@.len() ==> {
                &&& local_curve_on_surface((#[trigger] self.edges@[i]).curve, s)
                &&& s.on_surface(self.edges@[i].start_position())
                &&& s.on_surface(self.edges@[i].end_position())
            }
    }

    /// The edges of the cycle.
    pub fn edges(&self) -> (r: &Vec<Edge>)
        ensures
            r == &self.edges,
    {
        &self.edges
    }
}

impl PartialEq for Cycle {
    fn eq(&self, other: &Cycle) -> (r: bool) {
        eq_edge_seq(&self.edges, &other.edges)
    }
}

impl vstd::std_specs::cmp::PartialEqSpecImpl for Cycle {
    open spec fn obeys_eq_spec() -> bool {
        true
    }

    open spec fn eq_spec(&self, other: &Cycle) -> bool {
        cycle_eq(*self, *other)
    }
}

/// Compares two edge sequences for structural equality.
#[verifier::loop_isolation(false)]
fn eq_edge_seq(a: &Vec<Edge>, b: &Vec<Edge>) -> (r: bool)
    ensures
        r == (a@ == b@),
{
    if a.len() != b.len() {
        return false;
    }
    let mut i: usize = 0;
    while i < a.len()
        invariant
            a@.len() == b@.len(),
            0 <= i <= a@.len(),
            forall|j: int| 0 <= j < i ==> a@[j] == b@[j],
        decreases a@.len() - i,
    {
        if a[i] != b[i] {
            return false;
        }
        i += 1;
    }
    proof {
        assert(a@ =~= b@);
    }
    true
}

/// A face of a solid or sketch: either a boundary-representation face (a
/// surface, one exterior cycle, zero or more interior hole cycles, and a
/// color) or a pre-triangulated face carrying raw triangles. A tagged union,
/// not a subtype.
#[derive(Clone, Debug)]
#[verifier::ext_equal]
pub enum Face {
    BRep(BRepFace),
    Triangles(Vec<(Triangle3, Color)>),
}

/// The boundary-representation variant of a face.
#[derive(Clone, Debug)]
#[verifier::ext_equal]
pub struct BRepFace {
    pub surface: Surface,
    pub exterior: Cycle,
    pub interiors: Vec<Cycle>,
    pub color: Color,
}

/// Structural equality of faces.
#[verifier::opaque]
pub open spec fn face_eq(a: Face, b: Face) -> bool {
    match (a, b) {
        (Face::BRep(x), Face::BRep(y)) => {
            &&& x.surface == y.surface
            &&& cycle_eq(x.exterior, y.exterior)
            &&& x.interiors@.len() == y.interiors@.len()
            &&& forall|i: int|
                0 <= i < x.interiors@.len() ==> cycle_eq(
                    #[trigger] x.interiors@[i],
                    y.interiors@[i],
                )
            &&& x.color == y.color
        },
        (Face::Triangles(x), Face::Triangles(y)) => x@ == y@,
        _ => false,
    }
}

impl Face {
    /// A face is well formed when its cycles are well-formed loops lying on
    /// its surface; a pre-triangulated face is always well formed.
    pub open spec fn wf(self) -> bool {
        match self {
            Face::BRep(f) => {
                &&& f.surface.wf()
                &&& f.exterior.wf()
                &&& f.exterior.on_surface(f.surface)
                &&& forall|i: int| 0 <= i < f.interiors@.len() ==> (#[trigger] f.interiors@[i]).wf()
                &&& forall|i: int|
                    0 <= i < f.interiors@.len() ==> (#[trigger] f.interiors@[i]).on_surface(
                        f.surface,
                    )
            },
            Face::Triangles(_) => true,
        }
    }
}

impl PartialEq for Face {
    #[verifier::loop_isolation(false)]
    fn eq(&self, other: &Face) -> (r: bool) {
        proof {
            reveal(face_eq);
        }
        match (self, other) {
            (Face::BRep(x), Face::BRep(y)) => {
                if !(x.surface == y.surface && x.color == y.color) {
                    return false;
                }
                if !(x.exterior == y.exterior) {
                    return false;
                }
                if x.interiors.len() != y.interiors.len() {
                    return false;
                }
                let mut i: usize = 0;
                while i < x.interiors.len()
                    invariant
                        x.interiors@.len() == y.interiors@.len(),
                        0 <= i <= x.interiors@.len(),
                        forall|j: int|
                            0 <= j < i ==> cycle_eq(#[trigger] x.interiors@[j], y.interiors@[j]),
                    decreases x.interiors@.len() - i,
                {
                    if !(x.interiors[i] == y.interiors[i]) {
                        return false;
                    }
                    i += 1;
                }
                true
            },
            (Face::Triangles(x), Face::Triangles(y)) => {
                if x.len() != y.len() {
                    return false;
                }
                let mut i: usize = 0;
                while i < x.len()
                    invariant
                        x@.len() == y@.len(),
                        0 <= i <= x@.len(),
                        forall|j: int| 0 <= j < i ==> x@[j] == y@[j],
                    decreases x@.len() - i,
                {
                    if !(x[i].0 == y[i].0 && x[i].1 == y[i].1) {
                        return false;
                    }
                    i += 1;
                }
                proof {
                    assert(x@ =~= y@);
                }
                true
            },
            _ => false,
        }
    }
}

impl vstd::std_specs::cmp::PartialEqSpecImpl for Face {
    open spec fn obeys_eq_spec() -> bool {
        true
    }

    open spec fn eq_spec(&self, other: &Face) -> bool {
        face_eq(*self, *other)
    }
}

/// Whether a sequence of faces contains a face, up to structural equality.
pub open spec fn in_faces(fs: Seq<Face>, f: Face) -> bool {
    exists|i: int| 0 <= i < fs.len() && face_eq(fs[i], f)
}

/// Whether a sequence of faces holds no structural duplicates.
pub open spec fn faces_distinct(fs: Seq<Face>) -> bool {
    forall|i: int, j: int| 0 <= i < j < fs.len() ==> !face_eq(#[trigger] fs[i], #[trigger] fs[j])
}

/// Decides whether `faces` contains a face structurally equal to `f`.
#[verifier::loop_isolation(false)]
pub fn contains_face(faces: &Vec<Face>, f: &Face) -> (r: bool)
    ensures
        r == in_faces(faces@, *f),
{
    let mut i: usize = 0;
    while i < faces.len()
        invariant
            0 <= i <= faces@.len(),
            forall|j: int| 0 <= j < i ==> !face_eq(faces@[j], *f),
        decreases faces@.len() - i,
    {
        if &faces[i] == f {
            return true;
        }
        i += 1;
    }
    false
}

/// An unordered set of planar faces: the result of 2D construction.
#[derive(Clone, Debug)]
#[verifier::ext_equal]
pub struct Sketch {
    pub faces: Vec<Face>,
}

impl Sketch {
    /// Builds a sketch from faces, deduplicating structurally equal ones.
    pub fn from_faces(faces: Vec<Face>) -> (r: Sketch)
        ensures
            faces_distinct(r.faces@),
            forall|f: Face| in_faces(r.faces@, f) <==> in_faces(faces@, f),
    {
        Sketch { faces: dedup_faces(faces) }
    }

    /// The faces of the sketch.
    pub fn faces(&self) -> (r: &Vec<Face>)
        ensures
            r == &self.faces,
    {
        &self.faces
    }
}

/// An unordered, deduplicated set of faces forming a closed volume.
#[derive(Clone, Debug)]
#[verifier::ext_equal]
pub struct Solid {
    pub faces: Vec<Face>,
}

/// Two face sequences hold the same faces, as sets under structural
/// equality.
pub open spec fn face_set_eq(a: Seq<Face>, b: Seq<Face>) -> bool {
    &&& forall|i: int| 0 <= i < a.len() ==> in_faces(b, #[trigger] a[i])
    &&& forall|i: int| 0 <= i < b.len() ==> in_faces(a, #[trigger] b[i])
}

impl Solid {
    /// A solid is well formed when its face set holds no duplicates and all
    /// faces are well formed.
    pub open spec fn wf(self) -> bool {
        &&& faces_distinct(self.faces@)
        &&& forall|i: int| 0 <= i < self.faces@.len() ==> (#[trigger] self.faces@[i]).wf()
    }

    /// Builds a solid from faces, deduplicating structurally equal ones.
    pub fn from_faces(faces: Vec<Face>) -> (r: Solid)
        ensures
            faces_distinct(r.faces@),
            forall|f: Face| in_faces(r.faces@, f) <==> in_faces(faces@, f),
            forall|i: int| 0 <= i < r.faces@.len() ==> in_faces(faces@, #[trigger] r.faces@[i]),
    {
        Solid { faces: dedup_faces(faces) }
    }

    /// The faces of the solid.
    pub fn faces(&self) -> (r: &Vec<Face>)
        ensures
            r == &self.faces,
    {
        &self.faces
    }
}

/// Structural face equality is reflexive.
pub proof fn lemma_face_eq_refl(a: Face)
    ensures
        face_eq(a, a),
{
    reveal(face_eq);
}

/// Structural face equality is symmetric.
pub proof fn lemma_face_eq_symm(a: Face, b: Face)
    requires
        face_eq(a, b),
    ensures
        face_eq(b, a),
{
    reveal(face_eq);
}

/// Structural face equality is transitive.
pub proof fn lemma_face_eq_trans(a: Face, b: Face, c: Face)
    requires
        face_eq(a, b),
        face_eq(b, c),
    ensures
        face_eq(a, c),
{
    reveal(face_eq);
}

/// A face structurally equal to a member of a sequence is itself a member.
pub proof fn lemma_in_faces_eq(fs: Seq<Face>, f: Face, g: Face)
    requires
        in_faces(fs, f),
        face_eq(f, g),
    ensures
        in_faces(fs, g),
{
    let i = choose|i: int| 0 <= i < fs.len() && face_eq(fs[i], f);
    lemma_face_eq_trans(fs[i], f, g);
}

/// Copies `faces`, keeping the first occurrence of each structurally
/// distinct face.
#[verifier::loop_isolation(false)]
fn dedup_faces(faces: Vec<Face>) -> (r: Vec<Face>)
    ensures
        faces_distinct(r@),
        forall|f: Face| in_faces(r@, f) <==> in_faces(faces@, f),
        forall|i: int| 0 <= i < r@.len() ==> in_faces(faces@, #[trigger] r@[i]),
{
    let ghost orig = faces@;
    let mut rest = faces;
    let mut r: Vec<Face> = Vec::new();
    while rest.len() > 0
        invariant
            rest@.len() <= orig.len(),
            rest@ =~= orig.subrange(orig.len() - rest@.len(), orig.len() as int),
            faces_distinct(r@),
            forall|f: Face|
                in_faces(r@, f) <==> in_faces(orig.take(orig.len() - rest@.len()), f),
            forall|j: int| 0 <= j < r@.len() ==> in_faces(orig, #[trigger] r@[j]),
        decreases rest@.len(),
    {
        let ghost k = orig.len() - rest@.len();
        let f = rest.remove(0);
        proof {
            assert(f == orig[k]);
            assert(rest@ =~= orig.subrange(orig.len() - rest@.len(), orig.len() as int));
        }
        let dup = contains_face(&r, &f);
        let ghost r_before = r@;
        if !dup {
            r.push(f);
        }
        proof {
            assert(orig.take(k + 1) =~= orig.take(k).push(orig[k]));
            assert forall|g: Face| in_faces(r@, g) <==> in_faces(orig.take(k + 1), g) by {
                lemma_in_faces_push(orig.take(k), orig[k], g);
                if !dup {
                    lemma_in_faces_push(r_before, orig[k], g);
                }
                if dup && face_eq(orig[k], g) {
                    lemma_in_faces_eq(orig.take(k), orig[k], g);
                }
            }
            assert forall|j: int| 0 <= j < r@.len() implies in_faces(
                orig,
                #[trigger] r@[j],
            ) by {
                if j == r@.len() - 1 && !dup {
                    lemma_face_eq_refl(orig[k]);
                    assert(face_eq(orig[k], r@[j]));
                }
            }
        }
    }
    proof {
        assert(orig.take(orig.len() as int) =~= orig);
    }
    r
}

/// Membership in a face sequence extended by one face.
pub proof fn lemma_in_faces_push(fs: Seq<Face>, f: Face, g: Face)
    ensures
        in_faces(fs.push(f), g) <==> (in_faces(fs, g) || face_eq(f, g)),
{
    if in_faces(fs, g) {
        let i = choose|i: int| 0 <= i < fs.len() && face_eq(fs[i], g);
        assert(fs.push(f)[i] == fs[i]);
    }
    if face_eq(f, g) {
        assert(fs.push(f)[fs.len() as int] == f);
    }
    if in_faces(fs.push(f), g) {
        let i = choose|i: int| 0 <= i < fs.push(f).len() && face_eq(fs.push(f)[i], g);
        if i < fs.len() {
            assert(fs[i] == fs.push(f)[i]);
        }
    }
}

/// Duplicates a face; the copy is structurally equal to the original.
#[verifier::loop_isolation(false)]
pub fn copy_face(f: &Face) -> (r: Face)
    ensures
        face_eq(*f, r),
{
    proof {
        reveal(face_eq);
    }
    match f {
        Face::BRep(x) => {
            let exterior = Cycle { edges: copy_edges(&x.exterior.edges) };
            let mut interiors: Vec<Cycle> = Vec::new();
            let mut i: usize = 0;
            while i < x.interiors.len()
                invariant
                    0 <= i <= x.interiors@.len(),
                    interiors@.len() == i,
                    forall|j: int| 0 <= j < i ==> cycle_eq(x.interiors@[j], #[trigger] interiors@[j]),
                decreases x.interiors@.len() - i,
            {
                interiors.push(Cycle { edges: copy_edges(&x.interiors[i].edges) });
                i += 1;
            }
            let r = Face::BRep(
                BRepFace { surface: x.surface, exterior, interiors, color: x.color },
            );
            proof {
                assert(cycle_eq(x.exterior, exterior));
                assert(face_eq(*f, r));
            }
            r
        },
        Face::Triangles(ts) => {
            let mut out: Vec<(Triangle3, Color)> = Vec::new();
            let mut i: usize = 0;
            while i < ts.len()
                invariant
                    0 <= i <= ts@.len(),
                    out@.len() == i,
                    forall|j: int| 0 <= j < i ==> out@[j] == ts@[j],
                decreases ts@.len() - i,
            {
                let t = ts[i];
                out.push(t);
                i += 1;
            }
            let r = Face::Triangles(out);
            proof {
                assert(out@ =~= ts@);
            }
            r
        },
    }
}

/// Duplicates an edge vector exactly.
#[verifier::loop_isolation(false)]
fn copy_edges(v: &Vec<Edge>) -> (r: Vec<Edge>)
    ensures
        r@ == v@,
{
    let mut r: Vec<Edge> = Vec::new();
    let mut i: usize = 0;
    while i < v.len()
        invariant
            0 <= i <= v@.len(),
            r@.len() == i,
            forall|j: int| 0 <= j < i ==> r@[j] == v@[j],
        decreases v@.len() - i,
    {
        r.push(v[i]);
        i += 1;
    }
    proof {
        assert(r@ =~= v@);
    }
    r
}

impl PartialEq for Solid {
    fn eq(&self, other: &Solid) -> (r: bool) {
        faces_mutually_contained(&self.faces, &other.faces)
    }
}

impl vstd::std_specs::cmp::PartialEqSpecImpl for Solid {
    open spec fn obeys_eq_spec() -> bool {
        true
    }

    open spec fn eq_spec(&self, other: &Solid) -> bool {
        face_set_eq(self.faces@, other.faces@)
    }
}

impl PartialEq for Sketch {
    fn eq(&self, other: &Sketch) -> (r: bool) {
        faces_mutually_contained(&self.faces, &other.faces)
    }
}

impl vstd::std_specs::cmp::PartialEqSpecImpl for Sketch {
    open spec fn obeys_eq_spec() -> bool {
        true
    }

    open spec fn eq_spec(&self, other: &Sketch) -> bool {
        face_set_eq(self.faces@, other.faces@)
    }
}

/// Decides whether two face sequences are equal as sets under structural
/// equality.
#[verifier::loop_isolation(false)]
fn faces_mutually_contained(a: &Vec<Face>, b: &Vec<Face>) -> (r: bool)
    ensures
        r == face_set_eq(a@, b@),
{
    let mut i: usize = 0;
    while i < a.len()
        invariant
            0 <= i <= a@.len(),
            forall|j: int| 0 <= j < i ==> in_faces(b@, #[trigger] a@[j]),
        decreases a@.len() - i,
    {
        if !contains_face(b, &a[i]) {
            return false;
        }
        i += 1;
    }
    let mut j: usize = 0;
    while j < b.len()
        invariant
            0 <= j <= b@.len(),
            forall|i: int| 0 <= i < a@.len() ==> in_faces(b@, #[trigger] a@[i]),
            forall|k: int| 0 <= k < j ==> in_faces(a@, #[trigger] b@[k]),
        decreases b@.len() - j,
    {
        if !contains_face(a, &b[j]) {
            return false;
        }
        j += 1;
    }
    true
}

} // verus!
