//! Curve-surface and curve-face intersection.
//!
//! `surface_surface` intersects two planes: if they are not parallel the
//! result is the unique intersection line, expressed in each plane's local
//! frame and as a global curve. Coincident planes are a distinct, explicitly
//! unsupported case. `CurveFaceIntersectionList` records the curve-parameter
//! intervals in which a curve lies inside a face, as exact rationals, and
//! `merge` forms the set union of two such interval lists.

use vstd::prelude::*;

use crate::math::{bounded2, bounded3, mul_i64, Point2, Point3, Rat, rat_le, rat_lt, rat_le_exec,
    rat_lt_exec, lemma_rat_le_total, lemma_rat_le_trans, lemma_rat_lt_le_trans, Vector2, Vector3,
    MAX_COORD};
use crate::objects::{axis_coord, project, surface_at, Axis, Curve, Curve2, Cycle, Edge, Face,
    Surface, UnitVec, VerticesOfEdge};

verus! {

/// The point `p` with its coordinate along `axis` replaced by `v`.
pub open spec fn set_axis_spec(p: Point3, axis: Axis, v: i64) -> Point3 {
    match axis {
        Axis::X => Point3 { x: v, ..p },
        Axis::Y => Point3 { y: v, ..p },
        Axis::Z => Point3 { z: v, ..p },
    }
}

/// The unit displacement along `axis`.
pub open spec fn unit_vector3(axis: Axis) -> Vector3 {
    match axis {
        Axis::X => Vector3 { x: 1, y: 0, z: 0 },
        Axis::Y => Vector3 { x: 0, y: 1, z: 0 },
        Axis::Z => Vector3 { x: 0, y: 0, z: 1 },
    }
}

/// The axis distinct from both arguments.
pub open spec fn third_axis(a: Axis, b: Axis) -> Axis {
    if a != Axis::X && b != Axis::X {
        Axis::X
    } else if a != Axis::Y && b != Axis::Y {
        Axis::Y
    } else {
        Axis::Z
    }
}

/// The component of a unit vector along an axis.
pub open spec fn unit_comp(u: UnitVec, axis: Axis) -> int {
    match axis {
        Axis::X => u.dx(),
        Axis::Y => u.dy(),
        Axis::Z => u.dz(),
    }
}

/// How two surfaces relate: parallel and distinct, coincident (an
/// unresolved case this kernel refuses to guess at), or meeting in a line.
pub enum SurfaceIntersection {
    /// The surfaces are parallel and never meet.
    Parallel,
    /// The surfaces are the same plane; intersecting them is unsupported.
    Coincident,
    /// The surfaces meet in a line, given in each surface's local frame and
    /// as a global curve.
    Curves { a_local: Curve2, b_local: Curve2, global: Curve },
}

/// Whether two surfaces are parallel: their normal axes agree.
pub open spec fn surfaces_parallel(a: Surface, b: Surface) -> bool {
    a.normal_axis() == b.normal_axis()
}

/// Whether two surfaces are the same plane.
pub open spec fn surfaces_coincident(a: Surface, b: Surface) -> bool {
    &&& surfaces_parallel(a, b)
    &&& axis_coord(a.origin, a.normal_axis()) == axis_coord(b.origin, a.normal_axis())
}

/// The global point on both (non-parallel) planes with coordinate zero along
/// the shared line's direction.
pub open spec fn isect_point(a: Surface, b: Surface) -> Point3 {
    set_axis_spec(
        set_axis_spec(
            set_axis_spec(Point3 { x: 0, y: 0, z: 0 }, a.normal_axis(), (axis_coord(
                a.origin,
                a.normal_axis(),
            )) as i64),
            b.normal_axis(),
            (axis_coord(b.origin, b.normal_axis())) as i64,
        ),
        third_axis(a.normal_axis(), b.normal_axis()),
        0,
    )
}

/// The global intersection line of two non-parallel planes.
pub open spec fn isect_curve(a: Surface, b: Surface) -> Curve {
    Curve {
        origin: isect_point(a, b),
        direction: unit_vector3(third_axis(a.normal_axis(), b.normal_axis())),
    }
}

/// The intersection line expressed in surface `s`'s local frame.
pub open spec fn isect_local(s: Surface, other: Surface) -> Curve2 {
    let t = third_axis(s.normal_axis(), other.normal_axis());
    Curve2 {
        origin: project(s, isect_point(s, other)),
        direction: Vector2 { x: unit_comp(s.u, t) as i64, y: unit_comp(s.v, t) as i64 },
    }
}

/// What `surface_surface` returns, as a function of the two surfaces.
#[verifier::opaque]
pub open spec fn surface_isect(a: Surface, b: Surface) -> SurfaceIntersection {
    if surfaces_coincident(a, b) {
        SurfaceIntersection::Coincident
    } else if surfaces_parallel(a, b) {
        SurfaceIntersection::Parallel
    } else {
        SurfaceIntersection::Curves {
            a_local: isect_local(a, b),
            b_local: isect_local(b, a),
            global: isect_curve(a, b),
        }
    }
}

/// The coordinate of a point along an axis, as a machine integer.
fn axis_coord_exec(p: &Point3, axis: Axis) -> (r: i64)
    ensures
        r as int == axis_coord(*p, axis),
{
    match axis {
        Axis::X => p.x,
        Axis::Y => p.y,
        Axis::Z => p.z,
    }
}

/// Replaces the coordinate of a point along an axis.
fn set_axis_exec(p: Point3, axis: Axis, v: i64) -> (r: Point3)
    ensures
        r == set_axis_spec(p, axis, v),
{
    match axis {
        Axis::X => Point3 { x: v, ..p },
        Axis::Y => Point3 { y: v, ..p },
        Axis::Z => Point3 { z: v, ..p },
    }
}

/// The normal axis of a surface, as a machine value.
fn normal_axis_exec(s: &Surface) -> (r: Axis)
    ensures
        r == s.normal_axis(),
{
    let ux = s.u.axis;
    let vx = s.v.axis;
    if ux != Axis::X && vx != Axis::X {
        Axis::X
    } else if ux != Axis::Y && vx != Axis::Y {
        Axis::Y
    } else {
        Axis::Z
    }
}

/// The component of a unit vector along an axis, as a machine integer.
fn unit_comp_exec(u: &UnitVec, axis: Axis) -> (r: i64)
    ensures
        r as int == unit_comp(*u, axis),
{
    match axis {
        Axis::X => u.x_comp(),
        Axis::Y => u.y_comp(),
        Axis::Z => u.z_comp(),
    }
}

/// Intersects two surfaces: the unique line along which they meet, in each
/// surface's local frame and as a global curve, or the parallel /
/// coincident outcomes. Coincident surfaces are a distinct, unresolved
/// case, surfaced explicitly rather than approximated.
pub fn surface_surface(a: &Surface, b: &Surface) -> (r: SurfaceIntersection)
    requires
        a.wf(),
        b.wf(),
        bounded3(a.origin, MAX_COORD as int),
        bounded3(b.origin, MAX_COORD as int),
    ensures
        r == surface_isect(*a, *b),
        match r {
            SurfaceIntersection::Curves { a_local, b_local, global: _ } => curve2_bounded(
                a_local,
                32 * MAX_COORD as int,
            ) && curve2_bounded(b_local, 32 * MAX_COORD as int),
            _ => true,
        },
{
    proof {
        reveal(surface_isect);
    }
    let na = normal_axis_exec(a);
    let nb = normal_axis_exec(b);
    if na == nb {
        if axis_coord_exec(&a.origin, na) == axis_coord_exec(&b.origin, na) {
            SurfaceIntersection::Coincident
        } else {
            SurfaceIntersection::Parallel
        }
    } else {
        let t = if na != Axis::X && nb != Axis::X {
            Axis::X
        } else if na != Axis::Y && nb != Axis::Y {
            Axis::Y
        } else {
            Axis::Z
        };
        let p0 = set_axis_exec(
            set_axis_exec(
                set_axis_exec(Point3 { x: 0, y: 0, z: 0 }, na, axis_coord_exec(&a.origin, na)),
                nb,
                axis_coord_exec(&b.origin, nb),
            ),
            t,
            0,
        );
        let dir = match t {
            Axis::X => Vector3 { x: 1, y: 0, z: 0 },
            Axis::Y => Vector3 { x: 0, y: 1, z: 0 },
            Axis::Z => Vector3 { x: 0, y: 0, z: 1 },
        };
        let a_local = Curve2 {
            origin: a.point_to_surface_coords(p0),
            direction: Vector2 { x: unit_comp_exec(&a.u, t), y: unit_comp_exec(&a.v, t) },
        };
        let b_local = Curve2 {
            origin: b.point_to_surface_coords(p0),
            direction: Vector2 { x: unit_comp_exec(&b.u, t), y: unit_comp_exec(&b.v, t) },
        };
        SurfaceIntersection::Curves { a_local, b_local, global: Curve { origin: p0, direction: dir } }
    }
}

/// The signed side of the local point `p` relative to the local curve `c`:
/// the cross product of the curve direction with the offset from the curve
/// origin.
pub open spec fn side_of(c: Curve2, p: Point2) -> int {
    c.direction.x * (p.y - c.origin.y) - c.direction.y * (p.x - c.origin.x)
}

/// The local end point of a unit-parameter edge: its local origin plus its
/// local direction.
pub open spec fn edge_local_end(e: Edge) -> (int, int) {
    (e.curve.local.origin.x + e.curve.local.direction.x, e.curve.local.origin.y
        + e.curve.local.direction.y)
}

/// The signed side of the local end point of an edge relative to `c`.
pub open spec fn side_of_end(c: Curve2, e: Edge) -> int {
    c.direction.x * (edge_local_end(e).1 - c.origin.y) - c.direction.y * (edge_local_end(e).0
        - c.origin.x)
}

/// Whether the curve `c` properly crosses the edge's local segment: the two
/// segment endpoints lie on strictly opposite sides, counting points on the
/// curve itself as the non-negative side so that each boundary touch is
/// counted consistently.
pub open spec fn edge_crosses(c: Curve2, e: Edge) -> bool {
    (side_of(c, e.curve.local.origin) < 0) != (side_of_end(c, e) < 0)
}

/// How many edges of `s` the curve crosses.
pub open spec fn cross_count_edges(c: Curve2, s: Seq<Edge>) -> int
    decreases s.len(),
{
    if s.len() == 0 {
        0
    } else {
        cross_count_edges(c, s.drop_last()) + if edge_crosses(c, s.last()) {
            1int
        } else {
            0int
        }
    }
}

/// How many boundary edges of the cycles the curve crosses.
pub open spec fn cross_count_cycles(c: Curve2, s: Seq<Cycle>) -> int
    decreases s.len(),
{
    if s.len() == 0 {
        0
    } else {
        cross_count_cycles(c, s.drop_last()) + cross_count_edges(c, s.last().edges@)
    }
}

/// How many boundary edges of the face (exterior and interior cycles) the
/// curve crosses. The curve lies inside the face along some interval exactly
/// when it crosses the boundary somewhere.
pub open spec fn face_cross_count(c: Curve2, f: Face) -> int {
    match f {
        Face::BRep(b) => cross_count_edges(c, b.exterior.edges@) + cross_count_cycles(
            c,
            b.interiors@,
        ),
        Face::Triangles(_) => 0,
    }
}

/// A curve-parameter interval in which a curve lies inside a face.
#[derive(Clone, Copy, Debug, PartialEq, Eq, Structural)]
pub struct Interval {
    pub start: Rat,
    pub end: Rat,
}

/// A sorted list of disjoint curve-parameter intervals.
#[derive(Clone, Debug, PartialEq)]
pub struct CurveFaceIntersectionList {
    pub intervals: Vec<Interval>,
}

/// Well-formedness of an interval list: every interval is ordered and well
/// formed, and the intervals are sorted and strictly separated (touching
/// intervals have been coalesced).
pub open spec fn list_wf(s: Seq<Interval>) -> bool {
    &&& forall|i: int|
        0 <= i < s.len() ==> (#[trigger] s[i]).start.wf() && s[i].end.wf() && rat_le(
            s[i].start,
            s[i].end,
        )
    &&& forall|i: int| 0 <= i < s.len() - 1 ==> rat_lt((#[trigger] s[i]).end, s[i + 1].start)
}

/// Whether the parameter `x` lies in some interval of the list.
pub open spec fn covered(s: Seq<Interval>, x: Rat) -> bool {
    exists|i: int| 0 <= i < s.len() && rat_le((#[trigger] s[i]).start, x) && rat_le(x, s[i].end)
}

impl CurveFaceIntersectionList {
    /// Whether the curve never lies inside the face.
    pub fn is_empty(&self) -> (r: bool)
        ensures
            r == (self.intervals@.len() == 0),
    {
        self.intervals.len() == 0
    }
}

/// Bound on the local coordinates a face's boundary may use while crossing
/// computations stay exact.
pub open spec fn curve2_bounded(c: Curve2, m: int) -> bool {
    &&& bounded2(c.origin, m)
    &&& -m <= c.direction.x <= m
    &&& -m <= c.direction.y <= m
}

/// All edges of the face have unit-parameter, bounded local curves.
pub open spec fn face_edges_bounded(f: Face, m: int) -> bool {
    match f {
        Face::BRep(b) => {
            &&& forall|i: int|
                0 <= i < b.exterior.edges@.len() ==> curve2_bounded(
                    (#[trigger] b.exterior.edges@[i]).curve.local,
                    m,
                )
            &&& forall|i: int, j: int|
                0 <= i < b.interiors@.len() && 0 <= j < b.interiors@[i].edges@.len()
                    ==> curve2_bounded((#[trigger] b.interiors@[i].edges@[j]).curve.local, m)
        },
        Face::Triangles(_) => true,
    }
}

/// Computes the side of a local point relative to a local curve, exactly.
fn side_of_exec(c: &Curve2, px: i64, py: i64) -> (r: i128)
    requires
        curve2_bounded(*c, 64 * MAX_COORD as int),
        -64 * MAX_COORD as int <= px <= 64 * MAX_COORD as int,
        -64 * MAX_COORD as int <= py <= 64 * MAX_COORD as int,
    ensures
        r == c.direction.x * (py - c.origin.y) - c.direction.y * (px - c.origin.x),
        -0x40_0000_0000_0000 <= r <= 0x40_0000_0000_0000,
{
    let p1 = mul_i64(c.direction.x, py - c.origin.y);
    let p2 = mul_i64(c.direction.y, px - c.origin.x);
    proof {
        assert(-0x20_0000_0000_0000 <= p1 <= 0x20_0000_0000_0000) by (nonlinear_arith)
            requires
                p1 == c.direction.x * (py - c.origin.y),
                -0x400_0000 <= c.direction.x <= 0x400_0000,
                -0x800_0000 <= py - c.origin.y <= 0x800_0000,
        ;
        assert(-0x20_0000_0000_0000 <= p2 <= 0x20_0000_0000_0000) by (nonlinear_arith)
            requires
                p2 == c.direction.y * (px - c.origin.x),
                -0x400_0000 <= c.direction.y <= 0x400_0000,
                -0x800_0000 <= px - c.origin.x <= 0x800_0000,
        ;
    }
    p1 - p2
}

/// A sequence of well-formed rationals.
pub open spec fn rats_wf(s: Seq<Rat>) -> bool {
    forall|i: int| 0 <= i < s.len() ==> (#[trigger] s[i]).wf()
}

/// A sequence of rationals in ascending order.
pub open spec fn rats_sorted(s: Seq<Rat>) -> bool {
    forall|i: int| 0 <= i < s.len() - 1 ==> rat_le(#[trigger] s[i], s[i + 1])
}

/// Intervals in ascending order of start.
pub open spec fn starts_sorted(s: Seq<Interval>) -> bool {
    forall|i: int| 0 <= i < s.len() - 1 ==> rat_le((#[trigger] s[i]).start, s[i + 1].start)
}

/// Each interval ordered and well formed.
pub open spec fn ivs_wf(s: Seq<Interval>) -> bool {
    forall|i: int|
        0 <= i < s.len() ==> (#[trigger] s[i]).start.wf() && s[i].end.wf() && rat_le(
            s[i].start,
            s[i].end,
        )
}

/// The index of a least element.
#[verifier::loop_isolation(false)]
fn min_index(v: &Vec<Rat>) -> (r: usize)
    requires
        v@.len() > 0,
        rats_wf(v@),
    ensures
        0 <= r < v@.len(),
        forall|i: int| 0 <= i < v@.len() ==> rat_le(v@[r as int], #[trigger] v@[i]),
{
    let mut m: usize = 0;
    let mut i: usize = 1;
    while i < v.len()
        invariant
            0 <= m < i <= v@.len(),
            forall|j: int| 0 <= j < i ==> rat_le(v@[m as int], #[trigger] v@[j]),
        decreases v@.len() - i,
    {
        if rat_lt_exec(v[i], v[m]) {
            proof {
                assert forall|j: int| 0 <= j < i + 1 implies rat_le(
                    v@[i as int],
                    #[trigger] v@[j],
                ) by {
                    lemma_rat_le_total(v@[i as int], v@[m as int]);
                    if j < i {
                        lemma_rat_le_trans(v@[i as int], v@[m as int], v@[j]);
                    }
                }
            }
            m = i;
        } else {
            proof {
                lemma_rat_le_total(v@[i as int], v@[m as int]);
            }
        }
        i += 1;
    }
    m
}

/// Sorts rationals ascending, preserving the multiset of values.
#[verifier::loop_isolation(false)]
fn sort_rats(v: Vec<Rat>) -> (r: Vec<Rat>)
    requires
        rats_wf(v@),
    ensures
        rats_wf(r@),
        rats_sorted(r@),
        r@.len() == v@.len(),
        r@.to_multiset() == v@.to_multiset(),
{
    let ghost orig = v@;
    let mut work = v;
    let mut r: Vec<Rat> = Vec::new();
    proof {
        vstd::seq_lib::lemma_multiset_commutative(r@, work@);
        assert(r@ + work@ =~= orig);
    }
    while work.len() > 0
        invariant
            rats_wf(work@),
            rats_wf(r@),
            rats_sorted(r@),
            forall|i: int, j: int|
                0 <= i < r@.len() && 0 <= j < work@.len() ==> rat_le(
                    #[trigger] r@[i],
                    #[trigger] work@[j],
                ),
            r@.len() + work@.len() == orig.len(),
            r@.to_multiset().add(work@.to_multiset()) == orig.to_multiset(),
        decreases work@.len(),
    {
        let m = min_index(&work);
        let ghost work_pre = work@;
        let x = work.remove(m);
        let ghost r_pre = r@;
        r.push(x);
        proof {
            broadcast use vstd::seq_lib::group_to_multiset_ensures;

            assert(work@ == work_pre.remove(m as int));
            assert(r@ == r_pre.push(x));
            assert(r@.to_multiset() =~= r_pre.to_multiset().insert(x));
            assert(work_pre.to_multiset() =~= work@.to_multiset().insert(x));
            assert(r@.to_multiset().add(work@.to_multiset()) =~= orig.to_multiset());
        }
        proof {
            assert forall|i: int, j: int|
                0 <= i < r@.len() && 0 <= j < work@.len() implies rat_le(
                #[trigger] r@[i],
                #[trigger] work@[j],
            ) by {
                let wj = work@[j];
                assert(work_pre.remove(m as int)[j] == if j < m {
                    work_pre[j]
                } else {
                    work_pre[j + 1]
                });
                if i < r_pre.len() {
                    lemma_rat_le_trans(r@[i], x, wj);
                }
            }
            assert forall|i: int| 0 <= i < r@.len() - 1 implies rat_le(
                #[trigger] r@[i],
                r@[i + 1],
            ) by {
                if i + 1 == r@.len() - 1 + 1 {
                }
            }
        }
    }
    proof {
        vstd::seq_lib::lemma_multiset_commutative(r@, work@);
        assert(r@ + work@ =~= r@);
    }
    r
}

/// Pairs sorted crossing parameters into intervals: consecutive parameters
/// bound one interval; a final unpaired parameter becomes a point interval
/// (the curve touches the boundary without entering).
#[verifier::loop_isolation(false)]
fn pair_up(params: &Vec<Rat>) -> (r: Vec<Interval>)
    requires
        rats_wf(params@),
        rats_sorted(params@),
    ensures
        ivs_wf(r@),
        starts_sorted(r@),
        (r@.len() == 0) == (params@.len() == 0),
    {
    let mut out: Vec<Interval> = Vec::new();
    let mut i: usize = 0;
    while i < params.len()
        invariant
            0 <= i <= params@.len(),
            ivs_wf(out@),
            starts_sorted(out@),
            (out@.len() == 0) == (i == 0),
            out@.len() > 0 && i < params@.len() ==> rat_le(out@.last().start, params@[i as int]),
        decreases params@.len() - i,
    {
        let iv = if i + 1 < params.len() {
            Interval { start: params[i], end: params[i + 1] }
        } else {
            Interval { start: params[i], end: params[i] }
        };
        proof {
            if out@.len() > 0 {
                assert(rat_le(out@.last().start, iv.start));
            }
        }
        out.push(iv);
        let step: usize = if i + 1 < params.len() {
            2
        } else {
            1
        };
        proof {
            if i + 2 < params@.len() {
                lemma_rat_le_trans(params@[i as int], params@[i + 1], params@[i + 2]);
            }
        }
        i += step;
    }
    proof {
        assert(i == params@.len());
        if params@.len() > 0 {
            assert(out@.len() > 0);
        }
    }
    out
}

/// Coalesces a start-sorted interval list into a well-formed one: touching
/// or overlapping intervals become one.
#[verifier::loop_isolation(false)]
fn coalesce(v: Vec<Interval>) -> (r: Vec<Interval>)
    requires
        ivs_wf(v@),
        starts_sorted(v@),
    ensures
        list_wf(r@),
        (r@.len() == 0) == (v@.len() == 0),
{
    if v.len() == 0 {
        return Vec::new();
    }
    let mut out: Vec<Interval> = Vec::new();
    let mut cur = v[0];
    let mut i: usize = 1;
    while i < v.len()
        invariant
            1 <= i <= v@.len(),
            list_wf(out@),
            cur.start.wf(),
            cur.end.wf(),
            rat_le(cur.start, cur.end),
            out@.len() > 0 ==> rat_lt(out@.last().end, cur.start),
            i < v@.len() ==> rat_le(cur.start, v@[i as int].start),
        decreases v@.len() - i,
    {
        let nxt = v[i];
        if rat_le_exec(nxt.start, cur.end) {
            if rat_lt_exec(cur.end, nxt.end) {
                proof {
                    lemma_rat_le_total(cur.end, nxt.end);
                    lemma_rat_le_trans(cur.start, nxt.start, nxt.end);
                }
                cur = Interval { start: cur.start, end: nxt.end };
            }
        } else {
            proof {
                lemma_rat_le_total(nxt.start, cur.end);
            }
            out.push(cur);
            cur = nxt;
        }
        proof {
            if i + 1 < v@.len() {
                assert(rat_le(v@[i as int].start, v@[i + 1].start));
                if rat_le(v@[i as int].start, cur.start) {
                }
            }
        }
        i += 1;
        proof {
            if i < v@.len() {
                lemma_rat_le_trans(cur.start, v@[i - 1].start, v@[i as int].start);
            }
        }
    }
    out.push(cur);
    out
}

/// Collects the crossing parameters of the curve against a cycle's edges.
#[verifier::loop_isolation(false)]
fn collect_crossings(c: &Curve2, edges: &Vec<Edge>, params: &mut Vec<Rat>)
    requires
        curve2_bounded(*c, 32 * MAX_COORD as int),
        forall|i: int|
            0 <= i < edges@.len() ==> curve2_bounded(
                (#[trigger] edges@[i]).curve.local,
                32 * MAX_COORD as int,
            ),
        rats_wf(old(params)@),
    ensures
        rats_wf(final(params)@),
        final(params)@.len() == old(params)@.len() + cross_count_edges(*c, edges@),
{
    let mut i: usize = 0;
    while i < edges.len()
        invariant
            0 <= i <= edges@.len(),
            rats_wf(params@),
            params@.len() == old(params)@.len() + cross_count_edges(*c, edges@.take(i as int)),
        decreases edges@.len() - i,
    {
        let e = &edges[i];
        let p = e.curve.local.origin;
        let qx = e.curve.local.origin.x + e.curve.local.direction.x;
        let qy = e.curve.local.origin.y + e.curve.local.direction.y;
        let sp = side_of_exec(c, p.x, p.y);
        let sq = side_of_exec(c, qx, qy);
        if (sp < 0) != (sq < 0) {
            // parameter of the crossing along the curve:
            // t = cross(p - o, q - p) / cross(d, q - p), and the denominator
            // is sq - sp, which is nonzero here.
            let n1 = mul_i64(p.x - c.origin.x, e.curve.local.direction.y);
            let n2 = mul_i64(p.y - c.origin.y, e.curve.local.direction.x);
            proof {
                assert(-0x10_0000_0000_0000 <= n1 <= 0x10_0000_0000_0000) by (nonlinear_arith)
                    requires
                        n1 == (p.x - c.origin.x) * e.curve.local.direction.y,
                        -0x400_0000 <= p.x - c.origin.x <= 0x400_0000,
                        -0x400_0000 <= e.curve.local.direction.y <= 0x400_0000,
                ;
                assert(-0x10_0000_0000_0000 <= n2 <= 0x10_0000_0000_0000) by (nonlinear_arith)
                    requires
                        n2 == (p.y - c.origin.y) * e.curve.local.direction.x,
                        -0x400_0000 <= p.y - c.origin.y <= 0x400_0000,
                        -0x400_0000 <= e.curve.local.direction.x <= 0x400_0000,
                ;
            }
            let num = n1 - n2;
            let den = sq - sp;
            let t = if den > 0 {
                Rat { num: num as i64, den: den as i64 }
            } else {
                Rat { num: (-num) as i64, den: (-den) as i64 }
            };
            params.push(t);
        }
        proof {
            let tk = edges@.take(i + 1);
            assert(tk.drop_last() =~= edges@.take(i as int));
            assert(tk.last() == edges@[i as int]);
            assert(edge_crosses(*c, edges@[i as int]) == ((sp < 0) != (sq < 0)));
        }
        i += 1;
    }
    proof {
        assert(edges@.take(edges@.len() as int) =~= edges@);
    }
}

impl CurveFaceIntersectionList {
    /// Computes the sorted, disjoint list of curve-parameter intervals in
    /// which the curve lies inside the face: the sorted crossing parameters
    /// of the curve against the face's boundary cycles, paired up. The list
    /// is empty exactly when the curve never crosses the face's boundary.
    #[verifier::loop_isolation(false)]
    pub fn compute(curve: &Curve2, face: &Face) -> (r: CurveFaceIntersectionList)
        requires
            curve2_bounded(*curve, 32 * MAX_COORD as int),
            face_edges_bounded(*face, 32 * MAX_COORD as int),
        ensures
            list_wf(r.intervals@),
            (r.intervals@.len() == 0) == (face_cross_count(*curve, *face) == 0),
    {
        let mut params: Vec<Rat> = Vec::new();
        match face {
            Face::BRep(b) => {
                collect_crossings(curve, &b.exterior.edges, &mut params);
                let mut i: usize = 0;
                while i < b.interiors.len()
                    invariant
                        0 <= i <= b.interiors@.len(),
                        rats_wf(params@),
                        params@.len() == cross_count_edges(*curve, b.exterior.edges@)
                            + cross_count_cycles(*curve, b.interiors@.take(i as int)),
                    decreases b.interiors@.len() - i,
                {
                    collect_crossings(curve, &b.interiors[i].edges, &mut params);
                    proof {
                        let tk = b.interiors@.take(i + 1);
                        assert(tk.drop_last() =~= b.interiors@.take(i as int));
                        assert(tk.last() == b.interiors@[i as int]);
                    }
                    i += 1;
                }
                proof {
                    assert(b.interiors@.take(b.interiors@.len() as int) =~= b.interiors@);
                }
            },
            Face::Triangles(_) => {},
        }
        let ghost n_crossings = params@.len();
        let sorted = sort_rats(params);
        let paired = pair_up(&sorted);
        let intervals = coalesce(paired);
        CurveFaceIntersectionList { intervals }
    }

    /// Merges two interval lists into their set union: a sorted, disjoint
    /// list covering the parameters either input covers, with touching and
    /// overlapping intervals coalesced. The result is empty exactly when
    /// both inputs are.
    #[verifier::loop_isolation(false)]
    pub fn merge(&self, other: &CurveFaceIntersectionList) -> (r: CurveFaceIntersectionList)
        requires
            list_wf(self.intervals@),
            list_wf(other.intervals@),
        ensures
            list_wf(r.intervals@),
            (r.intervals@.len() == 0) == (self.intervals@.len() == 0 && other.intervals@.len()
                == 0),
    {
        // gather both endpoint lists, re-sort the starts together, and
        // coalesce; sortedness of the merged list comes from re-sorting by
        // interval start.
        let mut all: Vec<Interval> = Vec::new();
        let mut i: usize = 0;
        while i < self.intervals.len()
            invariant
                0 <= i <= self.intervals@.len(),
                all@ == self.intervals@.take(i as int),
            decreases self.intervals@.len() - i,
        {
            all.push(self.intervals[i]);
            proof {
                assert(all@ =~= self.intervals@.take(i + 1));
            }
            i += 1;
        }
        proof {
            assert(self.intervals@.take(self.intervals@.len() as int) =~= self.intervals@);
        }
        let mut j: usize = 0;
        while j < other.intervals.len()
            invariant
                0 <= j <= other.intervals@.len(),
                all@ == self.intervals@ + other.intervals@.take(j as int),
            decreases other.intervals@.len() - j,
        {
            all.push(other.intervals[j]);
            proof {
                assert(all@ =~= self.intervals@ + other.intervals@.take(j + 1));
            }
            j += 1;
        }
        proof {
            assert(other.intervals@.take(other.intervals@.len() as int) =~= other.intervals@);
            assert(all@ =~= self.intervals@ + other.intervals@);
        }
        let sorted = sort_intervals(all);
        let intervals = coalesce(sorted);
        CurveFaceIntersectionList { intervals }
    }
}

/// Sorts intervals ascending by start, preserving the multiset of
/// intervals.
#[verifier::loop_isolation(false)]
fn sort_intervals(v: Vec<Interval>) -> (r: Vec<Interval>)
    requires
        ivs_wf(v@),
    ensures
        ivs_wf(r@),
        starts_sorted(r@),
        r@.len() == v@.len(),
        r@.to_multiset() == v@.to_multiset(),
{
    let ghost orig = v@;
    let mut work = v;
    let mut r: Vec<Interval> = Vec::new();
    proof {
        vstd::seq_lib::lemma_multiset_commutative(r@, work@);
        assert(r@ + work@ =~= orig);
    }
    while work.len() > 0
        invariant
            ivs_wf(work@),
            ivs_wf(r@),
            starts_sorted(r@),
            forall|i: int, j: int|
                0 <= i < r@.len() && 0 <= j < work@.len() ==> rat_le(
                    (#[trigger] r@[i]).start,
                    (#[trigger] work@[j]).start,
                ),
            r@.len() + work@.len() == orig.len(),
            r@.to_multiset().add(work@.to_multiset()) == orig.to_multiset(),
        decreases work@.len(),
    {
        let mut m: usize = 0;
        let mut i: usize = 1;
        while i < work.len()
            invariant
                0 <= m < i <= work@.len(),
                forall|j: int|
                    0 <= j < i ==> rat_le(work@[m as int].start, (#[trigger] work@[j]).start),
            decreases work@.len() - i,
        {
            if rat_lt_exec(work[i].start, work[m].start) {
                proof {
                    assert forall|j: int| 0 <= j < i + 1 implies rat_le(
                        work@[i as int].start,
                        (#[trigger] work@[j]).start,
                    ) by {
                        lemma_rat_le_total(work@[i as int].start, work@[m as int].start);
                        if j < i {
                            lemma_rat_le_trans(
                                work@[i as int].start,
                                work@[m as int].start,
                                work@[j].start,
                            );
                        }
                    }
                }
                m = i;
            } else {
                proof {
                    lemma_rat_le_total(work@[i as int].start, work@[m as int].start);
                }
            }
            i += 1;
        }
        let ghost work_pre = work@;
        let x = work.remove(m);
        let ghost r_pre = r@;
        r.push(x);
        proof {
            broadcast use vstd::seq_lib::group_to_multiset_ensures;

            assert(r@.to_multiset() =~= r_pre.to_multiset().insert(x));
            assert(work_pre.to_multiset() =~= work@.to_multiset().insert(x));
            assert(r@.to_multiset().add(work@.to_multiset()) =~= orig.to_multiset());
            assert forall|a: int, j: int|
                0 <= a < r@.len() && 0 <= j < work@.len() implies rat_le(
                (#[trigger] r@[a]).start,
                (#[trigger] work@[j]).start,
            ) by {
                assert(work_pre.remove(m as int)[j] == if j < m {
                    work_pre[j]
                } else {
                    work_pre[j + 1]
                });
                if a < r_pre.len() {
                    lemma_rat_le_trans(r@[a].start, x.start, work@[j].start);
                }
            }
        }
    }
    proof {
        vstd::seq_lib::lemma_multiset_commutative(r@, work@);
        assert(r@ + work@ =~= r@);
    }
    r
}

} // verus!
