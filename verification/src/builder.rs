//! Bottom-up construction of boundary-representation objects: line-segment
//! edges, polygon cycles, faces, shapes, cubes, and translation of solids.

use vstd::prelude::*;

use crate::math::{bounded2, bounded3, lemma_sub_mul, Color, Point2, Point3, Triangle3, Vector2,
    Vector3, MAX_COORD};
use crate::objects::{cycle_eq, face_eq, Axis, BRepFace, Curve, Curve2, Cycle, Edge, Face,
    GlobalVertex, LocalCurve, Surface, UnitVec, Vertex, VerticesOfEdge, Solid, surface_at,
    local_curve_on_surface, curve_at};

verus! {

/// An edge lies on a surface: its curve is consistent in both frames and its
/// endpoints are points of the surface.
pub open spec fn edge_on_surface(e: Edge, s: Surface) -> bool {
    &&& local_curve_on_surface(e.curve, s)
    &&& s.on_surface(e.start_position())
    &&& s.on_surface(e.end_position())
}

impl Edge {
    /// Builds the bounded line-segment edge between two surface-local
    /// points: its curve holds both the local and the canonical (global)
    /// form, and its vertices sit at curve parameters 0 and 1.
    pub fn line_segment_from_points(surface: &Surface, points: [Point2; 2]) -> (r: Edge)
        requires
            surface.wf(),
            bounded3(surface.origin, MAX_COORD as int),
            bounded2(points[0], MAX_COORD as int),
            bounded2(points[1], MAX_COORD as int),
            points[0] != points[1],
        ensures
            r.wf(),
            edge_on_surface(r, *surface),
            r.curve.local.origin == points[0],
            r.curve.local.direction == (Vector2 {
                x: (points[1].x - points[0].x) as i64,
                y: (points[1].y - points[0].y) as i64,
            }),
            surface_at(*surface, points[0], r.start_position()),
            surface_at(*surface, points[1], r.end_position()),
            r.vertices is Two,
            bounded3(r.start_position(), 9 * MAX_COORD as int),
            bounded3(r.end_position(), 9 * MAX_COORD as int),
            bounded3(r.curve.canonical.origin, 9 * MAX_COORD as int),
    {
        let p = points[0];
        let q = points[1];
        let gp = surface.point_from_surface_coords(p);
        let gq = surface.point_from_surface_coords(q);
        let local = Curve2 { origin: p, direction: Vector2 { x: q.x - p.x, y: q.y - p.y } };
        let canonical = Curve {
            origin: gp,
            direction: Vector3 { x: gq.x - gp.x, y: gq.y - gp.y, z: gq.z - gp.z },
        };
        let start = Vertex { position: 0, global: GlobalVertex { position: gp } };
        let end = Vertex { position: 1, global: GlobalVertex { position: gq } };
        let r = Edge {
            curve: LocalCurve { local, canonical },
            vertices: VerticesOfEdge::Two { start, end },
        };
        proof {
            if gp == gq {
                crate::objects::lemma_surface_coords_unique(*surface, p, q, gp);
            }
            assert(curve_at(canonical, 0, gp));
            assert(curve_at(canonical, 1, gq));
            lemma_sub_mul(q.x as int, p.x as int, surface.u.dx());
            lemma_sub_mul(q.y as int, p.y as int, surface.v.dx());
            lemma_sub_mul(q.x as int, p.x as int, surface.u.dy());
            lemma_sub_mul(q.y as int, p.y as int, surface.v.dy());
            lemma_sub_mul(q.x as int, p.x as int, surface.u.dz());
            lemma_sub_mul(q.y as int, p.y as int, surface.v.dz());
            assert(local_curve_on_surface(r.curve, *surface));
        }
        r
    }
}

/// Whether `pts` is a usable polygon outline on a surface: at least three
/// corners, all within the kernel's coordinate bound, and no two consecutive
/// corners (cyclically) equal.
pub open spec fn polygon_ok(pts: Seq<Point2>) -> bool {
    &&& pts.len() >= 3
    &&& forall|i: int| 0 <= i < pts.len() ==> bounded2(#[trigger] pts[i], MAX_COORD as int)
    &&& forall|i: int| 0 <= i < pts.len() ==> #[trigger] pts[i] != pts[(i + 1) % (pts.len() as int)]
}

impl Cycle {
    /// Builds the closed polygon cycle through the given surface-local
    /// corners, one line-segment edge per corner, closing back to the first.
    #[verifier::loop_isolation(false)]
    pub fn polygon_from_points(surface: &Surface, points: Vec<Point2>) -> (r: Cycle)
        requires
            surface.wf(),
            bounded3(surface.origin, MAX_COORD as int),
            polygon_ok(points@),
        ensures
            r.wf(),
            r.on_surface(*surface),
            r.edges@.len() == points@.len(),
            forall|i: int|
                0 <= i < points@.len() ==> {
                    &&& (#[trigger] r.edges@[i]).curve.local.origin == points@[i]
                    &&& surface_at(*surface, points@[i], r.edges@[i].start_position())
                    &&& surface_at(
                        *surface,
                        points@[(i + 1) % (points@.len() as int)],
                        r.edges@[i].end_position(),
                    )
                    &&& r.edges@[i].curve.local.direction == (Vector2 {
                        x: (points@[(i + 1) % (points@.len() as int)].x - points@[i].x) as i64,
                        y: (points@[(i + 1) % (points@.len() as int)].y - points@[i].y) as i64,
                    })
                    &&& bounded3(r.edges@[i].start_position(), 9 * MAX_COORD as int)
                },
    {
        let n = points.len();
        let mut edges: Vec<Edge> = Vec::new();
        let mut i: usize = 0;
        while i < n
            invariant
                0 <= i <= n,
                edges@.len() == i,
                forall|j: int|
                    0 <= j < i ==> {
                        &&& (#[trigger] edges@[j]).wf()
                        &&& edge_on_surface(edges@[j], *surface)
                        &&& edges@[j].vertices is Two
                        &&& edges@[j].curve.local.origin == points@[j]
                        &&& surface_at(*surface, points@[j], edges@[j].start_position())
                        &&& surface_at(
                            *surface,
                            points@[(j + 1) % (n as int)],
                            edges@[j].end_position(),
                        )
                        &&& edges@[j].curve.local.direction == (Vector2 {
                            x: (points@[(j + 1) % (n as int)].x - points@[j].x) as i64,
                            y: (points@[(j + 1) % (n as int)].y - points@[j].y) as i64,
                        })
                        &&& bounded3(edges@[j].start_position(), 9 * MAX_COORD as int)
                    },
            decreases n - i,
        {
            let next: usize = if i + 1 == n {
                0
            } else {
                i + 1
            };
            proof {
                if i + 1 == n {
                    vstd::arithmetic::div_mod::lemma_mod_self_0(n as int);
                } else {
                    vstd::arithmetic::div_mod::lemma_small_mod((i + 1) as nat, n as nat);
                }
                assert(next as int == (i as int + 1) % (n as int));
            }
            let e = Edge::line_segment_from_points(surface, [points[i], points[next]]);
            edges.push(e);
            i += 1;
        }
        let r = Cycle { edges };
        proof {
            assert forall|i: int| 0 <= i < n implies (#[trigger] r.edges@[i]).end_position()
                == r.edges@[(i + 1) % (n as int)].start_position() by {
                let k = (i + 1) % (n as int);
                assert(surface_at(*surface, points@[k], r.edges@[i].end_position()));
                assert(surface_at(*surface, points@[k], r.edges@[k].start_position()));
            }
        }
        r
    }
}

/// A face under construction: a surface plus the local outlines of its
/// exterior boundary and its interior (hole) boundaries.
#[derive(Clone, Debug)]
pub struct FaceBuilder {
    pub surface: Surface,
    pub exterior: Vec<Point2>,
    pub interiors: Vec<Vec<Point2>>,
    pub color: Color,
}

impl Face {
    /// Starts building a boundary-representation face on a surface.
    pub fn builder(surface: Surface) -> (r: FaceBuilder)
        ensures
            r.surface == surface,
            r.exterior@.len() == 0,
            r.interiors@.len() == 0,
    {
        FaceBuilder {
            surface,
            exterior: Vec::new(),
            interiors: Vec::new(),
            color: Color { r: 255, g: 0, b: 0, a: 255 },
        }
    }
}

impl FaceBuilder {
    /// Sets the exterior boundary polygon, in surface-local coordinates.
    pub fn with_exterior_polygon(self, points: Vec<Point2>) -> (r: FaceBuilder)
        ensures
            r.surface == self.surface,
            r.exterior == points,
            r.interiors == self.interiors,
            r.color == self.color,
    {
        FaceBuilder { exterior: points, ..self }
    }

    /// Adds one interior (hole) boundary polygon, in surface-local
    /// coordinates.
    pub fn with_interior_polygon(self, points: Vec<Point2>) -> (r: FaceBuilder)
        ensures
            r.surface == self.surface,
            r.exterior == self.exterior,
            r.interiors@ == self.interiors@.push(points),
            r.color == self.color,
    {
        let mut interiors = self.interiors;
        interiors.push(points);
        FaceBuilder { interiors, ..self }
    }

    /// Builds the face: one polygon cycle for the exterior and one per
    /// interior, all lying on the builder's surface.
    #[verifier::loop_isolation(false)]
    pub fn build(self) -> (r: Face)
        requires
            self.surface.wf(),
            bounded3(self.surface.origin, MAX_COORD as int),
            polygon_ok(self.exterior@),
            forall|i: int| 0 <= i < self.interiors@.len() ==> polygon_ok(#[trigger] self.interiors@[i]@),
        ensures
            r.wf(),
            r is BRep,
            r->BRep_0.surface == self.surface,
            r->BRep_0.color == self.color,
            r->BRep_0.exterior.edges@.len() == self.exterior@.len(),
            r->BRep_0.interiors@.len() == self.interiors@.len(),
    {
        let exterior = Cycle::polygon_from_points(&self.surface, self.exterior);
        let mut interiors: Vec<Cycle> = Vec::new();
        let mut i: usize = 0;
        while i < self.interiors.len()
            invariant
                0 <= i <= self.interiors@.len(),
                interiors@.len() == i,
                forall|j: int|
                    0 <= j < i ==> (#[trigger] interiors@[j]).wf() && interiors@[j].on_surface(
                        self.surface,
                    ),
            decreases self.interiors@.len() - i,
        {
            let pts = copy_points(&self.interiors[i]);
            let c = Cycle::polygon_from_points(&self.surface, pts);
            interiors.push(c);
            i += 1;
        }
        Face::BRep(
            BRepFace { surface: self.surface, exterior, interiors, color: self.color },
        )
    }
}

/// Duplicates a vector of surface-local points exactly.
#[verifier::loop_isolation(false)]
fn copy_points(v: &Vec<Point2>) -> (r: Vec<Point2>)
    ensures
        r@ == v@,
{
    let mut r: Vec<Point2> = Vec::new();
    let mut i: usize = 0;
    while i < v.len()
        invariant
            0 <= i <= v@.len(),
            r@.len() == i,
            forall|j: int| 0 <= j < i ==> r@[j] == v@[j],
        decreases v@.len() - i,
    {
        r.push(v[i]);
        i += 1;
    }
    proof {
        assert(r@ =~= v@);
    }
    r
}

/// A shape: the faces handed to triangulation.
#[derive(Clone, Debug)]
pub struct Shape {
    pub faces: Vec<Face>,
}

impl Shape {
    /// An empty shape.
    pub fn new() -> (r: Shape)
        ensures
            r.faces@.len() == 0,
    {
        Shape { faces: Vec::new() }
    }

    /// Adds a face to the shape.
    pub fn add_face(&mut self, face: Face)
        ensures
            final(self).faces@ == old(self).faces@.push(face),
    {
        self.faces.push(face);
    }

    /// The faces of the shape.
    pub fn faces(&self) -> (r: &Vec<Face>)
        ensures
            r == &self.faces,
    {
        &self.faces
    }
}

} // verus!
