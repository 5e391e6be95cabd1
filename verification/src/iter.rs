//! Iterating over the objects of a shape, or part of a shape.
//!
//! The traversal walks an object's reference graph, yields every distinct
//! reachable object of a requested kind exactly once (deduplicating by
//! structural equality), and includes the starting object itself when it
//! matches. The result is a pure function of the traversed object, so
//! repeated traversals of the same immutable graph agree.

use vstd::prelude::*;

use crate::objects::{cycle_eq, face_eq, face_set_eq, Curve, Cycle, Edge, Face, GlobalVertex,
    Sketch, Solid, Surface, Vertex, VerticesOfEdge};

verus! {

/// The kinds of object a traversal can collect.
#[derive(Clone, Copy, Debug, PartialEq, Eq, Structural)]
pub enum Kind {
    Curve,
    Cycle,
    Edge,
    Face,
    GlobalVertex,
    Sketch,
    Solid,
    Surface,
    Vertex,
}

/// One object yielded by a traversal: small objects by value, composite
/// objects by reference into the traversed graph.
#[derive(Clone, Copy)]
pub enum Object<'a> {
    Curve(Curve),
    Cycle(&'a Cycle),
    Edge(Edge),
    Face(&'a Face),
    GlobalVertex(GlobalVertex),
    Sketch(&'a Sketch),
    Solid(&'a Solid),
    Surface(Surface),
    Vertex(Vertex),
}

/// The mathematical value of a traversed object, with every composite held
/// by value.
pub enum ObjectView {
    Curve(Curve),
    Cycle(Cycle),
    Edge(Edge),
    Face(Face),
    GlobalVertex(GlobalVertex),
    Sketch(Sketch),
    Solid(Solid),
    Surface(Surface),
    Vertex(Vertex),
}

impl<'a> View for Object<'a> {
    type V = ObjectView;

    open spec fn view(&self) -> ObjectView {
        match *self {
            Object::Curve(c) => ObjectView::Curve(c),
            Object::Cycle(c) => ObjectView::Cycle(*c),
            Object::Edge(e) => ObjectView::Edge(e),
            Object::Face(f) => ObjectView::Face(*f),
            Object::GlobalVertex(g) => ObjectView::GlobalVertex(g),
            Object::Sketch(s) => ObjectView::Sketch(*s),
            Object::Solid(s) => ObjectView::Solid(*s),
            Object::Surface(s) => ObjectView::Surface(s),
            Object::Vertex(v) => ObjectView::Vertex(v),
        }
    }
}

/// Structural equality of traversed objects: objects of different kinds are
/// never equal; composite objects compare by structural content, solids and
/// sketches as face sets.
pub open spec fn obj_eq(a: ObjectView, b: ObjectView) -> bool {
    match (a, b) {
        (ObjectView::Curve(x), ObjectView::Curve(y)) => x == y,
        (ObjectView::Cycle(x), ObjectView::Cycle(y)) => cycle_eq(x, y),
        (ObjectView::Edge(x), ObjectView::Edge(y)) => x == y,
        (ObjectView::Face(x), ObjectView::Face(y)) => face_eq(x, y),
        (ObjectView::GlobalVertex(x), ObjectView::GlobalVertex(y)) => x == y,
        (ObjectView::Sketch(x), ObjectView::Sketch(y)) => face_set_eq(x.faces@, y.faces@),
        (ObjectView::Solid(x), ObjectView::Solid(y)) => face_set_eq(x.faces@, y.faces@),
        (ObjectView::Surface(x), ObjectView::Surface(y)) => x == y,
        (ObjectView::Vertex(x), ObjectView::Vertex(y)) => x == y,
        _ => false,
    }
}

/// Whether `s` holds an object structurally equal to `x`.
pub open spec fn obj_in(s: Seq<ObjectView>, x: ObjectView) -> bool {
    exists|i: int| 0 <= i < s.len() && obj_eq(s[i], x)
}

/// The deduplicating concatenation underlying traversal: appends each object
/// of `b`, in order, that is not already present.
pub open spec fn with_spec(a: Seq<ObjectView>, b: Seq<ObjectView>) -> Seq<ObjectView>
    decreases b.len(),
{
    if b.len() == 0 {
        a
    } else {
        let w = with_spec(a, b.drop_last());
        if obj_in(w, b.last()) {
            w
        } else {
            w.push(b.last())
        }
    }
}

/// Decides structural equality of two traversed objects.
fn obj_eq_exec<'a>(a: &Object<'a>, b: &Object<'a>) -> (r: bool)
    ensures
        r == obj_eq(a@, b@),
{
    match (a, b) {
        (Object::Curve(x), Object::Curve(y)) => *x == *y,
        (Object::Cycle(x), Object::Cycle(y)) => **x == **y,
        (Object::Edge(x), Object::Edge(y)) => *x == *y,
        (Object::Face(x), Object::Face(y)) => **x == **y,
        (Object::GlobalVertex(x), Object::GlobalVertex(y)) => *x == *y,
        (Object::Sketch(x), Object::Sketch(y)) => **x == **y,
        (Object::Solid(x), Object::Solid(y)) => **x == **y,
        (Object::Surface(x), Object::Surface(y)) => *x == *y,
        (Object::Vertex(x), Object::Vertex(y)) => *x == *y,
        _ => false,
    }
}

/// The view of a vector of traversed objects.
pub open spec fn views_of<'a>(items: Seq<Object<'a>>) -> Seq<ObjectView> {
    items.map(|i: int, o: Object<'a>| o@)
}

/// An iterator over objects collected by a traversal.
///
/// See [`ObjectIters`].
pub struct Iter<'a> {
    pub items: Vec<Object<'a>>,
    pub cursor: usize,
}

impl<'a> View for Iter<'a> {
    type V = Seq<ObjectView>;

    open spec fn view(&self) -> Seq<ObjectView> {
        views_of(self.items@).skip(self.cursor as int)
    }
}

impl<'a> Iter<'a> {
    /// The iterator over nothing.
    pub fn empty() -> (r: Iter<'a>)
        ensures
            r@ == Seq::<ObjectView>::empty(),
            r.cursor == 0,
    {
        let r = Iter { items: Vec::new(), cursor: 0 };
        proof {
            assert(r@ =~= Seq::<ObjectView>::empty());
        }
        r
    }

    /// The iterator over exactly one object.
    pub fn from_object(object: Object<'a>) -> (r: Iter<'a>)
        ensures
            r@ == seq![object@],
            r.cursor == 0,
    {
        let mut items: Vec<Object<'a>> = Vec::new();
        items.push(object);
        let r = Iter { items, cursor: 0 };
        proof {
            assert(r@ =~= seq![object@]);
        }
        r
    }

    /// Appends every object of `other` not already present, preserving
    /// discovery order.
    #[verifier::loop_isolation(false)]
    pub fn with(self, other: Iter<'a>) -> (r: Iter<'a>)
        requires
            self.cursor == 0,
            other.cursor == 0,
        ensures
            r@ == with_spec(self@, other@),
            r.cursor == 0,
    {
        let ghost s0 = self@;
        let mut items = self.items;
        let mut i: usize = 0;
        while i < other.items.len()
            invariant
                0 <= i <= other.items@.len(),
                views_of(items@) == with_spec(s0, views_of(other.items@).take(i as int)),
            decreases other.items@.len() - i,
        {
            let ghost pre = views_of(items@);
            let dup = contains_object(&items, &other.items[i]);
            if !dup {
                items.push(other.items[i]);
            }
            proof {
                let t = views_of(other.items@).take(i + 1);
                assert(t.drop_last() =~= views_of(other.items@).take(i as int));
                assert(t.last() == other.items@[i as int]@);
                if !dup {
                    assert(views_of(items@) =~= pre.push(other.items@[i as int]@));
                }
            }
            i += 1;
        }
        proof {
            assert(views_of(other.items@).take(other.items@.len() as int) =~= views_of(
                other.items@,
            ));
            assert(self@ == s0);
            assert(views_of(other.items@) =~= other@);
        }
        Iter { items, cursor: 0 }
    }

    /// How many objects the traversal found (and this iterator will yield).
    pub fn count(&self) -> (r: usize)
        requires
            self.cursor <= self.items@.len(),
        ensures
            r == self@.len(),
    {
        self.items.len() - self.cursor
    }

    /// Yields the next object, or nothing once all have been yielded.
    pub fn next(&mut self) -> (r: Option<Object<'a>>)
        requires
            old(self).cursor <= old(self).items@.len(),
        ensures
            final(self).cursor <= final(self).items@.len(),
            old(self)@.len() == 0 ==> r is None && final(self)@ == old(self)@,
            old(self)@.len() > 0 ==> {
                &&& match r {
                    Some(o) => o@ == old(self)@[0],
                    None => false,
                }
                &&& final(self)@ == old(self)@.skip(1)
            },
    {
        if self.cursor < self.items.len() {
            let o = copy_object(&self.items[self.cursor]);
            self.cursor = self.cursor + 1;
            proof {
                assert(views_of(old(self).items@)[old(self).cursor as int] == old(
                    self,
                ).items@[old(self).cursor as int]@);
                assert(old(self)@[0] == views_of(old(self).items@)[old(self).cursor as int]);
                assert(final(self)@ =~= old(self)@.skip(1));
            }
            Some(o)
        } else {
            None
        }
    }
}

/// Duplicates a yielded object; references are shared, values copied.
fn copy_object<'a>(o: &Object<'a>) -> (r: Object<'a>)
    ensures
        r@ == o@,
{
    match o {
        Object::Curve(x) => Object::Curve(*x),
        Object::Cycle(x) => Object::Cycle(*x),
        Object::Edge(x) => Object::Edge(*x),
        Object::Face(x) => Object::Face(*x),
        Object::GlobalVertex(x) => Object::GlobalVertex(*x),
        Object::Sketch(x) => Object::Sketch(*x),
        Object::Solid(x) => Object::Solid(*x),
        Object::Surface(x) => Object::Surface(*x),
        Object::Vertex(x) => Object::Vertex(*x),
    }
}

/// Decides whether `items` holds an object structurally equal to `x`.
#[verifier::loop_isolation(false)]
fn contains_object<'a>(items: &Vec<Object<'a>>, x: &Object<'a>) -> (r: bool)
    ensures
        r == obj_in(views_of(items@), x@),
{
    let mut i: usize = 0;
    while i < items.len()
        invariant
            0 <= i <= items@.len(),
            forall|j: int| 0 <= j < i ==> !obj_eq(views_of(items@)[j], x@),
        decreases items@.len() - i,
    {
        if obj_eq_exec(&items[i], x) {
            proof {
                assert(views_of(items@)[i as int] == items@[i as int]@);
            }
            return true;
        }
        i += 1;
    }
    false
}

/// The objects a curve traversal yields: the curve itself when curves are
/// requested, nothing otherwise (curves are leaves).
pub open spec fn curve_objs(c: Curve, k: Kind) -> Seq<ObjectView> {
    if k == Kind::Curve {
        seq![ObjectView::Curve(c)]
    } else {
        Seq::empty()
    }
}

/// The objects a surface traversal yields (surfaces are leaves).
pub open spec fn surface_objs(s: Surface, k: Kind) -> Seq<ObjectView> {
    if k == Kind::Surface {
        seq![ObjectView::Surface(s)]
    } else {
        Seq::empty()
    }
}

/// The objects a global-vertex traversal yields (global vertices are
/// leaves).
pub open spec fn gv_objs(g: GlobalVertex, k: Kind) -> Seq<ObjectView> {
    if k == Kind::GlobalVertex {
        seq![ObjectView::GlobalVertex(g)]
    } else {
        Seq::empty()
    }
}

/// The objects a vertex traversal yields: the vertex itself, or whatever its
/// global form yields.
pub open spec fn vertex_objs(v: Vertex, k: Kind) -> Seq<ObjectView> {
    if k == Kind::Vertex {
        seq![ObjectView::Vertex(v)]
    } else {
        with_spec(Seq::empty(), gv_objs(v.global, k))
    }
}

/// The objects an edge traversal yields: the edge itself, or the
/// deduplicated union over its references (its canonical curve, then its
/// bounding vertices).
pub open spec fn edge_objs(e: Edge, k: Kind) -> Seq<ObjectView> {
    if k == Kind::Edge {
        seq![ObjectView::Edge(e)]
    } else {
        let c = with_spec(Seq::empty(), curve_objs(e.curve.canonical, k));
        match e.vertices {
            VerticesOfEdge::Closed => c,
            VerticesOfEdge::Two { start, end } => with_spec(
                with_spec(c, vertex_objs(start, k)),
                vertex_objs(end, k),
            ),
        }
    }
}

/// Folds edge traversals over a cycle's edges, deduplicating as it goes.
pub open spec fn edges_fold(s: Seq<Edge>, k: Kind) -> Seq<ObjectView>
    decreases s.len(),
{
    if s.len() == 0 {
        Seq::empty()
    } else {
        with_spec(edges_fold(s.drop_last(), k), edge_objs(s.last(), k))
    }
}

/// The objects a cycle traversal yields: the cycle itself, or the
/// deduplicated union over its edges.
pub open spec fn cycle_objs(c: Cycle, k: Kind) -> Seq<ObjectView> {
    if k == Kind::Cycle {
        seq![ObjectView::Cycle(c)]
    } else {
        edges_fold(c.edges@, k)
    }
}

/// Folds cycle traversals over a face's cycles, starting from `acc`.
pub open spec fn cycles_fold(s: Seq<Cycle>, k: Kind, acc: Seq<ObjectView>) -> Seq<ObjectView>
    decreases s.len(),
{
    if s.len() == 0 {
        acc
    } else {
        with_spec(cycles_fold(s.drop_last(), k, acc), cycle_objs(s.last(), k))
    }
}

/// The objects a face traversal yields: the face itself; for a
/// boundary-representation face, the deduplicated union over its surface and
/// its cycles; a pre-triangulated face is a leaf.
pub open spec fn face_objs(f: Face, k: Kind) -> Seq<ObjectView> {
    if k == Kind::Face {
        seq![ObjectView::Face(f)]
    } else {
        match f {
            Face::BRep(b) => cycles_fold(
                b.interiors@,
                k,
                with_spec(
                    with_spec(Seq::empty(), surface_objs(b.surface, k)),
                    cycle_objs(b.exterior, k),
                ),
            ),
            Face::Triangles(_) => Seq::empty(),
        }
    }
}

/// Folds face traversals over the faces of a solid or sketch.
pub open spec fn faces_fold(s: Seq<Face>, k: Kind) -> Seq<ObjectView>
    decreases s.len(),
{
    if s.len() == 0 {
        Seq::empty()
    } else {
        with_spec(faces_fold(s.drop_last(), k), face_objs(s.last(), k))
    }
}

/// The objects a sketch traversal yields: the sketch itself, or the
/// deduplicated union over its faces.
pub open spec fn sketch_objs(s: Sketch, k: Kind) -> Seq<ObjectView> {
    if k == Kind::Sketch {
        seq![ObjectView::Sketch(s)]
    } else {
        faces_fold(s.faces@, k)
    }
}

/// The objects a solid traversal yields: the solid itself, or the
/// deduplicated union over its faces.
pub open spec fn solid_objs(s: Solid, k: Kind) -> Seq<ObjectView> {
    if k == Kind::Solid {
        seq![ObjectView::Solid(s)]
    } else {
        faces_fold(s.faces@, k)
    }
}

/// The objects a traversal of any object yields, by kind of the traversed
/// object.
pub open spec fn view_objs(o: ObjectView, k: Kind) -> Seq<ObjectView> {
    match o {
        ObjectView::Curve(c) => curve_objs(c, k),
        ObjectView::Cycle(c) => cycle_objs(c, k),
        ObjectView::Edge(e) => edge_objs(e, k),
        ObjectView::Face(f) => face_objs(f, k),
        ObjectView::GlobalVertex(g) => gv_objs(g, k),
        ObjectView::Sketch(s) => sketch_objs(s, k),
        ObjectView::Solid(s) => solid_objs(s, k),
        ObjectView::Surface(s) => surface_objs(s, k),
        ObjectView::Vertex(v) => vertex_objs(v, k),
    }
}

/// Traversal is idempotent: because the objects a traversal yields are a
/// function of the traversed object alone, two traversals of the same
/// immutable object yield the same objects, and in particular the same
/// count.
pub proof fn lemma_traversal_idempotent(
    r1: Seq<ObjectView>,
    r2: Seq<ObjectView>,
    o: ObjectView,
    k: Kind,
)
    requires
        r1 == view_objs(o, k),
        r2 == view_objs(o, k),
    ensures
        r1 == r2,
        r1.len() == r2.len(),
{
}

/// Collects a curve traversal.
fn curve_iter_impl<'a>(c: &Curve, k: Kind) -> (r: Iter<'a>)
    ensures
        r@ == curve_objs(*c, k),
        r.cursor == 0,
{
    if k == Kind::Curve {
        Iter::from_object(Object::Curve(*c))
    } else {
        Iter::empty()
    }
}

/// Collects a surface traversal.
fn surface_iter_impl<'a>(s: &Surface, k: Kind) -> (r: Iter<'a>)
    ensures
        r@ == surface_objs(*s, k),
        r.cursor == 0,
{
    if k == Kind::Surface {
        Iter::from_object(Object::Surface(*s))
    } else {
        Iter::empty()
    }
}

/// Collects a global-vertex traversal.
fn gv_iter_impl<'a>(g: &GlobalVertex, k: Kind) -> (r: Iter<'a>)
    ensures
        r@ == gv_objs(*g, k),
        r.cursor == 0,
{
    if k == Kind::GlobalVertex {
        Iter::from_object(Object::GlobalVertex(*g))
    } else {
        Iter::empty()
    }
}

/// Collects a vertex traversal.
fn vertex_iter_impl<'a>(v: &Vertex, k: Kind) -> (r: Iter<'a>)
    ensures
        r@ == vertex_objs(*v, k),
        r.cursor == 0,
{
    if k == Kind::Vertex {
        Iter::from_object(Object::Vertex(*v))
    } else {
        Iter::empty().with(gv_iter_impl(&v.global, k))
    }
}

/// Collects an edge traversal.
fn edge_iter_impl<'a>(e: &Edge, k: Kind) -> (r: Iter<'a>)
    ensures
        r@ == edge_objs(*e, k),
        r.cursor == 0,
{
    if k == Kind::Edge {
        Iter::from_object(Object::Edge(*e))
    } else {
        let c = Iter::empty().with(curve_iter_impl(&e.curve.canonical, k));
        match &e.vertices {
            VerticesOfEdge::Closed => c,
            VerticesOfEdge::Two { start, end } => c.with(vertex_iter_impl(start, k)).with(
                vertex_iter_impl(end, k),
            ),
        }
    }
}

/// Collects a cycle traversal.
#[verifier::loop_isolation(false)]
fn cycle_iter_impl<'a>(c: &'a Cycle, k: Kind) -> (r: Iter<'a>)
    ensures
        r@ == cycle_objs(*c, k),
        r.cursor == 0,
{
    if k == Kind::Cycle {
        Iter::from_object(Object::Cycle(c))
    } else {
        let mut acc = Iter::empty();
        let mut i: usize = 0;
        while i < c.edges.len()
            invariant
                0 <= i <= c.edges@.len(),
                acc@ == edges_fold(c.edges@.take(i as int), k),
                acc.cursor == 0,
            decreases c.edges@.len() - i,
        {
            acc = acc.with(edge_iter_impl(&c.edges[i], k));
            proof {
                let t = c.edges@.take(i + 1);
                assert(t.drop_last() =~= c.edges@.take(i as int));
                assert(t.last() == c.edges@[i as int]);
            }
            i += 1;
        }
        proof {
            assert(c.edges@.take(c.edges@.len() as int) =~= c.edges@);
        }
        acc
    }
}

/// Collects a face traversal.
#[verifier::loop_isolation(false)]
fn face_iter_impl<'a>(f: &'a Face, k: Kind) -> (r: Iter<'a>)
    ensures
        r@ == face_objs(*f, k),
        r.cursor == 0,
{
    if k == Kind::Face {
        return Iter::from_object(Object::Face(f));
    }
    match f {
        Face::BRep(b) => {
            let mut acc = Iter::empty().with(surface_iter_impl(&b.surface, k)).with(
                cycle_iter_impl(&b.exterior, k),
            );
            let ghost base = acc@;
            let mut i: usize = 0;
            while i < b.interiors.len()
                invariant
                    0 <= i <= b.interiors@.len(),
                    acc@ == cycles_fold(b.interiors@.take(i as int), k, base),
                    acc.cursor == 0,
                decreases b.interiors@.len() - i,
            {
                acc = acc.with(cycle_iter_impl(&b.interiors[i], k));
                proof {
                    let t = b.interiors@.take(i + 1);
                    assert(t.drop_last() =~= b.interiors@.take(i as int));
                    assert(t.last() == b.interiors@[i as int]);
                }
                i += 1;
            }
            proof {
                assert(b.interiors@.take(b.interiors@.len() as int) =~= b.interiors@);
            }
            acc
        },
        Face::Triangles(_) => Iter::empty(),
    }
}

/// Folds face traversals over a vector of faces.
#[verifier::loop_isolation(false)]
fn faces_iter_impl<'a>(faces: &'a Vec<Face>, k: Kind) -> (r: Iter<'a>)
    ensures
        r@ == faces_fold(faces@, k),
        r.cursor == 0,
{
    let mut acc = Iter::empty();
    let mut i: usize = 0;
    while i < faces.len()
        invariant
            0 <= i <= faces@.len(),
            acc@ == faces_fold(faces@.take(i as int), k),
            acc.cursor == 0,
        decreases faces@.len() - i,
    {
        acc = acc.with(face_iter_impl(&faces[i], k));
        proof {
            let t = faces@.take(i + 1);
            assert(t.drop_last() =~= faces@.take(i as int));
            assert(t.last() == faces@[i as int]);
        }
        i += 1;
    }
    proof {
        assert(faces@.take(faces@.len() as int) =~= faces@);
    }
    acc
}

/// Access to traversals over all objects reachable from a shape or part of
/// one.
///
/// Implemented for every object type. A traversal returns the object itself,
/// when it matches the requested kind, in addition to matching objects it
/// references, each distinct object exactly once.
pub trait ObjectIters {
    /// The object's mathematical value, as a traversal node.
    spec fn objv(&self) -> ObjectView;

    /// Iterate over all curves.
    fn curve_iter<'a>(&'a self) -> (r: Iter<'a>)
        ensures
            r.cursor == 0,
            r@ == view_objs(self.objv(), Kind::Curve),
    ;

    /// Iterate over all cycles.
    fn cycle_iter<'a>(&'a self) -> (r: Iter<'a>)
        ensures
            r.cursor == 0,
            r@ == view_objs(self.objv(), Kind::Cycle),
    ;

    /// Iterate over all edges.
    fn edge_iter<'a>(&'a self) -> (r: Iter<'a>)
        ensures
            r.cursor == 0,
            r@ == view_objs(self.objv(), Kind::Edge),
    ;

    /// Iterate over all faces.
    fn face_iter<'a>(&'a self) -> (r: Iter<'a>)
        ensures
            r.cursor == 0,
            r@ == view_objs(self.objv(), Kind::Face),
    ;

    /// Iterate over all global vertices.
    fn global_vertex_iter<'a>(&'a self) -> (r: Iter<'a>)
        ensures
            r.cursor == 0,
            r@ == view_objs(self.objv(), Kind::GlobalVertex),
    ;

    /// Iterate over all sketches.
    fn sketch_iter<'a>(&'a self) -> (r: Iter<'a>)
        ensures
            r.cursor == 0,
            r@ == view_objs(self.objv(), Kind::Sketch),
    ;

    /// Iterate over all solids.
    fn solid_iter<'a>(&'a self) -> (r: Iter<'a>)
        ensures
            r.cursor == 0,
            r@ == view_objs(self.objv(), Kind::Solid),
    ;

    /// Iterate over all surfaces.
    fn surface_iter<'a>(&'a self) -> (r: Iter<'a>)
        ensures
            r.cursor == 0,
            r@ == view_objs(self.objv(), Kind::Surface),
    ;

    /// Iterate over all vertices.
    fn vertex_iter<'a>(&'a self) -> (r: Iter<'a>)
        ensures
            r.cursor == 0,
            r@ == view_objs(self.objv(), Kind::Vertex),
    ;
}

impl ObjectIters for Curve {
    open spec fn objv(&self) -> ObjectView {
        ObjectView::Curve(*self)
    }

    fn curve_iter<'a>(&'a self) -> (r: Iter<'a>) {
        curve_iter_impl(self, Kind::Curve)
    }

    fn cycle_iter<'a>(&'a self) -> (r: Iter<'a>) {
        curve_iter_impl(self, Kind::Cycle)
    }

    fn edge_iter<'a>(&'a self) -> (r: Iter<'a>) {
        curve_iter_impl(self, Kind::Edge)
    }

    fn face_iter<'a>(&'a self) -> (r: Iter<'a>) {
        curve_iter_impl(self, Kind::Face)
    }

    fn global_vertex_iter<'a>(&'a self) -> (r: Iter<'a>) {
        curve_iter_impl(self, Kind::GlobalVertex)
    }

    fn sketch_iter<'a>(&'a self) -> (r: Iter<'a>) {
        curve_iter_impl(self, Kind::Sketch)
    }

    fn solid_iter<'a>(&'a self) -> (r: Iter<'a>) {
        curve_iter_impl(self, Kind::Solid)
    }

    fn surface_iter<'a>(&'a self) -> (r: Iter<'a>) {
        curve_iter_impl(self, Kind::Surface)
    }

    fn vertex_iter<'a>(&'a self) -> (r: Iter<'a>) {
        curve_iter_impl(self, Kind::Vertex)
    }
}

impl ObjectIters for Cycle {
    open spec fn objv(&self) -> ObjectView {
        ObjectView::Cycle(*self)
    }

    fn curve_iter<'a>(&'a self) -> (r: Iter<'a>) {
        cycle_iter_impl(self, Kind::Curve)
    }

    fn cycle_iter<'a>(&'a self) -> (r: Iter<'a>) {
        cycle_iter_impl(self, Kind::Cycle)
    }

    fn edge_iter<'a>(&'a self) -> (r: Iter<'a>) {
        cycle_iter_impl(self, Kind::Edge)
    }

    fn face_iter<'a>(&'a self) -> (r: Iter<'a>) {
        cycle_iter_impl(self, Kind::Face)
    }

    fn global_vertex_iter<'a>(&'a self) -> (r: Iter<'a>) {
        cycle_iter_impl(self, Kind::GlobalVertex)
    }

    fn sketch_iter<'a>(&'a self) -> (r: Iter<'a>) {
        cycle_iter_impl(self, Kind::Sketch)
    }

    fn solid_iter<'a>(&'a self) -> (r: Iter<'a>) {
        cycle_iter_impl(self, Kind::Solid)
    }

    fn surface_iter<'a>(&'a self) -> (r: Iter<'a>) {
        cycle_iter_impl(self, Kind::Surface)
    }

    fn vertex_iter<'a>(&'a self) -> (r: Iter<'a>) {
        cycle_iter_impl(self, Kind::Vertex)
    }
}

impl ObjectIters for Edge {
    open spec fn objv(&self) -> ObjectView {
        ObjectView::Edge(*self)
    }

    fn curve_iter<'a>(&'a self) -> (r: Iter<'a>) {
        edge_iter_impl(self, Kind::Curve)
    }

    fn cycle_iter<'a>(&'a self) -> (r: Iter<'a>) {
        edge_iter_impl(self, Kind::Cycle)
    }

    fn edge_iter<'a>(&'a self) -> (r: Iter<'a>) {
        edge_iter_impl(self, Kind::Edge)
    }

    fn face_iter<'a>(&'a self) -> (r: Iter<'a>) {
        edge_iter_impl(self, Kind::Face)
    }

    fn global_vertex_iter<'a>(&'a self) -> (r: Iter<'a>) {
        edge_iter_impl(self, Kind::GlobalVertex)
    }

    fn sketch_iter<'a>(&'a self) -> (r: Iter<'a>) {
        edge_iter_impl(self, Kind::Sketch)
    }

    fn solid_iter<'a>(&'a self) -> (r: Iter<'a>) {
        edge_iter_impl(self, Kind::Solid)
    }

    fn surface_iter<'a>(&'a self) -> (r: Iter<'a>) {
        edge_iter_impl(self, Kind::Surface)
    }

    fn vertex_iter<'a>(&'a self) -> (r: Iter<'a>) {
        edge_iter_impl(self, Kind::Vertex)
    }
}

impl ObjectIters for Face {
    open spec fn objv(&self) -> ObjectView {
        ObjectView::Face(*self)
    }

    fn curve_iter<'a>(&'a self) -> (r: Iter<'a>) {
        face_iter_impl(self, Kind::Curve)
    }

    fn cycle_iter<'a>(&'a self) -> (r: Iter<'a>) {
        face_iter_impl(self, Kind::Cycle)
    }

    fn edge_iter<'a>(&'a self) -> (r: Iter<'a>) {
        face_iter_impl(self, Kind::Edge)
    }

    fn face_iter<'a>(&'a self) -> (r: Iter<'a>) {
        face_iter_impl(self, Kind::Face)
    }

    fn global_vertex_iter<'a>(&'a self) -> (r: Iter<'a>) {
        face_iter_impl(self, Kind::GlobalVertex)
    }

    fn sketch_iter<'a>(&'a self) -> (r: Iter<'a>) {
        face_iter_impl(self, Kind::Sketch)
    }

    fn solid_iter<'a>(&'a self) -> (r: Iter<'a>) {
        face_iter_impl(self, Kind::Solid)
    }

    fn surface_iter<'a>(&'a self) -> (r: Iter<'a>) {
        face_iter_impl(self, Kind::Surface)
    }

    fn vertex_iter<'a>(&'a self) -> (r: Iter<'a>) {
        face_iter_impl(self, Kind::Vertex)
    }
}

impl ObjectIters for GlobalVertex {
    open spec fn objv(&self) -> ObjectView {
        ObjectView::GlobalVertex(*self)
    }

    fn curve_iter<'a>(&'a self) -> (r: Iter<'a>) {
        gv_iter_impl(self, Kind::Curve)
    }

    fn cycle_iter<'a>(&'a self) -> (r: Iter<'a>) {
        gv_iter_impl(self, Kind::Cycle)
    }

    fn edge_iter<'a>(&'a self) -> (r: Iter<'a>) {
        gv_iter_impl(self, Kind::Edge)
    }

    fn face_iter<'a>(&'a self) -> (r: Iter<'a>) {
        gv_iter_impl(self, Kind::Face)
    }

    fn global_vertex_iter<'a>(&'a self) -> (r: Iter<'a>) {
        gv_iter_impl(self, Kind::GlobalVertex)
    }

    fn sketch_iter<'a>(&'a self) -> (r: Iter<'a>) {
        gv_iter_impl(self, Kind::Sketch)
    }

    fn solid_iter<'a>(&'a self) -> (r: Iter<'a>) {
        gv_iter_impl(self, Kind::Solid)
    }

    fn surface_iter<'a>(&'a self) -> (r: Iter<'a>) {
        gv_iter_impl(self, Kind::Surface)
    }

    fn vertex_iter<'a>(&'a self) -> (r: Iter<'a>) {
        gv_iter_impl(self, Kind::Vertex)
    }
}

impl ObjectIters for Sketch {
    open spec fn objv(&self) -> ObjectView {
        ObjectView::Sketch(*self)
    }

    fn curve_iter<'a>(&'a self) -> (r: Iter<'a>) {
        faces_iter_impl(&self.faces, Kind::Curve)
    }

    fn cycle_iter<'a>(&'a self) -> (r: Iter<'a>) {
        faces_iter_impl(&self.faces, Kind::Cycle)
    }

    fn edge_iter<'a>(&'a self) -> (r: Iter<'a>) {
        faces_iter_impl(&self.faces, Kind::Edge)
    }

    fn face_iter<'a>(&'a self) -> (r: Iter<'a>) {
        faces_iter_impl(&self.faces, Kind::Face)
    }

    fn global_vertex_iter<'a>(&'a self) -> (r: Iter<'a>) {
        faces_iter_impl(&self.faces, Kind::GlobalVertex)
    }

    fn sketch_iter<'a>(&'a self) -> (r: Iter<'a>) {
        Iter::from_object(Object::Sketch(self))
    }

    fn solid_iter<'a>(&'a self) -> (r: Iter<'a>) {
        faces_iter_impl(&self.faces, Kind::Solid)
    }

    fn surface_iter<'a>(&'a self) -> (r: Iter<'a>) {
        faces_iter_impl(&self.faces, Kind::Surface)
    }

    fn vertex_iter<'a>(&'a self) -> (r: Iter<'a>) {
        faces_iter_impl(&self.faces, Kind::Vertex)
    }
}

impl ObjectIters for Solid {
    open spec fn objv(&self) -> ObjectView {
        ObjectView::Solid(*self)
    }

    fn curve_iter<'a>(&'a self) -> (r: Iter<'a>) {
        faces_iter_impl(&self.faces, Kind::Curve)
    }

    fn cycle_iter<'a>(&'a self) -> (r: Iter<'a>) {
        faces_iter_impl(&self.faces, Kind::Cycle)
    }

    fn edge_iter<'a>(&'a self) -> (r: Iter<'a>) {
        faces_iter_impl(&self.faces, Kind::Edge)
    }

    fn face_iter<'a>(&'a self) -> (r: Iter<'a>) {
        faces_iter_impl(&self.faces, Kind::Face)
    }

    fn global_vertex_iter<'a>(&'a self) -> (r: Iter<'a>) {
        faces_iter_impl(&self.faces, Kind::GlobalVertex)
    }

    fn sketch_iter<'a>(&'a self) -> (r: Iter<'a>) {
        faces_iter_impl(&self.faces, Kind::Sketch)
    }

    fn solid_iter<'a>(&'a self) -> (r: Iter<'a>) {
        Iter::from_object(Object::Solid(self))
    }

    fn surface_iter<'a>(&'a self) -> (r: Iter<'a>) {
        faces_iter_impl(&self.faces, Kind::Surface)
    }

    fn vertex_iter<'a>(&'a self) -> (r: Iter<'a>) {
        faces_iter_impl(&self.faces, Kind::Vertex)
    }
}

impl ObjectIters for Surface {
    open spec fn objv(&self) -> ObjectView {
        ObjectView::Surface(*self)
    }

    fn curve_iter<'a>(&'a self) -> (r: Iter<'a>) {
        surface_iter_impl(self, Kind::Curve)
    }

    fn cycle_iter<'a>(&'a self) -> (r: Iter<'a>) {
        surface_iter_impl(self, Kind::Cycle)
    }

    fn edge_iter<'a>(&'a self) -> (r: Iter<'a>) {
        surface_iter_impl(self, Kind::Edge)
    }

    fn face_iter<'a>(&'a self) -> (r: Iter<'a>) {
        surface_iter_impl(self, Kind::Face)
    }

    fn global_vertex_iter<'a>(&'a self) -> (r: Iter<'a>) {
        surface_iter_impl(self, Kind::GlobalVertex)
    }

    fn sketch_iter<'a>(&'a self) -> (r: Iter<'a>) {
        surface_iter_impl(self, Kind::Sketch)
    }

    fn solid_iter<'a>(&'a self) -> (r: Iter<'a>) {
        surface_iter_impl(self, Kind::Solid)
    }

    fn surface_iter<'a>(&'a self) -> (r: Iter<'a>) {
        surface_iter_impl(self, Kind::Surface)
    }

    fn vertex_iter<'a>(&'a self) -> (r: Iter<'a>) {
        surface_iter_impl(self, Kind::Vertex)
    }
}

impl ObjectIters for Vertex {
    open spec fn objv(&self) -> ObjectView {
        ObjectView::Vertex(*self)
    }

    fn curve_iter<'a>(&'a self) -> (r: Iter<'a>) {
        vertex_iter_impl(self, Kind::Curve)
    }

    fn cycle_iter<'a>(&'a self) -> (r: Iter<'a>) {
        vertex_iter_impl(self, Kind::Cycle)
    }

    fn edge_iter<'a>(&'a self) -> (r: Iter<'a>) {
        vertex_iter_impl(self, Kind::Edge)
    }

    fn face_iter<'a>(&'a self) -> (r: Iter<'a>) {
        vertex_iter_impl(self, Kind::Face)
    }

    fn global_vertex_iter<'a>(&'a self) -> (r: Iter<'a>) {
        vertex_iter_impl(self, Kind::GlobalVertex)
    }

    fn sketch_iter<'a>(&'a self) -> (r: Iter<'a>) {
        vertex_iter_impl(self, Kind::Sketch)
    }

    fn solid_iter<'a>(&'a self) -> (r: Iter<'a>) {
        vertex_iter_impl(self, Kind::Solid)
    }

    fn surface_iter<'a>(&'a self) -> (r: Iter<'a>) {
        vertex_iter_impl(self, Kind::Surface)
    }

    fn vertex_iter<'a>(&'a self) -> (r: Iter<'a>) {
        vertex_iter_impl(self, Kind::Vertex)
    }
}

} // verus!
