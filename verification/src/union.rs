//! Boolean union of two solids.
//!
//! For every pair of faces, one from each solid, the union intersects the
//! two faces' surfaces; if they meet in a line, it computes each face's
//! curve-parameter intersection intervals against that line, and decides
//! from the two lists' emptiness which faces to keep. The case in which the
//! curve crosses both faces requires splitting faces along the curve, which
//! this kernel does not implement: it is surfaced as an explicit error, as
//! is the coincident-surface case for distinct faces. The output face set is
//! deduplicated by structural equality; the inputs are never changed.

use vstd::prelude::*;

use crate::intersection::{face_cross_count, face_edges_bounded, surface_isect, surface_surface,
    CurveFaceIntersectionList, SurfaceIntersection};
use crate::math::{bounded3, MAX_COORD};
use crate::objects::{copy_face, face_eq, in_faces, lemma_face_eq_refl, lemma_face_eq_symm,
    lemma_face_eq_trans, lemma_in_faces_eq, lemma_in_faces_push, BRepFace, Face, Solid, Surface,
    faces_distinct};

verus! {

/// Why a union could not be completed.
#[derive(Clone, Copy, Debug, PartialEq, Eq, Structural)]
pub enum UnionError {
    /// A pair of faces is crossed by their surfaces' intersection curve on
    /// both sides; resolving it would require splitting both faces along the
    /// curve, which is not implemented.
    SymmetricCrossing,
    /// Two distinct faces lie on the same surface; intersecting coincident
    /// surfaces is an unresolved case.
    CoincidentSurfaces,
}

/// The surface of a boundary-representation face.
pub open spec fn face_surface(f: Face) -> Surface
    recommends
        f is BRep,
{
    f->BRep_0.surface
}

/// A face the union algorithm can work on: a boundary-representation face on
/// a well-formed surface, with coordinates within the kernel's
/// exact-arithmetic bounds.
#[verifier::opaque]
pub open spec fn face_ready(f: Face) -> bool {
    &&& f is BRep
    &&& face_surface(f).wf()
    &&& bounded3(face_surface(f).origin, MAX_COORD as int)
    &&& face_edges_bounded(f, 32 * MAX_COORD as int)
}

/// A solid whose every face the union algorithm can work on.
pub open spec fn union_ready(s: Solid) -> bool {
    forall|i: int| 0 <= i < s.faces@.len() ==> face_ready(#[trigger] s.faces@[i])
}

/// Whether a face pair cannot be resolved: distinct faces on coincident
/// surfaces, or a curve that crosses both faces' boundaries.
#[verifier::opaque]
pub open spec fn pair_unresolved(fa: Face, fb: Face) -> bool {
    match surface_isect(face_surface(fa), face_surface(fb)) {
        SurfaceIntersection::Parallel => false,
        SurfaceIntersection::Coincident => !face_eq(fa, fb),
        SurfaceIntersection::Curves { a_local, b_local, global: _ } => face_cross_count(
            a_local,
            fa,
        ) != 0 && face_cross_count(b_local, fb) != 0,
    }
}

/// Whether the pair `(fa, fb)` keeps `fa` in the union: the intersection
/// curve never enters `fb` (so `fa` is kept whether or not it is itself
/// crossed), or the faces are identical on a shared surface.
#[verifier::opaque]
pub open spec fn keeps_first(fa: Face, fb: Face) -> bool {
    match surface_isect(face_surface(fa), face_surface(fb)) {
        SurfaceIntersection::Parallel => false,
        SurfaceIntersection::Coincident => face_eq(fa, fb),
        SurfaceIntersection::Curves { a_local: _, b_local, global: _ } => face_cross_count(
            b_local,
            fb,
        ) == 0,
    }
}

/// Whether the pair `(fa, fb)` keeps `fb` in the union.
#[verifier::opaque]
pub open spec fn keeps_second(fa: Face, fb: Face) -> bool {
    match surface_isect(face_surface(fa), face_surface(fb)) {
        SurfaceIntersection::Parallel => false,
        SurfaceIntersection::Coincident => face_eq(fa, fb),
        SurfaceIntersection::Curves { a_local, b_local: _, global: _ } => face_cross_count(
            a_local,
            fa,
        ) == 0,
    }
}

/// Whether some face pair of the two solids is unresolved.
pub open spec fn any_unresolved(a: Seq<Face>, b: Seq<Face>) -> bool {
    exists|i: int, j: int|
        0 <= i < a.len() && 0 <= j < b.len() && pair_unresolved(#[trigger] a[i], #[trigger] b[j])
}

/// Whether face `i` of the first solid is kept by some pair.
pub open spec fn kept_first(a: Seq<Face>, b: Seq<Face>, i: int) -> bool {
    exists|j: int| 0 <= j < b.len() && keeps_first(a[i], #[trigger] b[j])
}

/// Whether face `j` of the second solid is kept by some pair.
pub open spec fn kept_second(a: Seq<Face>, b: Seq<Face>, j: int) -> bool {
    exists|i: int| 0 <= i < a.len() && keeps_second(#[trigger] a[i], b[j])
}

/// Whether `f` belongs to the union of the two face sets by the decision
/// table: some pair keeps a structurally equal face.
#[verifier::opaque]
pub open spec fn in_union(a: Seq<Face>, b: Seq<Face>, f: Face) -> bool {
    ||| exists|i: int| 0 <= i < a.len() && kept_first(a, b, i) && face_eq(#[trigger] a[i], f)
    ||| exists|j: int| 0 <= j < b.len() && kept_second(a, b, j) && face_eq(#[trigger] b[j], f)
}

/// The boundary-representation data of a face known to be one.
fn brep_of(f: &Face) -> (r: &BRepFace)
    requires
        *f is BRep,
    ensures
        *f == Face::BRep(*r),
{
    match f {
        Face::BRep(x) => x,
        Face::Triangles(_) => vstd::pervasive::unreached(),
    }
}

/// Classifies one face pair: no error, or the unresolved case it hits.
fn pair_error(fa: &Face, fb: &Face) -> (r: Option<UnionError>)
    requires
        face_ready(*fa),
        face_ready(*fb),
    ensures
        (r is Some) == pair_unresolved(*fa, *fb),
{
    proof {
        reveal(face_ready);
    }
    let ba = brep_of(fa);
    let bb = brep_of(fb);
    match surface_surface(&ba.surface, &bb.surface) {
        SurfaceIntersection::Parallel => {
            proof {
                reveal(pair_unresolved);
            }
            None
        },
        SurfaceIntersection::Coincident => {
            let same = fa == fb;
            proof {
                reveal(pair_unresolved);
            }
            if same {
                None
            } else {
                Some(UnionError::CoincidentSurfaces)
            }
        },
        SurfaceIntersection::Curves { a_local, b_local, global: _ } => {
            let ia = CurveFaceIntersectionList::compute(&a_local, fa);
            let ib = CurveFaceIntersectionList::compute(&b_local, fb);
            let crossed = !ia.is_empty() && !ib.is_empty();
            proof {
                reveal(pair_unresolved);
            }
            if crossed {
                Some(UnionError::SymmetricCrossing)
            } else {
                None
            }
        },
    }
}

/// Decides whether the pair `(fa, fb)` keeps `fa`.
fn keeps_first_exec(fa: &Face, fb: &Face) -> (r: bool)
    requires
        face_ready(*fa),
        face_ready(*fb),
    ensures
        r == keeps_first(*fa, *fb),
{
    proof {
        reveal(face_ready);
    }
    let ba = brep_of(fa);
    let bb = brep_of(fb);
    match surface_surface(&ba.surface, &bb.surface) {
        SurfaceIntersection::Parallel => {
            proof {
                reveal(keeps_first);
            }
            false
        },
        SurfaceIntersection::Coincident => {
            let same = fa == fb;
            proof {
                reveal(keeps_first);
            }
            same
        },
        SurfaceIntersection::Curves { a_local: _, b_local, global: _ } => {
            let ib = CurveFaceIntersectionList::compute(&b_local, fb);
            let e = ib.is_empty();
            proof {
                reveal(keeps_first);
            }
            e
        },
    }
}

/// Decides whether the pair `(fa, fb)` keeps `fb`.
fn keeps_second_exec(fa: &Face, fb: &Face) -> (r: bool)
    requires
        face_ready(*fa),
        face_ready(*fb),
    ensures
        r == keeps_second(*fa, *fb),
{
    proof {
        reveal(face_ready);
    }
    let ba = brep_of(fa);
    let bb = brep_of(fb);
    match surface_surface(&ba.surface, &bb.surface) {
        SurfaceIntersection::Parallel => {
            proof {
                reveal(keeps_second);
            }
            false
        },
        SurfaceIntersection::Coincident => {
            let same = fa == fb;
            proof {
                reveal(keeps_second);
            }
            same
        },
        SurfaceIntersection::Curves { a_local, b_local: _, global: _ } => {
            let ia = CurveFaceIntersectionList::compute(&a_local, fa);
            let e = ia.is_empty();
            proof {
                reveal(keeps_second);
            }
            e
        },
    }
}

/// Kept face `k` of the first side descends from kept input face
/// `og[k]`.
pub open spec fn from_first_at(a: Seq<Face>, b: Seq<Face>, og: Seq<int>, ks: Seq<Face>, k: int) -> bool {
    &&& 0 <= og[k] < a.len()
    &&& kept_first(a, b, og[k])
    &&& face_eq(a[og[k]], ks[k])
}

/// Kept face `k` of the second side descends from kept input face
/// `og[k]`.
pub open spec fn from_second_at(a: Seq<Face>, b: Seq<Face>, og: Seq<int>, ks: Seq<Face>, k: int) -> bool {
    &&& 0 <= og[k] < b.len()
    &&& kept_second(a, b, og[k])
    &&& face_eq(b[og[k]], ks[k])
}

/// Every kept face of the first side, up to origin bound `n`, descends
/// from a kept input face.
pub open spec fn from_first_upto(a: Seq<Face>, b: Seq<Face>, og: Seq<int>, ks: Seq<Face>) -> bool {
    forall|k: int| 0 <= k < ks.len() ==> #[trigger] from_first_at(a, b, og, ks, k)
}

/// Every kept face of the second side, up to origin bound `n`, descends
/// from a kept input face.
pub open spec fn from_second_upto(a: Seq<Face>, b: Seq<Face>, og: Seq<int>, ks: Seq<Face>) -> bool {
    forall|k: int| 0 <= k < ks.len() ==> #[trigger] from_second_at(a, b, og, ks, k)
}

/// Instantiates [`from_first_upto`] at one kept index.
proof fn lemma_from_first_upto_at(a: Seq<Face>, b: Seq<Face>, og: Seq<int>, ks: Seq<Face>, k: int)
    requires
        from_first_upto(a, b, og, ks),
        0 <= k < ks.len(),
    ensures
        from_first_at(a, b, og, ks, k),
{
}

/// Instantiates [`from_second_upto`] at one kept index.
proof fn lemma_from_second_upto_at(a: Seq<Face>, b: Seq<Face>, og: Seq<int>, ks: Seq<Face>, k: int)
    requires
        from_second_upto(a, b, og, ks),
        0 <= k < ks.len(),
    ensures
        from_second_at(a, b, og, ks, k),
{
}

/// The ghost origin indices of kept faces.
pub struct Origins {
    pub at: Seq<int>,
}

/// Faces kept from one side of a union, with the ghost index of the input
/// face each kept face came from.
pub struct KeptFaces {
    pub faces: Vec<Face>,
    pub origins: Ghost<Origins>,
}

/// Collects copies of the first solid's faces that some pair keeps.
#[verifier::loop_isolation(false)]
fn keep_from_first(a: &Vec<Face>, b: &Vec<Face>) -> (r: KeptFaces)
    requires
        forall|i: int| 0 <= i < a@.len() ==> face_ready(#[trigger] a@[i]),
        forall|j: int| 0 <= j < b@.len() ==> face_ready(#[trigger] b@[j]),
    ensures
        r.origins@.at.len() == r.faces@.len(),
        from_first_upto(a@, b@, r.origins@.at, r.faces@),
        forall|i: int|
            0 <= i < a@.len() && kept_first(a@, b@, i) ==> in_faces(r.faces@, #[trigger] a@[i]),
{
    let mut r: Vec<Face> = Vec::new();
    let ghost mut og: Seq<int> = Seq::empty();
    let mut i: usize = 0;
    while i < a.len()
        invariant
            0 <= i <= a@.len(),
            og.len() == r@.len(),
            from_first_upto(a@, b@, og, r@),
            forall|i2: int|
                0 <= i2 < i && kept_first(a@, b@, i2) ==> in_faces(r@, #[trigger] a@[i2]),
        decreases a@.len() - i,
    {
        let fa = &a[i];
        let ghost r_pre = r@;
        let ghost og_pre = og;
        proof {
            assert(from_first_upto(a@, b@, og_pre, r_pre));
        }
        let mut keep = false;
        let mut j: usize = 0;
        while j < b.len()
            invariant
                0 <= j <= b@.len(),
                keep == exists|j2: int| 0 <= j2 < j && keeps_first(a@[i as int], #[trigger] b@[j2]),
                og.len() == r@.len(),
                from_first_upto(a@, b@, og, r@),
            decreases b@.len() - j,
        {
            if keeps_first_exec(fa, &b[j]) {
                keep = true;
            }
            j += 1;
        }
        if keep {
            let copy = copy_face(fa);
            r.push(copy);
            proof {
                og = og.push(i as int);
            }
        }
        proof {
            if keep {
                assert(kept_first(a@, b@, i as int));
                lemma_face_eq_symm(a@[i as int], r@.last());
                assert(in_faces(r@, a@[i as int]));
            }
            assert forall|k: int|
                0 <= k < r@.len() implies #[trigger] from_first_at(a@, b@, og, r@, k) by {
                if k < r_pre.len() {
                    lemma_from_first_upto_at(a@, b@, og_pre, r_pre, k);
                    assert(og[k] == og_pre[k]);
                    assert(r@[k] == r_pre[k]);
                } else {
                    assert(keep);
                    assert(og[k] == i as int);
                    assert(r@[k] == r@.last());
                    assert(face_eq(a@[i as int], r@[k]));
                    assert(kept_first(a@, b@, og[k]));
                }
            }
            assert(from_first_upto(a@, b@, og, r@));
            assert forall|i2: int|
                0 <= i2 < i + 1 && kept_first(a@, b@, i2) implies in_faces(
                r@,
                #[trigger] a@[i2],
            ) by {
                if i2 < i {
                    assert(in_faces(r_pre, a@[i2]));
                    let k = choose|k: int| 0 <= k < r_pre.len() && face_eq(r_pre[k], a@[i2]);
                    assert(r@[k] == r_pre[k]);
                } else {
                    assert(keep);
                }
            }
        }
        i += 1;
    }
    KeptFaces { faces: r, origins: Ghost(Origins { at: og }) }
}

/// Collects copies of the second solid's faces that some pair keeps.
#[verifier::loop_isolation(false)]
fn keep_from_second(a: &Vec<Face>, b: &Vec<Face>) -> (r: KeptFaces)
    requires
        forall|i: int| 0 <= i < a@.len() ==> face_ready(#[trigger] a@[i]),
        forall|j: int| 0 <= j < b@.len() ==> face_ready(#[trigger] b@[j]),
    ensures
        r.origins@.at.len() == r.faces@.len(),
        from_second_upto(a@, b@, r.origins@.at, r.faces@),
        forall|j: int|
            0 <= j < b@.len() && kept_second(a@, b@, j) ==> in_faces(r.faces@, #[trigger] b@[j]),
{
    let mut r: Vec<Face> = Vec::new();
    let ghost mut og: Seq<int> = Seq::empty();
    let mut j: usize = 0;
    while j < b.len()
        invariant
            0 <= j <= b@.len(),
            og.len() == r@.len(),
            from_second_upto(a@, b@, og, r@),
            forall|j2: int|
                0 <= j2 < j && kept_second(a@, b@, j2) ==> in_faces(r@, #[trigger] b@[j2]),
        decreases b@.len() - j,
    {
        let fb = &b[j];
        let ghost r_pre = r@;
        let ghost og_pre = og;
        proof {
            assert(from_second_upto(a@, b@, og_pre, r_pre));
        }
        let mut keep = false;
        let mut i: usize = 0;
        while i < a.len()
            invariant
                0 <= i <= a@.len(),
                keep == exists|i2: int| 0 <= i2 < i && keeps_second(#[trigger] a@[i2], b@[j as int]),
                og.len() == r@.len(),
                from_second_upto(a@, b@, og, r@),
            decreases a@.len() - i,
        {
            if keeps_second_exec(&a[i], fb) {
                keep = true;
            }
            i += 1;
        }
        if keep {
            let copy = copy_face(fb);
            r.push(copy);
            proof {
                og = og.push(j as int);
            }
        }
        proof {
            if keep {
                assert(kept_second(a@, b@, j as int));
                lemma_face_eq_symm(b@[j as int], r@.last());
                assert(in_faces(r@, b@[j as int]));
            }
            assert forall|k: int|
                0 <= k < r@.len() implies #[trigger] from_second_at(a@, b@, og, r@, k) by {
                if k < r_pre.len() {
                    lemma_from_second_upto_at(a@, b@, og_pre, r_pre, k);
                    assert(og[k] == og_pre[k]);
                    assert(r@[k] == r_pre[k]);
                } else {
                    assert(keep);
                    assert(og[k] == j as int);
                    assert(r@[k] == r@.last());
                    assert(face_eq(b@[j as int], r@[k]));
                    assert(kept_second(a@, b@, og[k]));
                }
            }
            assert(from_second_upto(a@, b@, og, r@));
            assert forall|j2: int|
                0 <= j2 < j + 1 && kept_second(a@, b@, j2) implies in_faces(
                r@,
                #[trigger] b@[j2],
            ) by {
                if j2 < j {
                    assert(in_faces(r_pre, b@[j2]));
                    let k = choose|k: int| 0 <= k < r_pre.len() && face_eq(r_pre[k], b@[j2]);
                    assert(r@[k] == r_pre[k]);
                } else {
                    assert(keep);
                }
            }
        }
        j += 1;
    }
    KeptFaces { faces: r, origins: Ghost(Origins { at: og }) }
}

/// Concatenates two face vectors.
#[verifier::loop_isolation(false)]
fn concat_faces(a: Vec<Face>, b: Vec<Face>) -> (r: Vec<Face>)
    ensures
        r@ == a@ + b@,
{
    let ghost a0 = a@;
    let ghost b0 = b@;
    let mut r = a;
    let mut rest = b;
    while rest.len() > 0
        invariant
            rest@.len() <= b0.len(),
            r@ =~= a0 + b0.take(b0.len() - rest@.len()),
            rest@ =~= b0.skip(b0.len() - rest@.len()),
        decreases rest@.len(),
    {
        let ghost k = b0.len() - rest@.len();
        let f = rest.remove(0);
        r.push(f);
        proof {
            assert(f == b0[k]);
            assert(r@ =~= a0 + b0.take(k + 1));
            assert(rest@ =~= b0.skip(k + 1));
        }
    }
    proof {
        assert(r@ =~= a0 + b0);
    }
    r
}

/// Membership in a concatenation splits over the parts.
pub proof fn lemma_in_faces_concat(x: Seq<Face>, y: Seq<Face>)
    ensures
        forall|f: Face| in_faces(x + y, f) <==> (in_faces(x, f) || in_faces(y, f)),
{
    assert forall|f: Face| in_faces(x + y, f) <==> (in_faces(x, f) || in_faces(y, f)) by {
    if in_faces(x, f) {
        let i = choose|i: int| 0 <= i < x.len() && face_eq(x[i], f);
        assert((x + y)[i] == x[i]);
    }
    if in_faces(y, f) {
        let i = choose|i: int| 0 <= i < y.len() && face_eq(y[i], f);
        assert((x + y)[i + x.len()] == y[i]);
    }
    if in_faces(x + y, f) {
        let i = choose|i: int| 0 <= i < (x + y).len() && face_eq((x + y)[i], f);
        if i < x.len() {
            assert(x[i] == (x + y)[i]);
        } else {
            assert(y[i - x.len()] == (x + y)[i]);
        }
    }
    }
}

/// The faces kept from either side are, as a set under structural
/// equality, exactly the faces of the union's decision table: each kept
/// face descends from a kept input face (witnessed by its origin index),
/// and every kept input face appears among the kept faces.
#[verifier::spinoff_prover]
proof fn lemma_union_membership(
    a: Seq<Face>,
    b: Seq<Face>,
    ka: Seq<Face>,
    kb: Seq<Face>,
    og_a: Seq<int>,
    og_b: Seq<int>,
)
    requires
        og_a.len() == ka.len(),
        og_b.len() == kb.len(),
        from_first_upto(a, b, og_a, ka),
        from_second_upto(a, b, og_b, kb),
        forall|i: int| 0 <= i < a.len() && kept_first(a, b, i) ==> in_faces(ka, #[trigger] a[i]),
        forall|j: int| 0 <= j < b.len() && kept_second(a, b, j) ==> in_faces(kb, #[trigger] b[j]),
    ensures
        forall|f: Face| (in_faces(ka, f) || in_faces(kb, f)) <==> in_union(a, b, f),
{
    assert forall|f: Face| (in_faces(ka, f) || in_faces(kb, f)) <==> in_union(a, b, f) by {
        reveal(in_union);
        if in_faces(ka, f) {
            let k = choose|k: int| 0 <= k < ka.len() && face_eq(ka[k], f);
            lemma_from_first_upto_at(a, b, og_a, ka, k);
            lemma_face_eq_trans(a[og_a[k]], ka[k], f);
            assert(in_union(a, b, f));
        }
        if in_faces(kb, f) {
            let k = choose|k: int| 0 <= k < kb.len() && face_eq(kb[k], f);
            lemma_from_second_upto_at(a, b, og_b, kb, k);
            lemma_face_eq_trans(b[og_b[k]], kb[k], f);
            assert(in_union(a, b, f));
        }
        if in_union(a, b, f) {
            if exists|i: int|
                0 <= i < a.len() && kept_first(a, b, i) && face_eq(#[trigger] a[i], f) {
                let i = choose|i: int|
                    0 <= i < a.len() && kept_first(a, b, i) && face_eq(#[trigger] a[i], f);
                lemma_in_faces_eq(ka, a[i], f);
            } else {
                let j = choose|j: int|
                    0 <= j < b.len() && kept_second(a, b, j) && face_eq(#[trigger] b[j], f);
                lemma_in_faces_eq(kb, b[j], f);
            }
        }
    }
}

/// Builds the union solid once every pair is known to be resolved.
#[verifier::rlimit(100)]
#[verifier::spinoff_prover]
fn build_union(a: &Solid, b: &Solid) -> (result: Solid)
    requires
        union_ready(*a),
        union_ready(*b),
    ensures
        faces_distinct(result.faces@),
        forall|f: Face| in_faces(result.faces@, f) <==> in_union(a.faces@, b.faces@, f),
{
    let kept_a = keep_from_first(&a.faces, &b.faces);
    let kept_b = keep_from_second(&a.faces, &b.faces);
    let ghost og_a = kept_a.origins@.at;
    let ghost og_b = kept_b.origins@.at;
    let ka = kept_a.faces;
    let kb = kept_b.faces;
    let ghost ka_view = ka@;
    let ghost kb_view = kb@;
    proof {
        lemma_union_membership(a.faces@, b.faces@, ka@, kb@, og_a, og_b);
    }
    let all = concat_faces(ka, kb);
    let result = Solid::from_faces(all);
    proof {
        lemma_in_faces_concat(ka_view, kb_view);
        assert forall|f: Face| in_faces(result.faces@, f) <==> in_union(
            a.faces@,
            b.faces@,
            f,
        ) by {
            assert(in_faces(result.faces@, f) <==> in_faces(ka_view + kb_view, f));
            assert(in_faces(ka_view + kb_view, f) <==> (in_faces(ka_view, f) || in_faces(
                kb_view,
                f,
            )));
        }
    }
    result
}

/// Computes the solid that is the union of the two provided solids.
///
/// Faces whose surfaces do not interact along their intersection curve are
/// kept; a face crossed by the curve while the other is not loses to the
/// other. A pair in which both faces are crossed would have to be split
/// along the curve and re-stitched, which is not implemented, and a pair of
/// distinct faces on one surface is equally unresolved: both are explicit
/// errors, never silently approximated. On success the result holds exactly
/// the faces the decision table keeps, deduplicated by structural equality.
#[verifier::loop_isolation(false)]
#[verifier::rlimit(100)]
#[verifier::spinoff_prover]
pub fn union(a: &Solid, b: &Solid) -> (r: Result<Solid, UnionError>)
    requires
        union_ready(*a),
        union_ready(*b),
    ensures
        r is Ok <==> !any_unresolved(a.faces@, b.faces@),
        match r {
            Ok(s) => {
                &&& faces_distinct(s.faces@)
                &&& forall|f: Face| in_faces(s.faces@, f) <==> in_union(a.faces@, b.faces@, f)
            },
            Err(_) => true,
        },
{
    let mut i: usize = 0;
    while i < a.faces.len()
        invariant
            0 <= i <= a.faces@.len(),
            forall|i2: int, j2: int|
                0 <= i2 < i && 0 <= j2 < b.faces@.len() ==> !pair_unresolved(
                    #[trigger] a.faces@[i2],
                    #[trigger] b.faces@[j2],
                ),
        decreases a.faces@.len() - i,
    {
        let mut j: usize = 0;
        while j < b.faces.len()
            invariant
                0 <= j <= b.faces@.len(),
                forall|j2: int|
                    0 <= j2 < j ==> !pair_unresolved(a.faces@[i as int], #[trigger] b.faces@[j2]),
            decreases b.faces@.len() - j,
        {
            match pair_error(&a.faces[i], &b.faces[j]) {
                Some(e) => {
                    return Err(e);
                },
                None => {},
            }
            j += 1;
        }
        i += 1;
    }
    let result = build_union(a, b);
    proof {
        assert(!any_unresolved(a.faces@, b.faces@));
    }
    Ok(result)
}

/// A face always pairs with itself as an identical face on a coincident
/// surface: the pair is resolved and keeps the face on both sides.
pub proof fn lemma_self_pair(f: Face)
    ensures
        !pair_unresolved(f, f),
        keeps_first(f, f),
        keeps_second(f, f),
{
    reveal(pair_unresolved);
    reveal(keeps_first);
    reveal(keeps_second);
    reveal(crate::intersection::surface_isect);
    lemma_face_eq_refl(f);
}

/// A pair whose intersection curve enters neither face keeps both, and is
/// resolved.
pub proof fn lemma_noninteracting_pair(fa: Face, fb: Face)
    requires
        surface_isect(face_surface(fa), face_surface(fb)) matches SurfaceIntersection::Curves {
            a_local,
            b_local,
            global: _,
        } && face_cross_count(a_local, fa) == 0 && face_cross_count(b_local, fb) == 0,
    ensures
        !pair_unresolved(fa, fb),
        keeps_first(fa, fb),
        keeps_second(fa, fb),
{
    reveal(pair_unresolved);
    reveal(keeps_first);
    reveal(keeps_second);
}

/// A pair whose intersection curve crosses the first face but never enters
/// the second keeps only the first, and is resolved.
pub proof fn lemma_crossed_outer_pair(fa: Face, fb: Face)
    requires
        surface_isect(face_surface(fa), face_surface(fb)) matches SurfaceIntersection::Curves {
            a_local,
            b_local,
            global: _,
        } && face_cross_count(a_local, fa) != 0 && face_cross_count(b_local, fb) == 0,
    ensures
        !pair_unresolved(fa, fb),
        keeps_first(fa, fb),
        !keeps_second(fa, fb),
{
    reveal(pair_unresolved);
    reveal(keeps_first);
    reveal(keeps_second);
}

/// Union absorption: for a solid in which no face pair is unresolved (no
/// two distinct faces share a surface and no pair is crossed on both
/// sides), the union of the solid with itself holds exactly its own faces:
/// every face pairs with itself and is kept, and only the solid's own faces
/// are ever kept.
pub proof fn lemma_union_absorption(a: Solid)
    requires
        forall|i: int, j: int|
            0 <= i < a.faces@.len() && 0 <= j < a.faces@.len() ==> !pair_unresolved(
                #[trigger] a.faces@[i],
                #[trigger] a.faces@[j],
            ),
    ensures
        !any_unresolved(a.faces@, a.faces@),
        forall|f: Face| in_union(a.faces@, a.faces@, f) <==> in_faces(a.faces@, f),
{
    assert forall|f: Face| in_union(a.faces@, a.faces@, f) <==> in_faces(a.faces@, f) by {
        reveal(in_union);
        if in_faces(a.faces@, f) {
            let i = choose|i: int| 0 <= i < a.faces@.len() && face_eq(a.faces@[i], f);
            lemma_self_pair(a.faces@[i]);
            assert(kept_first(a.faces@, a.faces@, i));
        }
    }
}

/// Union of non-interacting solids: when every face pair either lies on
/// parallel distinct surfaces or is missed by the intersection curve on
/// both sides, and every face meets at least one pair that keeps it, the
/// union holds exactly the faces of both solids.
#[verifier::rlimit(100)]
#[verifier::spinoff_prover]
pub proof fn lemma_union_disjoint(a: Solid, b: Solid)
    requires
        forall|i: int, j: int|
            0 <= i < a.faces@.len() && 0 <= j < b.faces@.len() ==> !pair_unresolved(
                #[trigger] a.faces@[i],
                #[trigger] b.faces@[j],
            ),
        forall|i: int|
            0 <= i < a.faces@.len() ==> exists|j: int|
                0 <= j < b.faces@.len() && keeps_first(#[trigger] a.faces@[i], #[trigger] b.faces@[j]),
        forall|j: int|
            0 <= j < b.faces@.len() ==> exists|i: int|
                0 <= i < a.faces@.len() && keeps_second(
                    #[trigger] a.faces@[i],
                    #[trigger] b.faces@[j],
                ),
    ensures
        !any_unresolved(a.faces@, b.faces@),
        forall|f: Face|
            in_union(a.faces@, b.faces@, f) <==> (in_faces(a.faces@, f) || in_faces(b.faces@, f)),
{
    assert forall|f: Face|
        in_union(a.faces@, b.faces@, f) <==> (in_faces(a.faces@, f) || in_faces(
            b.faces@,
            f,
        )) by {
        reveal(in_union);
        if in_faces(a.faces@, f) {
            let i = choose|i: int| 0 <= i < a.faces@.len() && face_eq(a.faces@[i], f);
            assert(kept_first(a.faces@, b.faces@, i));
        }
        if in_faces(b.faces@, f) {
            let j = choose|j: int| 0 <= j < b.faces@.len() && face_eq(b.faces@[j], f);
            assert(kept_second(a.faces@, b.faces@, j));
        }
    }
}

/// Union of nested solids: when no pair keeps the inner solid's face (the
/// curve crosses the outer face and never the inner one, or the surfaces
/// are parallel), and every outer face is kept by some pair, the union
/// holds exactly the outer solid's faces.
pub proof fn lemma_union_nested(a: Solid, b: Solid)
    requires
        forall|i: int, j: int|
            0 <= i < a.faces@.len() && 0 <= j < b.faces@.len() ==> !pair_unresolved(
                #[trigger] a.faces@[i],
                #[trigger] b.faces@[j],
            ) && !keeps_second(#[trigger] a.faces@[i], #[trigger] b.faces@[j]),
        forall|i: int|
            0 <= i < a.faces@.len() ==> exists|j: int|
                0 <= j < b.faces@.len() && keeps_first(#[trigger] a.faces@[i], #[trigger] b.faces@[j]),
    ensures
        !any_unresolved(a.faces@, b.faces@),
        forall|f: Face| in_union(a.faces@, b.faces@, f) <==> in_faces(a.faces@, f),
{
    assert forall|f: Face| in_union(a.faces@, b.faces@, f) <==> in_faces(a.faces@, f) by {
        reveal(in_union);
        if in_faces(a.faces@, f) {
            let i = choose|i: int| 0 <= i < a.faces@.len() && face_eq(a.faces@[i], f);
            assert(kept_first(a.faces@, b.faces@, i));
        }
        if in_union(a.faces@, b.faces@, f) && !exists|i: int|
            0 <= i < a.faces@.len() && kept_first(a.faces@, b.faces@, i) && face_eq(
                #[trigger] a.faces@[i],
                f,
            ) {
            let j = choose|j: int|
                0 <= j < b.faces@.len() && kept_second(a.faces@, b.faces@, j) && face_eq(
                    #[trigger] b.faces@[j],
                    f,
                );
            let i = choose|i: int|
                0 <= i < a.faces@.len() && keeps_second(#[trigger] a.faces@[i], b.faces@[j]);
            assert(false);
        }
    }
}

} // verus!
