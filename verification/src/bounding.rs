//! Axis-aligned bounding volumes.

use vstd::prelude::*;

use crate::math::Point3;

verus! {

/// An axis-aligned bounding box.
pub struct Aabb {
    /// Minimum point of the axis-aligned bounding box.
    pub min: Point3,
    /// Maximum point of the axis-aligned bounding box.
    pub max: Point3,
}

/// Whether `p` lies inside the box, componentwise.
pub open spec fn aabb_contains(bb: Aabb, p: Point3) -> bool {
    &&& bb.min.x <= p.x <= bb.max.x
    &&& bb.min.y <= p.y <= bb.max.y
    &&& bb.min.z <= p.z <= bb.max.z
}

/// The smaller of two coordinates.
pub open spec fn coord_min(a: int, b: int) -> int {
    if a <= b {
        a
    } else {
        b
    }
}

/// The larger of two coordinates.
pub open spec fn coord_max(a: int, b: int) -> int {
    if a >= b {
        a
    } else {
        b
    }
}

/// Compute the bounding volume of a shape.
pub trait BoundingVolume {
    /// The points the box must enclose.
    spec fn bounded_points(&self) -> Seq<Point3>;

    /// The box the implementation promises to return.
    spec fn aabb_spec(&self) -> Aabb;

    /// Compute the [`Aabb`] of a shape: exactly the promised box, and it
    /// encloses every bounded point.
    fn aabb(&self) -> (r: Aabb)
        ensures
            r == self.aabb_spec(),
            forall|i: int|
                0 <= i < self.bounded_points().len() ==> aabb_contains(
                    r,
                    #[trigger] self.bounded_points()[i],
                ),
    ;
}

/// An axis-aligned cube spanning `[0, size]` on every axis.
pub struct Cube {
    pub size: i64,
}

/// The corner vertices of a cube of the given size.
pub open spec fn cube_corners(size: i64) -> Seq<Point3> {
    seq![
        Point3 { x: 0, y: 0, z: 0 },
        Point3 { x: size, y: 0, z: 0 },
        Point3 { x: 0, y: size, z: 0 },
        Point3 { x: size, y: size, z: 0 },
        Point3 { x: 0, y: 0, z: size },
        Point3 { x: size, y: 0, z: size },
        Point3 { x: 0, y: size, z: size },
        Point3 { x: size, y: size, z: size },
    ]
}

impl Cube {
    /// The eight corner vertices of the cube.
    pub fn vertices(&self) -> (r: Vec<Point3>)
        ensures
            r@ == cube_corners(self.size),
    {
        let s = self.size;
        let mut r: Vec<Point3> = Vec::new();
        r.push(Point3 { x: 0, y: 0, z: 0 });
        r.push(Point3 { x: s, y: 0, z: 0 });
        r.push(Point3 { x: 0, y: s, z: 0 });
        r.push(Point3 { x: s, y: s, z: 0 });
        r.push(Point3 { x: 0, y: 0, z: s });
        r.push(Point3 { x: s, y: 0, z: s });
        r.push(Point3 { x: 0, y: s, z: s });
        r.push(Point3 { x: s, y: s, z: s });
        proof {
            assert(r@ =~= cube_corners(s));
        }
        r
    }
}

impl BoundingVolume for Cube {
    open spec fn bounded_points(&self) -> Seq<Point3> {
        cube_corners(self.size)
    }

    open spec fn aabb_spec(&self) -> Aabb {
        Aabb {
            min: Point3 {
                x: coord_min(0, self.size as int) as i64,
                y: coord_min(0, self.size as int) as i64,
                z: coord_min(0, self.size as int) as i64,
            },
            max: Point3 {
                x: coord_max(0, self.size as int) as i64,
                y: coord_max(0, self.size as int) as i64,
                z: coord_max(0, self.size as int) as i64,
            },
        }
    }

    /// The box of a cube: seeded from one vertex, then widened over the
    /// rest, so the result bounds every vertex tightly.
    #[verifier::loop_isolation(false)]
    fn aabb(&self) -> (r: Aabb) {
        let vertices = self.vertices();
        let first = vertices[0];
        let mut min_x = first.x;
        let mut max_x = first.x;
        let mut min_y = first.y;
        let mut max_y = first.y;
        let mut min_z = first.z;
        let mut max_z = first.z;
        let mut i: usize = 1;
        while i < vertices.len()
            invariant
                1 <= i <= vertices@.len(),
                forall|j: int|
                    0 <= j < i ==> {
                        &&& min_x <= (#[trigger] vertices@[j]).x <= max_x
                        &&& min_y <= vertices@[j].y <= max_y
                        &&& min_z <= vertices@[j].z <= max_z
                    },
                min_x == coord_min(0, self.size as int) || i == 1,
                exists|j: int| 0 <= j < i && (#[trigger] vertices@[j]).x == min_x,
                exists|j: int| 0 <= j < i && (#[trigger] vertices@[j]).x == max_x,
                exists|j: int| 0 <= j < i && (#[trigger] vertices@[j]).y == min_y,
                exists|j: int| 0 <= j < i && (#[trigger] vertices@[j]).y == max_y,
                exists|j: int| 0 <= j < i && (#[trigger] vertices@[j]).z == min_z,
                exists|j: int| 0 <= j < i && (#[trigger] vertices@[j]).z == max_z,
            decreases vertices@.len() - i,
        {
            let v = vertices[i];
            if v.x < min_x {
                min_x = v.x;
            }
            if v.x > max_x {
                max_x = v.x;
            }
            if v.y < min_y {
                min_y = v.y;
            }
            if v.y > max_y {
                max_y = v.y;
            }
            if v.z < min_z {
                min_z = v.z;
            }
            if v.z > max_z {
                max_z = v.z;
            }
            i += 1;
        }
        Aabb {
            min: Point3 { x: min_x, y: min_y, z: min_z },
            max: Point3 { x: max_x, y: max_y, z: max_z },
        }
    }
}

/// The difference of two shapes: what is left of `a` after removing `b`.
pub struct Difference<A, B> {
    pub a: A,
    pub b: B,
}

impl<A: BoundingVolume, B> BoundingVolume for Difference<A, B> {
    /// Since `b` is subtracted from `a`, the difference's points are among
    /// `a`'s points.
    open spec fn bounded_points(&self) -> Seq<Point3> {
        self.a.bounded_points()
    }

    /// The box of the difference delegates to `a`'s box: not tight, but
    /// always sound, since the difference is a subset of `a`.
    open spec fn aabb_spec(&self) -> Aabb {
        self.a.aabb_spec()
    }

    fn aabb(&self) -> (r: Aabb) {
        self.a.aabb()
    }
}

} // verus!
