//! A boundary-representation (B-rep) modeling kernel over exact integer
//! coordinates.
//!
//! Solids are graphs of surfaces, curves, vertices, edges, cycles and faces.
//! The kernel derives triangle meshes from faces (Delaunay triangulation of a
//! boundary approximation, filtered by polygon containment) and combines two
//! solids with a partial boolean union built on curve-face intersection
//! intervals.
//!
//! All geometry lives on an integer grid: every predicate (orientation,
//! in-circle, point-in-polygon, interval order) is computed exactly, so the
//! contracts in this crate speak about the actual geometry, not about a
//! floating-point approximation of it. The model is deliberately narrower
//! than a floating-point kernel: surfaces are planes whose two parameter
//! directions are unit axis vectors (so every local<->global conversion is
//! exact), and curves are lines; curved geometry enters only through
//! pre-triangulated faces.

pub mod bounding;
pub mod builder;
pub mod intersection;
pub mod iter;
pub mod math;
pub mod objects;
pub mod union;

use vstd::prelude::*;

verus! {

} // verus!
