use fj_kernel::builder::Shape;
use fj_kernel::iter::ObjectIters;
use fj_kernel::math::Point2;
use fj_kernel::objects::{Curve, Cycle, Edge, Face, GlobalVertex, Sketch, Surface, Vertex};
use fj_kernel::math::Point3;

#[test]
fn curve() {
    let object = Curve::x_axis();

    assert_eq!(1, object.curve_iter().count());
    assert_eq!(0, object.cycle_iter().count());
    assert_eq!(0, object.edge_iter().count());
    assert_eq!(0, object.face_iter().count());
    assert_eq!(0, object.global_vertex_iter().count());
    assert_eq!(0, object.sketch_iter().count());
    assert_eq!(0, object.solid_iter().count());
    assert_eq!(0, object.surface_iter().count());
    assert_eq!(0, object.vertex_iter().count());
}

#[test]
fn cycle() {
    let object = Cycle::polygon_from_points(
        &Surface::xy_plane(),
        vec![Point2::new(0, 0), Point2::new(1, 0), Point2::new(0, 1)],
    );

    assert_eq!(3, object.curve_iter().count());
    assert_eq!(1, object.cycle_iter().count());
    assert_eq!(3, object.edge_iter().count());
    assert_eq!(0, object.face_iter().count());
    assert_eq!(3, object.global_vertex_iter().count());
    assert_eq!(0, object.sketch_iter().count());
    assert_eq!(0, object.solid_iter().count());
    assert_eq!(0, object.surface_iter().count());
    assert_eq!(6, object.vertex_iter().count());
}

#[test]
fn edge() {
    let object = Edge::line_segment_from_points(
        &Surface::xy_plane(),
        [Point2::new(0, 0), Point2::new(1, 0)],
    );

    assert_eq!(1, object.curve_iter().count());
    assert_eq!(0, object.cycle_iter().count());
    assert_eq!(1, object.edge_iter().count());
    assert_eq!(0, object.face_iter().count());
    assert_eq!(2, object.global_vertex_iter().count());
    assert_eq!(0, object.sketch_iter().count());
    assert_eq!(0, object.solid_iter().count());
    assert_eq!(0, object.surface_iter().count());
    assert_eq!(2, object.vertex_iter().count());
}

#[test]
fn face() {
    let object = Face::builder(Surface::xy_plane())
        .with_exterior_polygon(vec![Point2::new(0, 0), Point2::new(1, 0), Point2::new(0, 1)])
        .build();

    assert_eq!(3, object.curve_iter().count());
    assert_eq!(1, object.cycle_iter().count());
    assert_eq!(3, object.edge_iter().count());
    assert_eq!(1, object.face_iter().count());
    assert_eq!(3, object.global_vertex_iter().count());
    assert_eq!(0, object.sketch_iter().count());
    assert_eq!(0, object.solid_iter().count());
    assert_eq!(1, object.surface_iter().count());
    assert_eq!(6, object.vertex_iter().count());
}

#[test]
fn global_vertex() {
    let object = GlobalVertex::from_position(Point3::new(0, 0, 0));

    assert_eq!(0, object.curve_iter().count());
    assert_eq!(0, object.cycle_iter().count());
    assert_eq!(0, object.edge_iter().count());
    assert_eq!(0, object.face_iter().count());
    assert_eq!(1, object.global_vertex_iter().count());
    assert_eq!(0, object.sketch_iter().count());
    assert_eq!(0, object.solid_iter().count());
    assert_eq!(0, object.surface_iter().count());
    assert_eq!(0, object.vertex_iter().count());
}

#[test]
fn sketch() {
    let face = Face::builder(Surface::xy_plane())
        .with_exterior_polygon(vec![Point2::new(0, 0), Point2::new(1, 0), Point2::new(0, 1)])
        .build();
    let object = Sketch::from_faces(vec![face]);

    assert_eq!(3, object.curve_iter().count());
    assert_eq!(1, object.cycle_iter().count());
    assert_eq!(3, object.edge_iter().count());
    assert_eq!(1, object.face_iter().count());
    assert_eq!(3, object.global_vertex_iter().count());
    assert_eq!(1, object.sketch_iter().count());
    assert_eq!(0, object.solid_iter().count());
    assert_eq!(1, object.surface_iter().count());
    assert_eq!(6, object.vertex_iter().count());
}

#[test]
fn surface() {
    let object = Surface::xy_plane();

    assert_eq!(0, object.curve_iter().count());
    assert_eq!(0, object.cycle_iter().count());
    assert_eq!(0, object.edge_iter().count());
    assert_eq!(0, object.face_iter().count());
    assert_eq!(0, object.global_vertex_iter().count());
    assert_eq!(0, object.sketch_iter().count());
    assert_eq!(0, object.solid_iter().count());
    assert_eq!(1, object.surface_iter().count());
    assert_eq!(0, object.vertex_iter().count());
}

#[test]
fn vertex() {
    let global_vertex = GlobalVertex::from_position(Point3::new(0, 0, 0));
    let object = Vertex::new(0, global_vertex);

    assert_eq!(0, object.curve_iter().count());
    assert_eq!(0, object.cycle_iter().count());
    assert_eq!(0, object.edge_iter().count());
    assert_eq!(0, object.face_iter().count());
    assert_eq!(1, object.global_vertex_iter().count());
    assert_eq!(0, object.sketch_iter().count());
    assert_eq!(0, object.solid_iter().count());
    assert_eq!(0, object.surface_iter().count());
    assert_eq!(1, object.vertex_iter().count());
}

#[test]
fn traversal_counts_repeat() {
    let face = Face::builder(Surface::xy_plane())
        .with_exterior_polygon(vec![Point2::new(0, 0), Point2::new(2, 0), Point2::new(0, 2)])
        .build();
    assert_eq!(face.curve_iter().count(), face.curve_iter().count());
    assert_eq!(face.vertex_iter().count(), face.vertex_iter().count());
    let mut shape = Shape::new();
    shape.add_face(face);
    assert_eq!(shape.faces().len(), 1);
}
