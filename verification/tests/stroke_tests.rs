use curve_stroke::curve::renderer::ConnectionRenderer;
use curve_stroke::curve::Bezier;
use curve_stroke::curve::PolyLine;
use curve_stroke::mesh::RenderData;
use curve_stroke::GeometryError;
use curve_stroke::Point2D;

fn pt(x: f64, y: f64) -> Point2D {
    Point2D { c: geo::Coord { x, y } }
}

fn scalar(v: f64) -> Point2D {
    pt(v, v)
}

fn polyline(points: &[(f64, f64)]) -> PolyLine {
    PolyLine { points: points.iter().map(|&(x, y)| pt(x, y)).collect() }
}

fn close(c: geo::Coord, x: f64, y: f64) {
    assert!((c.x - x).abs() < 1e-9 && (c.y - y).abs() < 1e-9, "got ({}, {})", c.x, c.y);
}

fn check_mesh_validity(mesh: &RenderData) {
    assert_eq!(mesh.indices.len() % 3, 0);
    for &index in &mesh.indices {
        assert!((index as usize) < mesh.vertices.len());
    }
}

#[test]
fn straight_polyline_gives_two_quads_and_no_fill() {
    let renderer = ConnectionRenderer::new();
    let line = polyline(&[(0.0, 0.0), (1.0, 0.0), (2.0, 0.0)]);
    let mesh = renderer.render(&line, scalar(0.1)).unwrap();
    check_mesh_validity(&mesh);
    // Two segment quads and nothing at the collinear joint.
    assert_eq!(mesh.vertices.len(), 8);
    assert_eq!(mesh.indices.len(), 12);
    // The offsets of a horizontal segment are exact: each point sits at
    // its centerline position, pushed straight up or down by the width.
    let expected = [
        (0.0, -0.1),
        (0.0, 0.1),
        (1.0, -0.1),
        (1.0, 0.1),
        (1.0, -0.1),
        (1.0, 0.1),
        (2.0, -0.1),
        (2.0, 0.1),
    ];
    for (vertex, &(x, y)) in mesh.vertices.iter().zip(expected.iter()) {
        assert_eq!(vertex.c, geo::Coord { x, y });
    }
    assert_eq!(mesh.indices, vec![0, 2, 3, 0, 3, 1, 4, 6, 7, 4, 7, 5]);
}

#[test]
fn right_angle_turn_snaps_one_side_and_fills_the_other() {
    let renderer = ConnectionRenderer::new();
    let line = polyline(&[(0.0, 0.0), (1.0, 0.0), (1.0, 1.0)]);
    let mesh = renderer.render(&line, scalar(0.1)).unwrap();
    check_mesh_validity(&mesh);
    // The left-hand boundaries meet in one point, the right-hand ones
    // do not: the joint snaps on the left and a single fill triangle
    // closes the right-hand wedge.
    assert_eq!(mesh.vertices.len(), 11);
    assert_eq!(mesh.indices.len(), 15);
    let v = &mesh.vertices;
    // First quad: raw start pair, raw right-hand end, snapped corner.
    close(v[0].c, 0.0, -0.1);
    close(v[1].c, 0.0, 0.1);
    close(v[2].c, 1.0, -0.1);
    close(v[3].c, 0.9, 0.1);
    // Second quad: raw right-hand start, the same snapped corner, raw end pair.
    close(v[4].c, 1.1, 0.0);
    close(v[5].c, 0.9, 0.1);
    close(v[6].c, 1.1, 1.0);
    close(v[7].c, 0.9, 1.0);
    // Fill triangle: right-hand end point, snapped corner, right-hand
    // start point.
    close(v[8].c, 1.0, -0.1);
    close(v[9].c, 0.9, 0.1);
    close(v[10].c, 1.1, 0.0);
    assert_eq!(mesh.indices, vec![0, 2, 3, 0, 3, 1, 4, 6, 7, 4, 7, 5, 8, 9, 10]);
}

#[test]
fn repeated_point_is_rejected_as_degenerate() {
    let renderer = ConnectionRenderer::new();
    let degenerate = [
        polyline(&[(0.0, 0.0), (1.0, 1.0), (1.0, 1.0), (2.0, 2.0)]),
        polyline(&[(3.0, 4.0), (3.0, 4.0)]),
    ];
    for line in degenerate {
        match renderer.render(&line, scalar(0.1)) {
            Err(e) => assert_eq!(e, GeometryError::DegenerateSegment),
            Ok(_) => panic!("a repeated point must be rejected"),
        }
    }
}

#[test]
fn short_polylines_are_rejected_as_malformed() {
    let renderer = ConnectionRenderer::new();
    for line in [PolyLine::new(), polyline(&[(1.0, 1.0)])] {
        match renderer.render(&line, scalar(0.1)) {
            Err(e) => assert_eq!(e, GeometryError::MalformedPolyline),
            Ok(_) => panic!("a polyline of fewer than two points must be rejected"),
        }
    }
}

#[test]
fn single_segment_gives_one_quad() {
    let renderer = ConnectionRenderer::new();
    let line = polyline(&[(0.0, 0.0), (0.0, 2.0)]);
    let mesh = renderer.render(&line, scalar(0.5)).unwrap();
    check_mesh_validity(&mesh);
    assert_eq!(mesh.vertices.len(), 4);
    assert_eq!(mesh.indices, vec![0, 2, 3, 0, 3, 1]);
    // A vertical segment pushes its offsets straight left and right.
    close(mesh.vertices[0].c, 0.5, 0.0);
    close(mesh.vertices[1].c, -0.5, 0.0);
    close(mesh.vertices[2].c, 0.5, 2.0);
    close(mesh.vertices[3].c, -0.5, 2.0);
}

#[test]
fn stroked_curve_produces_a_valid_mesh() {
    let bezier = Bezier::new(pt(0.0, 0.0), pt(1.0, 2.0), pt(3.0, 0.0));
    let line = bezier.subdivide(12).unwrap();
    let renderer = ConnectionRenderer::new();
    let mesh = renderer.render(&line, scalar(0.05)).unwrap();
    check_mesh_validity(&mesh);
    assert!(mesh.vertices.len() >= 4 * 11);
    assert!(mesh.vertices.len() <= 4 * 11 + 3 * 10);
    assert_eq!(mesh.indices.len(), mesh.vertices.len() + 2 * 11);
}
