use curve_stroke::curve::Bezier;
use curve_stroke::GeometryError;
use curve_stroke::Point2D;

fn pt(x: f64, y: f64) -> Point2D {
    Point2D { c: geo::Coord { x, y } }
}

#[test]
fn subdivide_two_returns_exactly_the_endpoints() {
    let bezier = Bezier::new(pt(-0.5, 0.25), pt(0.0, 1.0), pt(0.5, -0.25));
    let line = bezier.subdivide(2).unwrap();
    assert_eq!(line.points.len(), 2);
    assert_eq!(line.points[0].c, geo::Coord { x: -0.5, y: 0.25 });
    assert_eq!(line.points[1].c, geo::Coord { x: 0.5, y: -0.25 });
}

#[test]
fn subdivide_keeps_the_endpoints_exactly() {
    let bezier = Bezier::new(pt(3.0, -7.0), pt(100.0, 55.5), pt(-2.25, 9.0));
    let line = bezier.subdivide(17).unwrap();
    assert_eq!(line.points.len(), 17);
    assert_eq!(line.points[0].c, geo::Coord { x: 3.0, y: -7.0 });
    assert_eq!(line.points[16].c, geo::Coord { x: -2.25, y: 9.0 });
}

#[test]
fn subdivide_midpoint_of_symmetric_curve() {
    // De Casteljau at t = 1/2 uses only halving, which is exact in
    // binary floating point: the middle sample of this curve is the
    // curve point ((0+2*1+2)/4, (0+2*1+0)/4) = (1, 0.5).
    let bezier = Bezier::new(pt(0.0, 0.0), pt(1.0, 1.0), pt(2.0, 0.0));
    let line = bezier.subdivide(3).unwrap();
    assert_eq!(line.points.len(), 3);
    assert_eq!(line.points[1].c, geo::Coord { x: 1.0, y: 0.5 });
}

#[test]
fn subdivide_rejects_counts_below_two() {
    let bezier = Bezier::new(pt(0.0, 0.0), pt(1.0, 1.0), pt(2.0, 0.0));
    for count in [0, 1] {
        match bezier.subdivide(count) {
            Err(e) => assert_eq!(e, GeometryError::InvalidSampleCount),
            Ok(_) => panic!("a sample count of {} must be rejected", count),
        }
    }
}

#[test]
fn subdivide_samples_lie_in_order_on_a_monotone_curve() {
    // All three control points rise in x, so the samples must rise in x
    // as the parameter rises.
    let bezier = Bezier::new(pt(0.0, 0.0), pt(1.0, 3.0), pt(2.0, 0.0));
    let line = bezier.subdivide(9).unwrap();
    for w in line.points.windows(2) {
        assert!(w[0].c.x < w[1].c.x);
    }
}
