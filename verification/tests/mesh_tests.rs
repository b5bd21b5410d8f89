use curve_stroke::mesh::RenderData;
use curve_stroke::Point2D;

fn pt(x: f64, y: f64) -> Point2D {
    Point2D { c: geo::Coord { x, y } }
}

fn triangle(ox: f64) -> RenderData {
    RenderData {
        vertices: vec![pt(ox, 0.0), pt(ox + 1.0, 0.0), pt(ox, 1.0)],
        indices: vec![0, 1, 2],
    }
}

fn positions(mesh: &RenderData) -> Vec<geo::Coord> {
    mesh.vertices.iter().map(|p| p.c).collect()
}

#[test]
fn merge_concatenates_vertices_and_rebases_indices() {
    let a = RenderData {
        vertices: vec![pt(0.0, 0.0), pt(1.0, 0.0), pt(0.0, 1.0)],
        indices: vec![0, 1, 2],
    };
    let b = RenderData {
        vertices: vec![pt(5.0, 5.0), pt(6.0, 5.0), pt(5.0, 6.0)],
        indices: vec![2, 1, 0],
    };
    let m = a.merge(b);
    assert_eq!(m.vertices.len(), 6);
    assert_eq!(m.vertices[3].c, geo::Coord { x: 5.0, y: 5.0 });
    assert_eq!(m.indices, vec![0, 1, 2, 5, 4, 3]);
}

#[test]
fn merge_with_empty_is_identity() {
    let a = triangle(0.0);
    let merged = triangle(0.0).merge(RenderData::new());
    assert_eq!(positions(&merged), positions(&a));
    assert_eq!(merged.indices, a.indices);

    let merged = RenderData::new().merge(triangle(0.0));
    assert_eq!(positions(&merged), positions(&a));
    assert_eq!(merged.indices, a.indices);
}

#[test]
fn merge_is_associative() {
    let left = triangle(0.0).merge(triangle(10.0)).merge(triangle(20.0));
    let right = triangle(0.0).merge(triangle(10.0).merge(triangle(20.0)));
    assert_eq!(positions(&left), positions(&right));
    assert_eq!(left.indices, right.indices);
    assert_eq!(left.indices, vec![0, 1, 2, 3, 4, 5, 6, 7, 8]);
}
