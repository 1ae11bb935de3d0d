use rtrace::topology::{ElementKind, ShapeTopology, quad_split_triangle};

fn empty_shape() -> ShapeTopology {
    ShapeTopology {
        points: Vec::new(),
        lines: Vec::new(),
        triangles: Vec::new(),
        quads: Vec::new(),
        num_vertices: 0,
    }
}

#[test]
fn element_kind_precedence() {
    let mut s = empty_shape();
    assert_eq!(s.element_kind(), ElementKind::Empty);
    s.points = vec![0];
    assert_eq!(s.element_kind(), ElementKind::Points);
    s.lines = vec![(0, 1)];
    assert_eq!(s.element_kind(), ElementKind::Lines);
    s.quads = vec![(0, 1, 2, 3)];
    assert_eq!(s.element_kind(), ElementKind::Quads);
    s.triangles = vec![(0, 1, 2)];
    assert_eq!(s.element_kind(), ElementKind::Triangles);
}

#[test]
fn element_count_follows_kind() {
    let mut s = empty_shape();
    s.num_vertices = 4;
    s.quads = vec![(0, 1, 2, 3)];
    assert_eq!(s.element_count(), 1);
    s.triangles = vec![(0, 1, 2), (2, 3, 0)];
    assert_eq!(s.element_count(), 2);
}

#[test]
fn index_check_accepts_valid_shape() {
    let s = ShapeTopology {
        points: Vec::new(),
        lines: Vec::new(),
        triangles: vec![(0, 1, 2), (2, 3, 0)],
        quads: Vec::new(),
        num_vertices: 4,
    };
    assert!(s.check_indices());
}

#[test]
fn index_check_rejects_out_of_range() {
    let mut s = empty_shape();
    s.num_vertices = 3;
    s.triangles = vec![(0, 1, 3)];
    assert!(!s.check_indices());
    s.triangles.clear();
    s.quads = vec![(0, 1, 2, 5)];
    assert!(!s.check_indices());
    s.quads.clear();
    s.lines = vec![(3, 0)];
    assert!(!s.check_indices());
    s.lines.clear();
    s.points = vec![7];
    assert!(!s.check_indices());
    s.points.clear();
    assert!(s.check_indices());
}

#[test]
fn quad_split_convention() {
    let q = (10, 11, 12, 13);
    assert_eq!(quad_split_triangle(q, false), (10, 11, 13));
    assert_eq!(quad_split_triangle(q, true), (12, 13, 11));
}
