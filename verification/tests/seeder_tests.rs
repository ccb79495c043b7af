use recursive_geometry::configuration::Configuration;
use recursive_geometry::geometry::circle_point;
use recursive_geometry::geometry::midpoint;
use recursive_geometry::geometry::Vec2;
use recursive_geometry::geometry::SCALE;
use recursive_geometry::triangle::TriangleNode;

#[test]
fn triangle_yields_one() {
    let tris = Configuration::Triangle.get_triangles();
    assert_eq!(tris.len(), 1);
    assert_eq!(tris[0].progress, 0);
}

#[test]
fn ngon_yields_n() {
    for n in 3..10usize {
        let tris = Configuration::NGon(n).get_triangles();
        assert_eq!(tris.len(), n);
        for t in &tris {
            assert_eq!(t.progress, 0);
        }
    }
}

#[test]
fn square_yields_two() {
    let tris = Configuration::Square.get_triangles();
    assert_eq!(tris.len(), 2);
    assert_eq!(tris[0].progress, 0);
    assert_eq!(tris[1].progress, 0);
}

#[test]
fn triangle_and_ngon_seeds_inside_unit_disk() {
    let mut configs = vec![Configuration::Triangle];
    for n in 3..10usize {
        configs.push(Configuration::NGon(n));
    }
    for c in configs {
        for t in c.get_triangles() {
            for v in t.verts.iter() {
                assert!(v.x * v.x + v.y * v.y <= SCALE * SCALE);
            }
        }
    }
}

#[test]
fn all_seeds_inside_canvas() {
    let configs = vec![
        Configuration::Triangle,
        Configuration::NGon(5),
        Configuration::Square,
    ];
    for c in configs {
        for t in c.get_triangles() {
            for v in t.verts.iter() {
                assert!(-SCALE <= v.x && v.x <= SCALE);
                assert!(-SCALE <= v.y && v.y <= SCALE);
            }
        }
    }
}

#[test]
fn square_corners_at_padded_half_width() {
    let tris = Configuration::Square.get_triangles();
    let s = SCALE * 95 / 100;
    assert_eq!(tris[0].verts[0], Vec2 { x: -s, y: -s });
    assert_eq!(tris[0].verts[1], Vec2 { x: s, y: -s });
    assert_eq!(tris[0].verts[2], Vec2 { x: -s, y: s });
    assert_eq!(tris[1].verts[0], Vec2 { x: s, y: s });
}

#[test]
fn circle_points_on_axes() {
    // at angle zero the point sits on the positive x axis, padded to 95%
    let p0 = circle_point(0, 4);
    assert_eq!(p0, Vec2 { x: 62259, y: 0 });
    // a quarter turn later it sits on the positive y axis
    let p1 = circle_point(1, 4);
    assert_eq!(p1, Vec2 { x: 0, y: 62259 });
}

#[test]
fn circle_points_stay_in_disk() {
    for n in 1..12u64 {
        for i in 0..n {
            let p = circle_point(i, n);
            assert!(p.x * p.x + p.y * p.y <= SCALE * SCALE);
        }
    }
}

#[test]
fn midpoint_rounds_toward_zero() {
    let m = midpoint(Vec2 { x: 2, y: 4 }, Vec2 { x: 4, y: 8 });
    assert_eq!(m, Vec2 { x: 3, y: 6 });
    let n = midpoint(Vec2 { x: -3, y: -3 }, Vec2 { x: 0, y: 0 });
    assert_eq!(n, Vec2 { x: -1, y: -1 });
}

#[test]
fn triangle_node_constructors() {
    let a = Vec2 { x: 1, y: 2 };
    let b = Vec2 { x: 3, y: 4 };
    let c = Vec2 { x: 5, y: 6 };
    let t = TriangleNode::new([a, b, c], 7);
    assert_eq!(t.progress, 7);
    assert_eq!(t.verts[1], b);
    let v = vec![a, b, c];
    let u = TriangleNode::from_vec(&v, 9);
    assert_eq!(u.progress, 9);
    assert_eq!(u.verts[0], a);
    assert_eq!(u.verts[2], c);
}
