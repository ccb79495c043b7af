use recursive_geometry::configuration::Configuration;
use recursive_geometry::geometry::Vec2;
use recursive_geometry::random::ScriptedSource;
use recursive_geometry::subdivision::subdivide_until_budget;
use recursive_geometry::vertex::build_vertices;
use recursive_geometry::vertex::fade_delay;
use recursive_geometry::vertex::Vertex;

#[test]
fn vertex_constructors() {
    let p = Vec2 { x: 10, y: -20 };
    let v = Vertex::new(p, 5);
    assert_eq!(v.position, p);
    assert_eq!(v.time, 5);
    let w = Vertex::from_vector2(&p, 9);
    assert_eq!(w.position, p);
    assert_eq!(w.time, 9);
}

#[test]
fn fade_delay_exact_values() {
    // birth 0 appears at once
    assert_eq!(fade_delay(0, 10, 10000), 0);
    // birth 5 of 10: cbrt(0.5) of the fade length, in 1/1024 steps
    assert_eq!(fade_delay(5, 10, 10000), 7929);
    // birth 9 of 10
    assert_eq!(fade_delay(9, 10, 10000), 9648);
    // birth 1 of 10
    assert_eq!(fade_delay(1, 10, 10000), 4638);
}

#[test]
fn fade_delay_nondecreasing_and_bounded() {
    let mut last = 0u64;
    for birth in 0..100u64 {
        let d = fade_delay(birth, 100, 10000);
        assert!(d >= last);
        assert!(d <= 10000);
        last = d;
    }
}

#[test]
fn build_vertices_three_per_triangle() {
    let seeds = Configuration::Triangle.get_triangles();
    let mut rng = ScriptedSource::new(vec![0]);
    let (tris, _) = subdivide_until_budget(seeds, 10, &mut rng);
    let vs = build_vertices(&tris, 10000);
    assert_eq!(vs.len(), 30);
    // corners are copied in order
    for (i, t) in tris.iter().enumerate() {
        for k in 0..3 {
            assert_eq!(vs[3 * i + k].position, t.verts[k]);
        }
    }
    // all three corners of one triangle share its fade delay
    for i in 0..10 {
        assert_eq!(vs[3 * i].time, vs[3 * i + 1].time);
        assert_eq!(vs[3 * i].time, vs[3 * i + 2].time);
    }
    // the delays match the birth orders 0..10
    assert_eq!(vs[0].time, 0);
    assert_eq!(vs[3 * 5].time, 7929);
    assert_eq!(vs[3 * 9].time, 9648);
}
