use vstd::prelude::*;

use crate::geometry::SCALE;
use crate::geometry::Vec2;
use crate::geometry::circle_point;
use crate::geometry::circle_point_x;
use crate::geometry::circle_point_y;
use crate::geometry::in_canvas;
use crate::geometry::in_unit_disk;
use crate::geometry::origin;
use crate::triangle::TriangleNode;
use crate::triangle::tri_in_canvas;
use crate::triangle::tri_in_unit_disk;

verus! {

/// The starting shape of a generation.
#[derive(Clone, Copy, PartialEq, Eq, Structural, Debug)]
pub enum Configuration {
    /// One triangle with corners at a third of a turn from each other.
    Triangle,
    /// A fan of n triangles around the center; degenerate below 3 corners.
    NGon(usize),
    /// Two triangles that split a square along one diagonal.
    Square,
}

/// An n-gon needs at least three corners; the other shapes are always fine.
pub open spec fn config_wf(c: Configuration) -> bool {
    match c {
        Configuration::NGon(n) => n >= 3,
        _ => true,
    }
}

/// How many seed triangles the shape produces.
pub open spec fn seed_count(c: Configuration) -> int {
    match c {
        Configuration::Triangle => 1,
        Configuration::NGon(n) => n as int,
        Configuration::Square => 2,
    }
}

/// `v` is point `i` of `n` points evenly spaced on the padded circle.
pub open spec fn on_circle(v: Vec2, i: int, n: int) -> bool {
    v.x == circle_point_x(i, n) && v.y == circle_point_y(i, n)
}

/// The triangle at position `j` of an n-gon fan: two neighbouring circle
/// points (the last one wraps back to the first) and the center.
pub open spec fn fan_triangle(t: TriangleNode, j: int, n: int) -> bool {
    &&& on_circle(t.verts@[0], j, n)
    &&& on_circle(t.verts@[1], if j + 1 < n { j + 1 } else { 0 }, n)
    &&& t.verts@[2].x == 0
    &&& t.verts@[2].y == 0
}

/// `s` holds exactly the seed triangles of the shape `c`: one triangle on
/// the padded circle, a fan of n triangles around the center, or the two
/// halves of the padded square.
pub open spec fn seed_shape(s: Seq<TriangleNode>, c: Configuration) -> bool {
    match c {
        Configuration::Triangle => {
            &&& s.len() == 1
            &&& on_circle(s[0].verts@[0], 0, 3)
            &&& on_circle(s[0].verts@[1], 1, 3)
            &&& on_circle(s[0].verts@[2], 2, 3)
        },
        Configuration::NGon(n) => {
            &&& s.len() == n as int
            &&& forall|j: int| 0 <= j < s.len() ==> fan_triangle(#[trigger] s[j], j, n as int)
        },
        Configuration::Square => {
            let w = SCALE * 95 / 100;
            &&& s.len() == 2
            &&& s[0].verts@[0] == (Vec2 { x: (-w) as i64, y: (-w) as i64 })
            &&& s[0].verts@[1] == (Vec2 { x: w as i64, y: (-w) as i64 })
            &&& s[0].verts@[2] == (Vec2 { x: (-w) as i64, y: w as i64 })
            &&& s[1].verts@[0] == (Vec2 { x: w as i64, y: w as i64 })
            &&& s[1].verts@[1] == (Vec2 { x: (-w) as i64, y: w as i64 })
            &&& s[1].verts@[2] == (Vec2 { x: w as i64, y: (-w) as i64 })
        },
    }
}

impl Configuration {
    /// The seed triangles covering the padded canvas: one triangle, a fan
    /// of n triangles, or two halves of a square, all with birth order 0.
    pub fn get_triangles(self) -> (r: Vec<TriangleNode>)
        requires
            config_wf(self),
        ensures
            r@.len() == seed_count(self),
            forall|j: int| 0 <= j < r@.len() ==> (#[trigger] r@[j]).progress == 0,
            forall|j: int| 0 <= j < r@.len() ==> tri_in_canvas(#[trigger] r@[j]),
            !(self is Square) ==> forall|j: int|
                0 <= j < r@.len() ==> tri_in_unit_disk(#[trigger] r@[j]),
            seed_shape(r@, self),
    {
        match self {
            Configuration::Triangle => {
                let p0 = circle_point(0, 3);
                let p1 = circle_point(1, 3);
                let p2 = circle_point(2, 3);
                let mut r: Vec<TriangleNode> = Vec::new();
                r.push(TriangleNode::new([p0, p1, p2], 0));
                r
            },
            Configuration::NGon(n) => {
                let mut pts: Vec<Vec2> = Vec::new();
                let mut i: usize = 0;
                while i < n
                    invariant
                        i <= n,
                        pts@.len() == i,
                        forall|j: int| 0 <= j < pts@.len() ==> in_canvas(#[trigger] pts@[j]),
                        forall|j: int| 0 <= j < pts@.len() ==> in_unit_disk(#[trigger] pts@[j]),
                        forall|j: int|
                            0 <= j < pts@.len() ==> on_circle(#[trigger] pts@[j], j, n as int),
                    decreases n - i,
                {
                    pts.push(circle_point(i as u64, n as u64));
                    i = i + 1;
                }
                let center = origin();
                let mut r: Vec<TriangleNode> = Vec::new();
                let mut i: usize = 0;
                while i < n
                    invariant
                        i <= n,
                        n >= 3,
                        pts@.len() == n,
                        r@.len() == i,
                        forall|j: int| 0 <= j < pts@.len() ==> in_canvas(#[trigger] pts@[j]),
                        forall|j: int| 0 <= j < pts@.len() ==> in_unit_disk(#[trigger] pts@[j]),
                        forall|j: int|
                            0 <= j < pts@.len() ==> on_circle(#[trigger] pts@[j], j, n as int),
                        in_canvas(center),
                        in_unit_disk(center),
                        center.x == 0,
                        center.y == 0,
                        forall|j: int| 0 <= j < r@.len() ==> (#[trigger] r@[j]).progress == 0,
                        forall|j: int| 0 <= j < r@.len() ==> tri_in_canvas(#[trigger] r@[j]),
                        forall|j: int| 0 <= j < r@.len() ==> tri_in_unit_disk(#[trigger] r@[j]),
                        forall|j: int|
                            0 <= j < r@.len() ==> fan_triangle(#[trigger] r@[j], j, n as int),
                    decreases n - i,
                {
                    let next = if i + 1 < n {
                        i + 1
                    } else {
                        0
                    };
                    r.push(TriangleNode::new([pts[i], pts[next], center], 0));
                    i = i + 1;
                }
                r
            },
            Configuration::Square => {
                let s: i64 = SCALE * 95 / 100;
                let a = TriangleNode::new(
                    [Vec2 { x: -s, y: -s }, Vec2 { x: s, y: -s }, Vec2 { x: -s, y: s }],
                    0,
                );
                let b = TriangleNode::new(
                    [Vec2 { x: s, y: s }, Vec2 { x: -s, y: s }, Vec2 { x: s, y: -s }],
                    0,
                );
                let mut r: Vec<TriangleNode> = Vec::new();
                r.push(a);
                r.push(b);
                r
            },
        }
    }
}

} // verus!
