use vstd::prelude::*;

use crate::geometry::Vec2;
use crate::geometry::in_canvas;
use crate::geometry::in_unit_disk;

verus! {

/// A triangle of the subdivision tree: three canvas corners and the
/// birth-order counter value assigned when the triangle was created.
#[derive(Clone, Copy, Debug)]
pub struct TriangleNode {
    pub verts: [Vec2; 3],
    pub progress: u64,
}

/// All three corners lie on the canvas.
pub open spec fn tri_in_canvas(t: TriangleNode) -> bool {
    in_canvas(t.verts@[0]) && in_canvas(t.verts@[1]) && in_canvas(t.verts@[2])
}

/// All three corners lie within distance 1.0 of the origin.
pub open spec fn tri_in_unit_disk(t: TriangleNode) -> bool {
    in_unit_disk(t.verts@[0]) && in_unit_disk(t.verts@[1]) && in_unit_disk(t.verts@[2])
}

impl TriangleNode {
    pub fn new(tri: [Vec2; 3], progress: u64) -> (r: TriangleNode)
        ensures
            r.verts == tri,
            r.progress == progress,
    {
        TriangleNode { verts: tri, progress }
    }

    /// Builds a node from a slice of corners, which must hold exactly 3
    /// points.
    pub fn from_vec(tri: &[Vec2], progress: u64) -> (r: TriangleNode)
        requires
            tri@.len() == 3,
        ensures
            r.verts@ == tri@,
            r.progress == progress,
    {
        let r = TriangleNode { verts: [tri[0], tri[1], tri[2]], progress };
        proof {
            assert(r.verts@ =~= tri@);
        }
        r
    }
}

} // verus!
