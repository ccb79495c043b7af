use vstd::prelude::*;

use crate::geometry::Vec2;
use crate::triangle::TriangleNode;

verus! {

/// One corner of a renderable triangle: a canvas position and the moment of
/// the fade-in (in milliseconds) at which the corner's triangle appears.
#[derive(Clone, Copy, PartialEq, Eq, Structural, Debug)]
pub struct Vertex {
    pub position: Vec2,
    pub time: u64,
}

impl Vertex {
    pub fn new(position: Vec2, time: u64) -> (r: Vertex)
        ensures
            r.position == position,
            r.time == time,
    {
        Vertex { position, time }
    }

    /// Builds a vertex from a borrowed point.
    pub fn from_vector2(v: &Vec2, time: u64) -> (r: Vertex)
        ensures
            r.position == *v,
            r.time == time,
    {
        Vertex { position: *v, time }
    }
}

/// `r` is the integer cube root of `v`.
pub open spec fn is_cube_root(r: int, v: int) -> bool {
    r * r * r <= v < (r + 1) * (r + 1) * (r + 1)
}

/// `d` is the fade-in delay of a triangle born at position `birth` out of
/// `count`: the cube root of the ratio birth/count (in 1/1024 steps),
/// scaled to the fade duration.
pub open spec fn delay_ok(d: int, birth: int, count: int, max_progress: int) -> bool {
    exists|r: int|
        #[trigger] is_cube_root(r, birth * 1073741824 / count) && d == r * max_progress / 1024
}

/// Integer cube root, found by walking up from zero.
fn icbrt(v: u64) -> (r: u64)
    requires
        v < 281474976710656,  // 65536^3
    ensures
        is_cube_root(r as int, v as int),
        r < 65536,
{
    let mut r: u64 = 0;
    loop
        invariant
            r * r * r <= v,
            r < 65536,
            v < 281474976710656,
        decreases 65536 - r,
    {
        let next = r + 1;
        proof {
            assert(next * next <= 4294967296) by (nonlinear_arith)
                requires
                    1 <= next <= 65536,
            ;
            assert(next * next * next <= 281474976710656) by (nonlinear_arith)
                requires
                    1 <= next <= 65536,
            ;
        }
        let cube = next * next * next;
        if cube <= v {
            proof {
                assert(next < 65536) by (nonlinear_arith)
                    requires
                        1 <= next,
                        next * next * next < 281474976710656,
                ;
            }
            r = next;
        } else {
            return r;
        }
    }
}

/// The fade-in delay of a triangle.  Cube-root weighting brings most
/// triangles in early, balancing the exponential growth of late birth
/// orders.
pub fn fade_delay(birth: u64, count: u64, max_progress: u64) -> (d: u64)
    requires
        1 <= count <= 100_000_000,
        birth < count,
        max_progress <= 1_000_000,
    ensures
        d <= max_progress,
        delay_ok(d as int, birth as int, count as int, max_progress as int),
{
    proof {
        assert((birth as int) * 1073741824 < (count as int) * 1073741824) by (nonlinear_arith)
            requires
                (birth as int) < (count as int),
        ;
        vstd::arithmetic::div_mod::lemma_multiply_divide_lt(
            (birth as int) * 1073741824,
            count as int,
            1073741824,
        );
    }
    let q = birth * 1073741824 / count;
    let c = icbrt(q);
    proof {
        assert(c < 1024) by (nonlinear_arith)
            requires
                0 <= c,
                (c as int) * (c as int) * (c as int) <= (q as int),
                (q as int) < 1073741824,
        ;
        assert((c as int) * (max_progress as int) <= 1024 * (max_progress as int))
            by (nonlinear_arith)
            requires
                0 <= c <= 1024,
                0 <= max_progress,
        ;
        vstd::arithmetic::div_mod::lemma_multiply_divide_le(
            (c as int) * (max_progress as int),
            1024,
            max_progress as int,
        );
    }
    let d = c * max_progress / 1024;
    proof {
        assert(is_cube_root(c as int, (birth as int) * 1073741824 / (count as int)));
        assert(d == (c as int) * (max_progress as int) / 1024);
    }
    d
}

/// Converts the triangle set into one vertex record per corner, each
/// carrying the corner's position and the triangle's fade-in delay.
pub fn build_vertices(triangles: &Vec<TriangleNode>, max_progress: u64) -> (vs: Vec<Vertex>)
    requires
        1 <= triangles@.len() <= 100_000_000,
        forall|i: int|
            0 <= i < triangles@.len()
                ==> (#[trigger] triangles@[i]).progress < triangles@.len(),
        max_progress <= 1_000_000,
    ensures
        vs@.len() == 3 * triangles@.len(),
        forall|j: int|
            0 <= j < vs@.len()
                ==> (#[trigger] vs@[j]).position == triangles@[j / 3].verts@[j % 3]
                    && delay_ok(
                    vs@[j].time as int,
                    triangles@[j / 3].progress as int,
                    triangles@.len() as int,
                    max_progress as int,
                ),
{
    let n = triangles.len();
    let mut vs: Vec<Vertex> = Vec::new();
    let mut i: usize = 0;
    while i < n
        invariant
            n == triangles@.len(),
            1 <= n <= 100_000_000,
            max_progress <= 1_000_000,
            forall|k: int|
                0 <= k < triangles@.len()
                    ==> (#[trigger] triangles@[k]).progress < triangles@.len(),
            i <= n,
            vs@.len() == 3 * i,
            forall|j: int|
                0 <= j < vs@.len()
                    ==> (#[trigger] vs@[j]).position == triangles@[j / 3].verts@[j % 3]
                        && delay_ok(
                        vs@[j].time as int,
                        triangles@[j / 3].progress as int,
                        triangles@.len() as int,
                        max_progress as int,
                    ),
        decreases n - i,
    {
        let t = triangles[i];
        let d = fade_delay(t.progress, n as u64, max_progress);
        vs.push(Vertex::new(t.verts[0], d));
        vs.push(Vertex::new(t.verts[1], d));
        vs.push(Vertex::new(t.verts[2], d));
        proof {
            let j0 = 3 * (i as int);
            vstd::arithmetic::div_mod::lemma_fundamental_div_mod_converse(j0, 3, i as int, 0);
            vstd::arithmetic::div_mod::lemma_fundamental_div_mod_converse(j0 + 1, 3, i as int, 1);
            vstd::arithmetic::div_mod::lemma_fundamental_div_mod_converse(j0 + 2, 3, i as int, 2);
        }
        i = i + 1;
    }
    vs
}

} // verus!
