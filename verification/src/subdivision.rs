use vstd::prelude::*;

use crate::geometry::mid_of;
use crate::geometry::midpoint;
use crate::random::RandomSource;
use crate::triangle::TriangleNode;
use crate::triangle::tri_in_canvas;

verus! {

/// Probability of each child emission, as a threshold on a uniform 32-bit
/// value: CHANCE_THRESHOLD / 2^32 is 0.1 (rounded down).
pub const CHANCE_THRESHOLD: u32 = 429496729;

/// Safety cap on the number of subdivision passes.  The stochastic growth
/// loop has no hard bound of its own: a run of unlucky passes adds nothing,
/// so without a cap termination could not be promised.
pub const MAX_PASSES: u64 = 10000;

/// All triangles of the set lie on the canvas.
pub open spec fn set_in_canvas(s: Seq<TriangleNode>) -> bool {
    forall|j: int| 0 <= j < s.len() ==> tri_in_canvas(#[trigger] s[j])
}

/// Every triangle past the seed prefix carries the birth-order value that
/// its position dictates: consecutive counter values starting at 1.
pub open spec fn births_consecutive(s: Seq<TriangleNode>, seeds: int) -> bool {
    forall|j: int| seeds <= j < s.len() ==> (#[trigger] s[j]).progress == j - seeds + 1
}

/// `c` has the corners of one of the four children a pass can cut from the
/// parent `t`: the middle triangle of the three edge midpoints, or one of
/// the three corner triangles.
pub open spec fn is_child_of(c: TriangleNode, t: TriangleNode) -> bool {
    let p1 = t.verts@[0];
    let p2 = t.verts@[1];
    let p3 = t.verts@[2];
    let l1 = mid_of(p1, p2);
    let l2 = mid_of(p2, p3);
    let l3 = mid_of(p3, p1);
    ||| (c.verts@[0] == l1 && c.verts@[1] == l2 && c.verts@[2] == l3)
    ||| (c.verts@[0] == p1 && c.verts@[1] == l1 && c.verts@[2] == l3)
    ||| (c.verts@[0] == p2 && c.verts@[1] == l2 && c.verts@[2] == l1)
    ||| (c.verts@[0] == p3 && c.verts@[1] == l3 && c.verts@[2] == l2)
}

/// `c` is one of the four children of some parent among `parents`.
pub open spec fn has_parent_in(c: TriangleNode, parents: Seq<TriangleNode>) -> bool {
    exists|p: int| 0 <= p < parents.len() && is_child_of(c, #[trigger] parents[p])
}

/// Every triangle of `s` at position `from` or later is one of the four
/// children of some parent among `parents`.
pub open spec fn children_of(s: Seq<TriangleNode>, parents: Seq<TriangleNode>, from: int) -> bool {
    forall|j: int| from <= j < s.len() ==> has_parent_in(#[trigger] s[j], parents)
}

/// Every triangle of `s` past position `from` descends from a triangle that
/// stands before it: it is one of the four children of an earlier entry.
pub open spec fn fractal_ordered(s: Seq<TriangleNode>, from: int) -> bool {
    forall|j: int| from <= j < s.len() ==> has_parent_in(#[trigger] s[j], s.subrange(0, j))
}

proof fn lemma_parent_in_extended(c: TriangleNode, s1: Seq<TriangleNode>, s2: Seq<TriangleNode>)
    requires
        has_parent_in(c, s1),
        s1.len() <= s2.len(),
        forall|p: int| 0 <= p < s1.len() ==> #[trigger] s2[p] == s1[p],
    ensures
        has_parent_in(c, s2),
{
    let p = choose|p: int| 0 <= p < s1.len() && is_child_of(c, #[trigger] s1[p]);
    assert(is_child_of(c, s2[p]));
}

/// Law: when the birth orders past the seed prefix are the consecutive
/// counter values, they strictly increase with position, so every
/// subdivided triangle's birth order is unique in emission order.
pub proof fn lemma_births_strictly_increasing(s: Seq<TriangleNode>, seeds: int)
    requires
        0 <= seeds,
        births_consecutive(s, seeds),
    ensures
        forall|i: int, j: int|
            seeds <= i < j < s.len() ==> (#[trigger] s[i]).progress < (#[trigger] s[j]).progress,
{
}

/// One subdivision pass.  Every existing triangle independently emits up to
/// four children (the middle triangle and the three corner triangles), each
/// with probability 0.1; children are appended behind their parents and
/// numbered by the shared birth-order counter.  When the budget is reached
/// the set is truncated to exactly `max_triangles` and the pass reports that
/// subdivision is over.
pub fn subdivide<R: RandomSource>(
    tris: &mut Vec<TriangleNode>,
    max_triangles: usize,
    counter: &mut u64,
    rng: &mut R,
) -> (more: bool)
    requires
        old(tris)@.len() < max_triangles,
        set_in_canvas(old(tris)@),
        *old(counter) + 4 * old(tris)@.len() <= u64::MAX,
    ensures
        final(tris)@.len() >= old(tris)@.len(),
        final(tris)@.len() <= max_triangles,
        final(tris)@.subrange(0, old(tris)@.len() as int) == old(tris)@,
        set_in_canvas(final(tris)@),
        forall|j: int|
            old(tris)@.len() <= j < final(tris)@.len()
                ==> (#[trigger] final(tris)@[j]).progress
                    == *old(counter) + (j - old(tris)@.len()) + 1,
        children_of(final(tris)@, old(tris)@, old(tris)@.len() as int),
        *final(counter) >= *old(counter) + (final(tris)@.len() - old(tris)@.len()),
        *final(counter) <= *old(counter) + 4 * old(tris)@.len(),
        more ==> *final(counter) == *old(counter) + (final(tris)@.len() - old(tris)@.len()),
        more <==> final(tris)@.len() < max_triangles,
{
    let ghost c0 = *counter;
    let ghost s0 = tris@;
    let mut new_tris: Vec<TriangleNode> = Vec::new();
    let n = tris.len();
    let mut i: usize = 0;
    while i < n
        invariant
            tris@ == s0,
            n == s0.len(),
            i <= n,
            set_in_canvas(s0),
            new_tris@.len() <= 4 * i,
            *counter == c0 + new_tris@.len(),
            c0 + 4 * n <= u64::MAX,
            forall|j: int|
                0 <= j < new_tris@.len() ==> (#[trigger] new_tris@[j]).progress == c0 + j + 1,
            forall|j: int| 0 <= j < new_tris@.len() ==> tri_in_canvas(#[trigger] new_tris@[j]),
            children_of(new_tris@, s0, 0),
        decreases n - i,
    {
        let t = tris[i];
        let p1 = t.verts[0];
        let p2 = t.verts[1];
        let p3 = t.verts[2];
        proof {
            assert(tri_in_canvas(s0[i as int]));
        }
        let l1 = midpoint(p1, p2);
        let l2 = midpoint(p2, p3);
        let l3 = midpoint(p3, p1);
        if rng.next_unit() < CHANCE_THRESHOLD {
            *counter = *counter + 1;
            new_tris.push(TriangleNode::new([l1, l2, l3], *counter));
            proof {
                assert(is_child_of(new_tris@[new_tris@.len() - 1], s0[i as int]));
                assert(has_parent_in(new_tris@[new_tris@.len() - 1], s0));
            }
        }
        if rng.next_unit() < CHANCE_THRESHOLD {
            *counter = *counter + 1;
            new_tris.push(TriangleNode::new([p1, l1, l3], *counter));
            proof {
                assert(is_child_of(new_tris@[new_tris@.len() - 1], s0[i as int]));
                assert(has_parent_in(new_tris@[new_tris@.len() - 1], s0));
            }
        }
        if rng.next_unit() < CHANCE_THRESHOLD {
            *counter = *counter + 1;
            new_tris.push(TriangleNode::new([p2, l2, l1], *counter));
            proof {
                assert(is_child_of(new_tris@[new_tris@.len() - 1], s0[i as int]));
                assert(has_parent_in(new_tris@[new_tris@.len() - 1], s0));
            }
        }
        if rng.next_unit() < CHANCE_THRESHOLD {
            *counter = *counter + 1;
            new_tris.push(TriangleNode::new([p3, l3, l2], *counter));
            proof {
                assert(is_child_of(new_tris@[new_tris@.len() - 1], s0[i as int]));
                assert(has_parent_in(new_tris@[new_tris@.len() - 1], s0));
            }
        }
        i = i + 1;
    }
    let ghost nt = new_tris@;
    tris.append(&mut new_tris);
    if tris.len() >= max_triangles {
        tris.truncate(max_triangles);
        proof {
            assert(tris@.subrange(0, s0.len() as int) =~= s0);
            assert forall|j: int| s0.len() <= j < tris@.len() implies has_parent_in(
                #[trigger] tris@[j],
                s0,
            ) by {
                assert(tris@[j] == nt[j - s0.len()]);
                assert(has_parent_in(nt[j - s0.len()], s0));
            }
        }
        false
    } else {
        proof {
            assert(tris@.subrange(0, s0.len() as int) =~= s0);
            assert forall|j: int| s0.len() <= j < tris@.len() implies has_parent_in(
                #[trigger] tris@[j],
                s0,
            ) by {
                assert(tris@[j] == nt[j - s0.len()]);
                assert(has_parent_in(nt[j - s0.len()], s0));
            }
        }
        true
    }
}

/// Repeated subdivision until the triangle budget is reached, or the safety
/// cap on passes is hit.  A set that already meets the budget is handed back
/// untouched.  Returns the final set and the number of passes run.
pub fn subdivide_until_budget<R: RandomSource>(
    triangles: Vec<TriangleNode>,
    max_triangles: usize,
    rng: &mut R,
) -> (r: (Vec<TriangleNode>, u64))
    requires
        set_in_canvas(triangles@),
        max_triangles <= 100_000_000,
    ensures
        r.0@.len() >= triangles@.len(),
        r.0@.subrange(0, triangles@.len() as int) == triangles@,
        set_in_canvas(r.0@),
        births_consecutive(r.0@, triangles@.len() as int),
        fractal_ordered(r.0@, triangles@.len() as int),
        triangles@.len() >= max_triangles ==> r.0@ == triangles@ && r.1 == 0,
        triangles@.len() < max_triangles ==> r.0@.len() <= max_triangles,
        triangles@.len() < max_triangles && r.1 < MAX_PASSES ==> r.0@.len() == max_triangles,
        r.1 <= MAX_PASSES,
{
    let ghost seeds = triangles@;
    if triangles.len() >= max_triangles {
        proof {
            assert(triangles@.subrange(0, seeds.len() as int) =~= seeds);
        }
        return (triangles, 0);
    }
    let mut tris = triangles;
    let mut counter: u64 = 0;
    let mut passes: u64 = 0;
    loop
        invariant
            seeds == triangles@,
            seeds.len() <= tris@.len() < max_triangles,
            max_triangles <= 100_000_000,
            counter == tris@.len() - seeds.len(),
            tris@.subrange(0, seeds.len() as int) == seeds,
            births_consecutive(tris@, seeds.len() as int),
            fractal_ordered(tris@, seeds.len() as int),
            set_in_canvas(tris@),
            passes < MAX_PASSES,
        decreases MAX_PASSES - passes,
    {
        let ghost before = tris@;
        let ghost cb = counter;
        let more = subdivide(&mut tris, max_triangles, &mut counter, rng);
        passes = passes + 1;
        proof {
            assert(tris@.subrange(0, seeds.len() as int) =~= seeds) by {
                assert(before.subrange(0, seeds.len() as int) == seeds);
                assert(tris@.subrange(0, before.len() as int) == before);
                assert forall|j: int| 0 <= j < seeds.len() implies tris@[j] == seeds[j] by {
                    assert(tris@.subrange(0, before.len() as int)[j] == tris@[j]);
                    assert(before.subrange(0, seeds.len() as int)[j] == before[j]);
                }
            }
            assert(births_consecutive(tris@, seeds.len() as int)) by {
                assert forall|j: int|
                    seeds.len() <= j < tris@.len() implies (#[trigger] tris@[j]).progress == j
                    - seeds.len() + 1 by {
                    if j < before.len() {
                        assert(tris@.subrange(0, before.len() as int)[j] == tris@[j]);
                        assert(before[j].progress == j - seeds.len() + 1);
                    } else {
                        assert(tris@[j].progress == cb + (j - before.len()) + 1);
                    }
                }
            }
            assert(fractal_ordered(tris@, seeds.len() as int)) by {
                assert forall|j: int| seeds.len() <= j < tris@.len() implies has_parent_in(
                    #[trigger] tris@[j],
                    tris@.subrange(0, j),
                ) by {
                    assert forall|p: int| 0 <= p < before.len() && p < j implies #[trigger] tris@
                        .subrange(0, j)[p] == before[p] by {
                        assert(tris@.subrange(0, before.len() as int)[p] == tris@[p]);
                    }
                    if j < before.len() {
                        assert(tris@.subrange(0, before.len() as int)[j] == tris@[j]);
                        assert(has_parent_in(before[j], before.subrange(0, j)));
                        lemma_parent_in_extended(
                            before[j],
                            before.subrange(0, j),
                            tris@.subrange(0, j),
                        );
                        assert(tris@[j] == before[j]);
                    } else {
                        assert(has_parent_in(tris@[j], before));
                        lemma_parent_in_extended(tris@[j], before, tris@.subrange(0, j));
                    }
                }
            }
        }
        if !more {
            return (tris, passes);
        }
        if passes == MAX_PASSES {
            return (tris, passes);
        }
    }
}

} // verus!
