//! Near-plane clipping of one triangle, as the choice of output corners.
//!
//! A vertex is clipped when its view-space depth is at or behind the near plane.
//! Which corners the clipped triangles have depends only on which of the three
//! vertices are clipped; where exactly an edge meets the plane is computed by the
//! caller from the vertex positions.

use vstd::prelude::*;

verus! {

/// A corner of a triangle produced by clipping.
#[derive(Copy, Clone, Debug, PartialEq, Eq, Structural)]
pub enum ClipCorner {
    /// Vertex `index` (0, 1 or 2) of the input triangle, as it is.
    Vertex { index: usize },
    /// The point where the edge from vertex `from` to vertex `to` meets the near
    /// plane, found by interpolating from `from` toward `to`.
    Crossing { from: usize, to: usize },
}

/// Flag of vertex `i` among the three.
pub open spec fn flag(c0: bool, c1: bool, c2: bool, i: int) -> bool {
    if i == 0 {
        c0
    } else if i == 1 {
        c1
    } else {
        c2
    }
}

/// How many of the three vertices are clipped.
pub open spec fn clipped_count(c0: bool, c1: bool, c2: bool) -> int {
    (if c0 { 1int } else { 0 }) + (if c1 { 1int } else { 0 }) + (if c2 { 1int } else { 0 })
}

/// The first vertex whose flag equals `value`.
pub open spec fn first_with(c0: bool, c1: bool, c2: bool, value: bool) -> usize {
    if c0 == value {
        0
    } else if c1 == value {
        1
    } else {
        2
    }
}

pub open spec fn vertex(i: usize) -> ClipCorner {
    ClipCorner::Vertex { index: i }
}

pub open spec fn crossing(from: usize, to: usize) -> ClipCorner {
    ClipCorner::Crossing { from, to }
}

/// The corners of the triangles that replace the input triangle, three per
/// triangle. With `k` the vertex that differs from the other two, `n` the one
/// after it and `p` the one before it in winding order:
/// - none clipped: the triangle itself;
/// - one clipped (`k`): the quadrilateral `crossing(k, n), n, p, crossing(k, p)`
///   cut along its diagonal from `crossing(k, n)` to `p`;
/// - two clipped (`k` kept): the triangle `k, crossing(k, n), crossing(k, p)`;
/// - all clipped: nothing.
pub open spec fn clip_corners(c0: bool, c1: bool, c2: bool) -> Seq<ClipCorner> {
    let count = clipped_count(c0, c1, c2);
    if count == 0 {
        seq![vertex(0), vertex(1), vertex(2)]
    } else if count == 1 {
        let k = first_with(c0, c1, c2, true);
        let n = ((k + 1) % 3) as usize;
        let p = ((k + 2) % 3) as usize;
        seq![crossing(k, p), crossing(k, n), vertex(p), crossing(k, n), vertex(n), vertex(p)]
    } else if count == 2 {
        let k = first_with(c0, c1, c2, false);
        let n = ((k + 1) % 3) as usize;
        let p = ((k + 2) % 3) as usize;
        seq![crossing(k, p), vertex(k), crossing(k, n)]
    } else {
        Seq::empty()
    }
}

/// Number of triangles that clipping leaves of a triangle with `count` clipped
/// vertices.
pub open spec fn triangles_kept(count: int) -> int {
    if count == 0 {
        1
    } else if count == 1 {
        2
    } else if count == 2 {
        1
    } else {
        0
    }
}

/// The corners that replace a triangle whose vertices are clipped as the flags
/// say, three per output triangle.
pub fn clip_triangle(clip0: bool, clip1: bool, clip2: bool) -> (r: Vec<ClipCorner>)
    ensures
        r@ == clip_corners(clip0, clip1, clip2),
{
    let count: u8 = (if clip0 { 1u8 } else { 0u8 }) + (if clip1 { 1u8 } else { 0u8 }) + (if clip2 {
        1u8
    } else {
        0u8
    });
    let mut r: Vec<ClipCorner> = Vec::new();
    if count == 0 {
        r.push(ClipCorner::Vertex { index: 0 });
        r.push(ClipCorner::Vertex { index: 1 });
        r.push(ClipCorner::Vertex { index: 2 });
    } else if count == 1 {
        let k: usize = if clip0 {
            0
        } else if clip1 {
            1
        } else {
            2
        };
        let n: usize = (k + 1) % 3;
        let p: usize = (k + 2) % 3;
        r.push(ClipCorner::Crossing { from: k, to: p });
        r.push(ClipCorner::Crossing { from: k, to: n });
        r.push(ClipCorner::Vertex { index: p });
        r.push(ClipCorner::Crossing { from: k, to: n });
        r.push(ClipCorner::Vertex { index: n });
        r.push(ClipCorner::Vertex { index: p });
    } else if count == 2 {
        let k: usize = if !clip0 {
            0
        } else if !clip1 {
            1
        } else {
            2
        };
        let n: usize = (k + 1) % 3;
        let p: usize = (k + 2) % 3;
        r.push(ClipCorner::Crossing { from: k, to: p });
        r.push(ClipCorner::Vertex { index: k });
        r.push(ClipCorner::Crossing { from: k, to: n });
    }
    assert(r@ =~= clip_corners(clip0, clip1, clip2));
    r
}

/// Clipping keeps every part of a triangle in front of the near plane and nothing
/// behind it: one triangle comes out when no vertex or two vertices are clipped,
/// two when exactly one is, and none when all are. Every corner is a vertex in
/// front of the plane or lies on an edge that joins a clipped vertex to a kept
/// one, where the edge crosses the plane. With one vertex clipped, the two
/// triangles together have exactly the four corners of the clipped polygon and
/// share one diagonal of it.
pub proof fn lemma_clip_conservation(c0: bool, c1: bool, c2: bool)
    ensures
        clip_corners(c0, c1, c2).len() == 3 * triangles_kept(clipped_count(c0, c1, c2)),
        forall|i: int|
            0 <= i < clip_corners(c0, c1, c2).len() ==> match #[trigger] clip_corners(
                c0,
                c1,
                c2,
            )[i] {
                ClipCorner::Vertex { index } => index < 3 && !flag(c0, c1, c2, index as int),
                ClipCorner::Crossing { from, to } => from < 3 && to < 3 && flag(
                    c0,
                    c1,
                    c2,
                    from as int,
                ) != flag(c0, c1, c2, to as int),
            },
        clipped_count(c0, c1, c2) == 1 ==> {
            let r = clip_corners(c0, c1, c2);
            &&& r[1] == r[3]
            &&& r[2] == r[5]
            &&& r.to_set() =~= set![r[0], r[1], r[2], r[4]]
            &&& r[0] != r[1] && r[0] != r[2] && r[0] != r[4]
            &&& r[1] != r[2] && r[1] != r[4] && r[2] != r[4]
        },
{
}

} // verus!
