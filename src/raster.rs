//! Integer work of scan conversion: which pixels a triangle's bounding box
//! covers, and which pixels a line between two pixel centres passes through.

use vstd::prelude::*;

use crate::mathi::clamp;
use crate::numerics::int2::Int2;

verus! {

/// An inclusive rectangle of pixels.
#[derive(Copy, Clone, Debug, PartialEq, Eq, Structural)]
pub struct PixelBlock {
    pub start_x: i32,
    pub start_y: i32,
    pub end_x: i32,
    pub end_y: i32,
}

pub open spec fn clamped(a: int, lo: int, hi: int) -> int {
    if a < lo {
        lo
    } else if a > hi {
        hi
    } else {
        a
    }
}

/// The pixels to scan for a triangle whose bounding box, rounded outward to whole
/// pixels, spans `min_x..=max_x` by `min_y..=max_y`: each bound is clamped to
/// the target's columns `0..=width-1` and rows `0..=height-1`.
pub fn pixel_block(min_x: i32, min_y: i32, max_x: i32, max_y: i32, width: u32, height: u32) -> (r:
    PixelBlock)
    requires
        1 <= width <= i32::MAX,
        1 <= height <= i32::MAX,
    ensures
        r.start_x == clamped(min_x as int, 0, width - 1),
        r.start_y == clamped(min_y as int, 0, height - 1),
        r.end_x == clamped(max_x as int, 0, width - 1),
        r.end_y == clamped(max_y as int, 0, height - 1),
        0 <= r.start_x < width && 0 <= r.end_x < width,
        0 <= r.start_y < height && 0 <= r.end_y < height,
{
    let last_x = (width - 1) as i32;
    let last_y = (height - 1) as i32;
    PixelBlock {
        start_x: clamp(min_x, 0, last_x),
        start_y: clamp(min_y, 0, last_y),
        end_x: clamp(max_x, 0, last_x),
        end_y: clamp(max_y, 0, last_y),
    }
}

pub open spec fn abs(a: int) -> int {
    if a < 0 {
        -a
    } else {
        a
    }
}

/// Largest coordinate size accepted by `line_walk`.
pub const LINE_COORD_LIMIT: i32 = 0x2000_0000;

/// Position and error term of the line walk from `(x0, y0)` toward `(x1, y1)`
/// after `i` steps of Bresenham's rule: with `dx`, `dy` the distances and `e`
/// the error term (starting at `dx - dy`), a step moves one pixel toward `x1` when
/// `2e > -dy`, subtracting `dy`, and one toward `y1` when `2e < dx`, adding `dx`.
pub open spec fn line_state(x0: int, y0: int, x1: int, y1: int, i: nat) -> (int, int, int)
    decreases i,
{
    let dx = abs(x1 - x0);
    let dy = abs(y1 - y0);
    if i == 0 {
        (x0, y0, dx - dy)
    } else {
        let prev = line_state(x0, y0, x1, y1, (i - 1) as nat);
        let sx: int = if x0 < x1 { 1 } else { -1 };
        let sy: int = if y0 < y1 { 1 } else { -1 };
        let e2 = 2 * prev.2;
        let (x, err) = if e2 > -dy { (prev.0 + sx, prev.2 - dy) } else { (prev.0, prev.2) };
        let (y, err) = if e2 < dx { (prev.1 + sy, err + dx) } else { (prev.1, err) };
        (x, y, err)
    }
}

pub open spec fn line_point(x0: int, y0: int, x1: int, y1: int, i: nat) -> (int, int) {
    let s = line_state(x0, y0, x1, y1, i);
    (s.0, s.1)
}

/// One step of the walk keeps it within the end on both axes: with `kx`, `ky`
/// the steps taken toward `x1`, `y1` and the error term `dx - dy - dy*kx + dx*ky`,
/// a step toward `x1` is only taken while `kx < dx`, one toward `y1` only while
/// `ky < dy`, and one of them is always taken before the end.
proof fn lemma_line_step(dx: int, dy: int, kx: int, ky: int)
    requires
        0 <= kx <= dx,
        0 <= ky <= dy,
        !(kx == dx && ky == dy),
    ensures
        ({
            let err = dx - dy - dy * kx + dx * ky;
            &&& 2 * err > -dy ==> kx < dx
            &&& 2 * err < dx ==> ky < dy
            &&& 2 * err > -dy || 2 * err < dx
        }),
{
    let err = dx - dy - dy * kx + dx * ky;
    if kx == dx {
        assert(dx * (1 + ky - dy) <= 0) by (nonlinear_arith)
            requires
                dx >= 0,
                ky + 1 <= dy,
        ;
        assert(err == dx * (1 + ky - dy) - dy) by (nonlinear_arith)
            requires
                err == dx - dy - dy * kx + dx * ky,
                kx == dx,
        ;
    }
    if ky == dy {
        assert(dy * (1 + kx) <= dy * dx) by (nonlinear_arith)
            requires
                dy >= 0,
                kx + 1 <= dx,
        ;
        assert(err == dx * (1 + dy) - dy * (1 + kx)) by (nonlinear_arith)
            requires
                err == dx - dy - dy * kx + dx * ky,
                ky == dy,
        ;
        assert(dx * (1 + dy) == dx + dy * dx) by (nonlinear_arith);
    }
}

/// The error term stays far inside `i64` for distances up to `2^30`.
proof fn lemma_line_err_bound(dx: int, dy: int, kx: int, ky: int)
    requires
        0 <= kx <= dx <= 0x4000_0000,
        0 <= ky <= dy <= 0x4000_0000,
    ensures
        -0x3000_0000_0000_0000 <= dx - dy - dy * kx + dx * ky <= 0x3000_0000_0000_0000,
{
    assert(0 <= dy * kx <= 0x4000_0000 * 0x4000_0000) by (nonlinear_arith)
        requires
            0 <= kx <= 0x4000_0000,
            0 <= dy <= 0x4000_0000,
    ;
    assert(0 <= dx * ky <= 0x4000_0000 * 0x4000_0000) by (nonlinear_arith)
        requires
            0 <= ky <= 0x4000_0000,
            0 <= dx <= 0x4000_0000,
    ;
}

/// The pixels that a line from `(x0, y0)` to `(x1, y1)` passes through, in order:
/// the points of Bresenham's walk from the start up to and including the end.
/// There are at most `|dx| + |dy| + 1` of them, and each lies between the two
/// ends on both axes.
pub fn line_walk(x0: i32, y0: i32, x1: i32, y1: i32) -> (r: Vec<Int2>)
    requires
        -LINE_COORD_LIMIT <= x0 <= LINE_COORD_LIMIT,
        -LINE_COORD_LIMIT <= y0 <= LINE_COORD_LIMIT,
        -LINE_COORD_LIMIT <= x1 <= LINE_COORD_LIMIT,
        -LINE_COORD_LIMIT <= y1 <= LINE_COORD_LIMIT,
    ensures
        1 <= r@.len() <= abs(x1 - x0) + abs(y1 - y0) + 1,
        forall|i: int|
            0 <= i < r@.len() ==> (r@[i].x as int, r@[i].y as int) == line_point(
                x0 as int,
                y0 as int,
                x1 as int,
                y1 as int,
                i as nat,
            ),
        forall|i: int| 0 <= i < r@.len() - 1 ==> !(#[trigger] r@[i].x == x1 && r@[i].y == y1),
        r@[r@.len() - 1].x == x1 && r@[r@.len() - 1].y == y1,
{
    let dx: i32 = if x1 >= x0 { x1 - x0 } else { x0 - x1 };
    let dy: i32 = if y1 >= y0 { y1 - y0 } else { y0 - y1 };
    let sx: i32 = if x0 < x1 { 1 } else { -1 };
    let sy: i32 = if y0 < y1 { 1 } else { -1 };
    let max_iters: i64 = dx as i64 + dy as i64 + 1000;
    let mut err: i64 = dx as i64 - dy as i64;
    let mut x: i32 = x0;
    let mut y: i32 = y0;
    let mut count: i64 = 0;
    let mut r: Vec<Int2> = Vec::new();
    let ghost mut kx: int = 0;
    let ghost mut ky: int = 0;
    loop
        invariant_except_break
            (x as int, y as int, err as int) == line_state(
                x0 as int,
                y0 as int,
                x1 as int,
                y1 as int,
                count as nat,
            ),
            0 <= kx <= dx,
            0 <= ky <= dy,
            x == (if x0 < x1 { x0 + kx } else { x0 - kx }),
            y == (if y0 < y1 { y0 + ky } else { y0 - ky }),
            err == dx - dy - dy * kx + dx * ky,
            count <= kx + ky,
            forall|i: int| 0 <= i < r@.len() ==> !(#[trigger] r@[i].x == x1 && r@[i].y == y1),
        invariant
            max_iters == dx + dy + 1000,
            dx == abs(x1 - x0),
            dy == abs(y1 - y0),
            0 <= dx <= 0x4000_0000,
            0 <= dy <= 0x4000_0000,
            sx == (if x0 < x1 { 1int } else { -1 }),
            sy == (if y0 < y1 { 1int } else { -1 }),
            0 <= count <= dx + dy + 1,
            r@.len() == count,
            forall|i: int|
                0 <= i < r@.len() ==> (r@[i].x as int, r@[i].y as int) == line_point(
                    x0 as int,
                    y0 as int,
                    x1 as int,
                    y1 as int,
                    i as nat,
                ),
        ensures
            1 <= r@.len() <= dx + dy + 1,
            forall|i: int| 0 <= i < r@.len() - 1 ==> !(#[trigger] r@[i].x == x1 && r@[i].y == y1),
            r@[r@.len() - 1].x == x1 && r@[r@.len() - 1].y == y1,
        decreases max_iters - count,
    {
        r.push(Int2::new(x, y));
        count = count + 1;
        if x == x1 && y == y1 {
            break;
        }
        proof {
            assert(!(kx == dx && ky == dy));
            lemma_line_step(dx as int, dy as int, kx, ky);
            lemma_line_err_bound(dx as int, dy as int, kx, ky);
            assert(dy * (kx + 1) == dy * kx + dy) by (nonlinear_arith);
            assert(dx * (ky + 1) == dx * ky + dx) by (nonlinear_arith);
        }
        if count >= max_iters {
            break;
        }
        let e2: i64 = 2 * err;
        if e2 > -(dy as i64) {
            err = err - dy as i64;
            x = x + sx;
            proof {
                kx = kx + 1;
            }
        }
        if e2 < dx as i64 {
            err = err + dx as i64;
            y = y + sy;
            proof {
                ky = ky + 1;
            }
        }
    }
    r
}

} // verus!
