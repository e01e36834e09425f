//! Integer helpers shared by the pipeline: pixel indexing and clamping.

use vstd::prelude::*;

use crate::numerics::uint2::UInt2;

verus! {

/// Column and row of position `index` in a row-major buffer `width` pixels wide
/// and `height` rows tall.
pub fn index_to_xy(index: u32, width: u32, height: u32) -> (r: UInt2)
    requires
        width * height <= u32::MAX,
        index < width * height,
    ensures
        r.x == index % width,
        r.y == index / width,
        r.x < width,
        r.y < height,
        r.y * width + r.x == index,
{
    proof {
        assert(width > 0 && height > 0) by (nonlinear_arith)
            requires
                index < width * height,
        ;
        assert(index == (index / width) * width + index % width && index % width < width)
            by (nonlinear_arith)
            requires
                width > 0,
        ;
        assert(index / width < height) by (nonlinear_arith)
            requires
                width > 0,
                index < width * height,
        ;
    }
    UInt2::new(index % width, index / width)
}

/// Position of pixel `(x, y)` in a row-major buffer `width` pixels wide and
/// `height` rows tall.
pub fn xy_to_index(x: u32, y: u32, width: u32, height: u32) -> (r: u32)
    requires
        width * height <= u32::MAX,
        x < width,
        y < height,
    ensures
        r == y * width + x,
        r < width * height,
{
    proof {
        assert(y * width + x < width * height) by (nonlinear_arith)
            requires
                x < width,
                y < height,
        ;
    }
    y * width + x
}

/// Converts a flag to 1 (set) or 0 (clear).
pub fn bool_to_int(b: bool) -> (r: i32)
    ensures
        r == (if b { 1int } else { 0int }),
{
    if b { 1 } else { 0 }
}

/// The smaller of `a` and `b`.
pub fn min(a: i32, b: i32) -> (r: i32)
    ensures
        r == (if a <= b { a } else { b }),
{
    if a <= b { a } else { b }
}

/// The larger of `a` and `b`.
pub fn max(a: i32, b: i32) -> (r: i32)
    ensures
        r == (if a >= b { a } else { b }),
{
    if a >= b { a } else { b }
}

/// `a` limited to the range `[min, max]`.
pub fn clamp(a: i32, min: i32, max: i32) -> (r: i32)
    requires
        min <= max,
    ensures
        min <= r <= max,
        a < min ==> r == min,
        a > max ==> r == max,
        min <= a <= max ==> r == a,
{
    if a < min {
        min
    } else if a > max {
        max
    } else {
        a
    }
}

} // verus!
