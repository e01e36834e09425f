//! The scan-conversion loop: every pixel of a block is offered to a triangle's
//! coverage test, then to the depth test, then to its shading.
//!
//! What a triangle covers, at what depth, and what color it gives are computed
//! by the caller's two functions: `cover(x, y)` says whether pixel `(x, y)` is
//! inside the triangle and, if so, its depth key and the data its shading needs;
//! `shade(data, dst)` gives the color to store over the color `dst` that the pixel
//! holds, or nothing to leave the pixel as it is.

use vstd::prelude::*;

use crate::raster::PixelBlock;
use crate::render_target::{pixel_index, RenderTarget};

verus! {

pub open spec fn in_block(b: PixelBlock, x: int, y: int) -> bool {
    b.start_x <= x <= b.end_x && b.start_y <= y <= b.end_y
}

/// The triangle wrote `(new_c, new_d)` over `(old_c, old_d)` at pixel `(x, y)`:
/// it covers the pixel at depth `new_d`, nearer than `old_d`, and shading over
/// `old_c` gave `new_c`.
pub open spec fn written_by<C, W, F: Fn(i32, i32) -> Option<(u32, W)>, G: Fn(W, C) -> Option<C>>(
    cover: F,
    shade: G,
    x: int,
    y: int,
    old_c: C,
    old_d: u32,
    new_c: C,
    new_d: u32,
) -> bool {
    exists|w: W|
        #![trigger call_ensures(cover, (x as i32, y as i32), Some((new_d, w)))]
        call_ensures(cover, (x as i32, y as i32), Some((new_d, w))) && new_d < old_d
            && call_ensures(shade, (w, old_c), Some(new_c))
}

/// Whatever `cover` and `shade` may return at pixel `(x, y)`, the pixel is
/// covered nearer than `old_d` and shading gives a color: the pixel must be
/// written.
pub open spec fn write_owed<C, W, F: Fn(i32, i32) -> Option<(u32, W)>, G: Fn(W, C) -> Option<C>>(
    cover: F,
    shade: G,
    x: int,
    y: int,
    old_c: C,
    old_d: u32,
) -> bool {
    forall|r: Option<(u32, W)>|
        #[trigger] call_ensures(cover, (x as i32, y as i32), r) ==> match r {
            Some((d, w)) => d < old_d && forall|s: Option<C>|
                #[trigger] call_ensures(shade, (w, old_c), s) ==> s is Some,
            None => false,
        }
}

/// A pixel that held `(old_c, old_d)` and holds `(new_c, new_d)` after being
/// offered to a triangle: either it kept its color and depth or the triangle
/// wrote it, and the triangle wrote it whenever that was owed.
pub open spec fn pixel_shaded<C, W, F: Fn(i32, i32) -> Option<(u32, W)>, G: Fn(W, C) -> Option<C>>(
    cover: F,
    shade: G,
    x: int,
    y: int,
    old_c: C,
    old_d: u32,
    new_c: C,
    new_d: u32,
) -> bool {
    &&& (new_c == old_c && new_d == old_d) || written_by(cover, shade, x, y, old_c, old_d, new_c, new_d)
    &&& write_owed(cover, shade, x, y, old_c, old_d) ==> written_by(
        cover,
        shade,
        x,
        y,
        old_c,
        old_d,
        new_c,
        new_d,
    )
}

proof fn lemma_pixel_index_injective(x1: int, y1: int, x2: int, y2: int, w: int)
    requires
        0 <= x1 < w,
        0 <= x2 < w,
        0 <= y1,
        0 <= y2,
    ensures
        pixel_index(x1, y1, w) == pixel_index(x2, y2, w) <==> x1 == x2 && y1 == y2,
{
    if y1 < y2 {
        assert(y1 * w + x1 < y2 * w + x2) by (nonlinear_arith)
            requires
                y1 < y2,
                0 <= x1 < w,
                0 <= x2,
        ;
    } else if y2 < y1 {
        assert(y2 * w + x2 < y1 * w + x1) by (nonlinear_arith)
            requires
                y2 < y1,
                0 <= x2 < w,
                0 <= x1,
        ;
    }
}

/// Offers pixel `(x, y)` to the triangle: when `cover` places it inside at a depth
/// nearer than the pixel's, and `shade` gives a color, that color and depth are
/// stored. No other pixel changes.
pub fn shade_pixel<C: Copy, W, F: Fn(i32, i32) -> Option<(u32, W)>, G: Fn(W, C) -> Option<C>>(
    target: &mut RenderTarget<C>,
    x: i32,
    y: i32,
    cover: &F,
    shade: &G,
)
    requires
        old(target).wf(),
        0 <= x < old(target).spec_width(),
        0 <= y < old(target).spec_height(),
        call_requires(*cover, (x, y)),
        forall|w: W, c: C| call_requires(*shade, (w, c)),
    ensures
        final(target).wf(),
        final(target).spec_width() == old(target).spec_width(),
        final(target).spec_height() == old(target).spec_height(),
        ({
            let i = pixel_index(x as int, y as int, old(target).spec_width() as int);
            &&& final(target).colors() == old(target).colors().update(i, final(target).colors()[i])
            &&& final(target).depths() == old(target).depths().update(i, final(target).depths()[i])
            &&& pixel_shaded(
                *cover,
                *shade,
                x as int,
                y as int,
                old(target).colors()[i],
                old(target).depths()[i],
                final(target).colors()[i],
                final(target).depths()[i],
            )
        }),
{
    let ghost i = pixel_index(x as int, y as int, target.spec_width() as int);
    proof {
        crate::render_target::lemma_pixel_index_bounds(
            x as int,
            y as int,
            target.spec_width() as int,
            target.spec_height() as int,
        );
    }
    let covered = cover(x, y);
    let ghost old_c = target.colors()[i];
    let ghost old_d = target.depths()[i];
    assert(call_ensures(*cover, ((x as int) as i32, (y as int) as i32), covered));
    match covered {
        Some((depth, data)) => {
            let ghost w = data;
            if target.depth_passes(x as u32, y as u32, depth) {
                let dst = target.get_pixel_color(x as u32, y as u32);
                let shaded = shade(data, dst);
                assert(call_ensures(*shade, (w, old_c), shaded));
                match shaded {
                    Some(color) => {
                        target.set_pixel(x as u32, y as u32, color, depth);
                        proof {
                            assert(target.colors() =~= old(target).colors().update(i, color));
                            assert(target.depths() =~= old(target).depths().update(i, depth));
                        }
                    },
                    None => {
                        proof {
                            assert(target.colors() =~= old(target).colors().update(i, target.colors()[i]));
                            assert(target.depths() =~= old(target).depths().update(i, target.depths()[i]));
                        }
                    },
                }
            } else {
                proof {
                    assert(target.colors() =~= old(target).colors().update(i, target.colors()[i]));
                    assert(target.depths() =~= old(target).depths().update(i, target.depths()[i]));
                }
            }
        },
        None => {
            proof {
                assert(target.colors() =~= old(target).colors().update(i, target.colors()[i]));
                assert(target.depths() =~= old(target).depths().update(i, target.depths()[i]));
            }
        },
    }
}

/// Pixel `(px, py)` after the pixels of `b` before `(cx, cy)` in row-major order
/// were offered to the triangle: those were shaded, the rest are as they were.
pub open spec fn scanned_before<C, W, F: Fn(i32, i32) -> Option<(u32, W)>, G: Fn(W, C) -> Option<C>>(
    cover: F,
    shade: G,
    b: PixelBlock,
    cx: int,
    cy: int,
    old_c: Seq<C>,
    old_d: Seq<u32>,
    new_c: Seq<C>,
    new_d: Seq<u32>,
    width: int,
    px: int,
    py: int,
) -> bool {
    let i = pixel_index(px, py, width);
    if in_block(b, px, py) && (py < cy || (py == cy && px < cx)) {
        pixel_shaded(cover, shade, px, py, old_c[i], old_d[i], new_c[i], new_d[i])
    } else {
        new_c[i] == old_c[i] && new_d[i] == old_d[i]
    }
}

/// Offers every pixel of `block` to the triangle, row by row and left to right;
/// see `shade_pixel`. Pixels outside the block do not change. An empty block
/// (start past end) changes nothing.
pub fn scan_block<C: Copy, W, F: Fn(i32, i32) -> Option<(u32, W)>, G: Fn(W, C) -> Option<C>>(
    target: &mut RenderTarget<C>,
    block: PixelBlock,
    cover: &F,
    shade: &G,
)
    requires
        old(target).wf(),
        old(target).spec_width() <= i32::MAX,
        old(target).spec_height() <= i32::MAX,
        0 <= block.start_x,
        0 <= block.start_y,
        block.end_x < old(target).spec_width(),
        block.end_y < old(target).spec_height(),
        forall|x: i32, y: i32| call_requires(*cover, (x, y)),
        forall|w: W, c: C| call_requires(*shade, (w, c)),
    ensures
        final(target).wf(),
        final(target).spec_width() == old(target).spec_width(),
        final(target).spec_height() == old(target).spec_height(),
        forall|px: int, py: int|
            0 <= px < old(target).spec_width() && 0 <= py < old(target).spec_height()
                ==> #[trigger] scanned_before(
                *cover,
                *shade,
                block,
                block.start_x as int,
                block.end_y + 1,
                old(target).colors(),
                old(target).depths(),
                final(target).colors(),
                final(target).depths(),
                old(target).spec_width() as int,
                px,
                py,
            ),
{
    let ghost w = target.spec_width() as int;
    let ghost h = target.spec_height() as int;
    let ghost old_c = target.colors();
    let ghost old_d = target.depths();
    let mut y: i32 = block.start_y;
    if block.start_y > block.end_y || block.start_x > block.end_x {
        assert forall|px: int, py: int| 0 <= px < w && 0 <= py < h implies #[trigger] scanned_before(
            *cover, *shade, block, block.start_x as int, block.end_y + 1, old_c, old_d,
            target.colors(), target.depths(), w, px, py) by {}
        return;
    }
    while y <= block.end_y
        invariant
            target.wf(),
            target.spec_width() == w,
            target.spec_height() == h,
            w <= i32::MAX,
            h <= i32::MAX,
            0 <= block.start_x,
            block.end_x < w,
            block.end_y < h,
            0 <= block.start_y,
            block.start_x <= block.end_x,
            block.start_y <= y <= block.end_y + 1,
            old_c.len() == w * h,
            forall|x: i32, y: i32| call_requires(*cover, (x, y)),
            forall|d: W, c: C| call_requires(*shade, (d, c)),
            forall|px: int, py: int|
                0 <= px < w && 0 <= py < h ==> #[trigger] scanned_before(
                    *cover, *shade, block, block.start_x as int, y as int, old_c, old_d,
                    target.colors(), target.depths(), w, px, py),
        decreases block.end_y + 1 - y,
    {
        let mut x: i32 = block.start_x;
        while x <= block.end_x
            invariant
                target.wf(),
                target.spec_width() == w,
                target.spec_height() == h,
                w <= i32::MAX,
                h <= i32::MAX,
                0 <= block.start_x,
                block.end_x < w,
                block.end_y < h,
                0 <= block.start_y,
                block.start_y <= y <= block.end_y,
                block.start_x <= x <= block.end_x + 1,
                old_c.len() == w * h,
                forall|x: i32, y: i32| call_requires(*cover, (x, y)),
                forall|d: W, c: C| call_requires(*shade, (d, c)),
                forall|px: int, py: int|
                    0 <= px < w && 0 <= py < h ==> #[trigger] scanned_before(
                        *cover, *shade, block, x as int, y as int, old_c, old_d,
                        target.colors(), target.depths(), w, px, py),
            decreases block.end_x + 1 - x,
        {
            let ghost before_c = target.colors();
            let ghost before_d = target.depths();
            shade_pixel(target, x, y, cover, shade);
            proof {
                assert forall|px: int, py: int| 0 <= px < w && 0 <= py < h implies #[trigger] scanned_before(
                    *cover, *shade, block, x + 1, y as int, old_c, old_d,
                    target.colors(), target.depths(), w, px, py) by {
                    lemma_pixel_index_injective(px, py, x as int, y as int, w);
                    crate::render_target::lemma_pixel_index_bounds(px, py, w, h);
                    crate::render_target::lemma_pixel_index_bounds(x as int, y as int, w, h);
                    let i = pixel_index(px, py, w);
                    let k = pixel_index(x as int, y as int, w);
                    assert(scanned_before(*cover, *shade, block, x as int, y as int, old_c, old_d,
                        before_c, before_d, w, px, py));
                    assert(scanned_before(*cover, *shade, block, x as int, y as int, old_c, old_d,
                        before_c, before_d, w, x as int, y as int));
                    if px == x && py == y {
                        assert(before_c[k] == old_c[k] && before_d[k] == old_d[k]);
                    } else {
                        assert(i != k);
                        assert(target.colors()[i] == before_c[i]);
                        assert(target.depths()[i] == before_d[i]);
                    }
                }
            }
            x = x + 1;
        }
        proof {
            assert forall|px: int, py: int| 0 <= px < w && 0 <= py < h implies #[trigger] scanned_before(
                *cover, *shade, block, block.start_x as int, y + 1, old_c, old_d,
                target.colors(), target.depths(), w, px, py) by {
                assert(scanned_before(*cover, *shade, block, x as int, y as int, old_c, old_d,
                    target.colors(), target.depths(), w, px, py));
            }
        }
        y = y + 1;
    }
}

} // verus!
