//! The color and depth buffers that triangles are drawn into.
//!
//! Depths are held as 32-bit keys that order as the depths do: for non-negative
//! IEEE-754 single-precision values, the bit patterns read as unsigned integers
//! are ordered exactly as the values are, and `FAR_DEPTH` is the pattern of
//! positive infinity, above that of every finite depth. Smaller keys are nearer.

use vstd::prelude::*;

verus! {

/// The depth key of an entry that nothing has been drawn to (positive infinity).
pub const FAR_DEPTH: u32 = 0x7f80_0000;

/// Position of pixel `(x, y)` in a row-major buffer `width` pixels wide.
pub open spec fn pixel_index(x: int, y: int, width: int) -> int {
    y * width + x
}

/// The buffers after a fragment of `color` at depth `depth` is offered to entry
/// `i`: it is stored, color and depth, when it is strictly nearer than what the
/// entry holds, and dropped otherwise.
pub open spec fn fragment_applied<C>(
    colors: Seq<C>,
    depths: Seq<u32>,
    i: int,
    color: C,
    depth: u32,
) -> (Seq<C>, Seq<u32>) {
    if depth < depths[i] {
        (colors.update(i, color), depths.update(i, depth))
    } else {
        (colors, depths)
    }
}

/// The buffers after the fragment `(c1, d1)` and then `(c2, d2)` are offered to
/// entry `i`.
pub open spec fn fragments_applied<C>(
    colors: Seq<C>,
    depths: Seq<u32>,
    i: int,
    c1: C,
    d1: u32,
    c2: C,
    d2: u32,
) -> (Seq<C>, Seq<u32>) {
    let first = fragment_applied(colors, depths, i, c1, d1);
    fragment_applied(first.0, first.1, i, c2, d2)
}

/// Two fragments with strictly ordered depths `d1 < d2` offered to one pixel
/// leave the same buffers in either order. If `d1` is nearer than what the pixel
/// held, the pixel ends with depth `d1` and the color of that fragment;
/// otherwise nothing changes.
pub proof fn lemma_nearer_fragment_wins<C>(
    colors: Seq<C>,
    depths: Seq<u32>,
    i: int,
    c1: C,
    d1: u32,
    c2: C,
    d2: u32,
)
    requires
        0 <= i < colors.len(),
        depths.len() == colors.len(),
        d1 < d2,
    ensures
        fragments_applied(colors, depths, i, c1, d1, c2, d2) == fragments_applied(
            colors,
            depths,
            i,
            c2,
            d2,
            c1,
            d1,
        ),
        d1 < depths[i] ==> fragments_applied(colors, depths, i, c1, d1, c2, d2).1[i] == d1
            && fragments_applied(colors, depths, i, c1, d1, c2, d2).0[i] == c1,
        d1 >= depths[i] ==> fragments_applied(colors, depths, i, c1, d1, c2, d2) == (
            colors,
            depths,
        ),
{
    let a = fragments_applied(colors, depths, i, c1, d1, c2, d2);
    let b = fragments_applied(colors, depths, i, c2, d2, c1, d1);
    if d1 < depths[i] {
        if d2 < depths[i] {
            assert(a.0 =~= b.0);
            assert(a.1 =~= b.1);
        }
    }
}

pub proof fn lemma_pixel_index_bounds(x: int, y: int, width: int, height: int)
    requires
        0 <= x < width,
        0 <= y < height,
    ensures
        0 <= pixel_index(x, y, width) < width * height,
{
    assert(0 <= y * width + x < width * height) by (nonlinear_arith)
        requires
            0 <= x < width,
            0 <= y < height,
    ;
}

/// A `width` by `height` image of colors of type `C` with a depth key per pixel,
/// both stored row by row.
pub struct RenderTarget<C> {
    color_buffer: Vec<C>,
    depth_buffer: Vec<u32>,
    width: u32,
    height: u32,
}

impl<C: Copy> RenderTarget<C> {
    /// The colors, row by row.
    pub closed spec fn colors(&self) -> Seq<C> {
        self.color_buffer@
    }

    /// The depth keys, row by row.
    pub closed spec fn depths(&self) -> Seq<u32> {
        self.depth_buffer@
    }

    pub closed spec fn spec_width(&self) -> nat {
        self.width as nat
    }

    pub closed spec fn spec_height(&self) -> nat {
        self.height as nat
    }

    /// Both buffers hold one entry per pixel.
    pub open spec fn wf(&self) -> bool {
        &&& self.spec_width() * self.spec_height() <= u32::MAX
        &&& self.colors().len() == self.spec_width() * self.spec_height()
        &&& self.depths().len() == self.spec_width() * self.spec_height()
    }

    /// Every pixel holds `color` at depth `FAR_DEPTH`.
    pub open spec fn is_cleared_to(&self, color: C) -> bool {
        &&& forall|i: int| 0 <= i < self.colors().len() ==> self.colors()[i] == color
        &&& forall|i: int| 0 <= i < self.depths().len() ==> self.depths()[i] == FAR_DEPTH
    }

    /// A target of `width` by `height` pixels, every one `clear_color` with
    /// nothing drawn.
    pub fn new(width: u32, height: u32, clear_color: C) -> (r: Self)
        requires
            width * height <= u32::MAX,
        ensures
            r.wf(),
            r.spec_width() == width,
            r.spec_height() == height,
            r.is_cleared_to(clear_color),
    {
        let n: u32 = width * height;
        let mut color_buffer: Vec<C> = Vec::new();
        let mut depth_buffer: Vec<u32> = Vec::new();
        let mut i: u32 = 0;
        while i < n
            invariant
                i <= n,
                color_buffer@.len() == i,
                depth_buffer@.len() == i,
                forall|j: int| 0 <= j < i ==> color_buffer@[j] == clear_color,
                forall|j: int| 0 <= j < i ==> depth_buffer@[j] == FAR_DEPTH,
            decreases n - i,
        {
            color_buffer.push(clear_color);
            depth_buffer.push(FAR_DEPTH);
            i = i + 1;
        }
        RenderTarget { color_buffer, depth_buffer, width, height }
    }

    /// Fills every pixel with `color` and marks it as drawn by nothing.
    pub fn clear(&mut self, color: C)
        requires
            old(self).wf(),
        ensures
            final(self).wf(),
            final(self).spec_width() == old(self).spec_width(),
            final(self).spec_height() == old(self).spec_height(),
            final(self).is_cleared_to(color),
    {
        let n: usize = self.color_buffer.len();
        let mut i: usize = 0;
        while i < n
            invariant
                self.wf(),
                self.spec_width() == old(self).spec_width(),
                self.spec_height() == old(self).spec_height(),
                n == self.colors().len(),
                i <= n,
                forall|j: int| 0 <= j < i ==> self.colors()[j] == color,
                forall|j: int| 0 <= j < i ==> self.depths()[j] == FAR_DEPTH,
            decreases n - i,
        {
            self.color_buffer.set(i, color);
            self.depth_buffer.set(i, FAR_DEPTH);
            i = i + 1;
        }
    }

    /// Stores `color` and `depth` at pixel `(x, y)`, whatever it held before.
    pub fn set_pixel(&mut self, x: u32, y: u32, color: C, depth: u32)
        requires
            old(self).wf(),
            x < old(self).spec_width(),
            y < old(self).spec_height(),
        ensures
            final(self).wf(),
            final(self).spec_width() == old(self).spec_width(),
            final(self).spec_height() == old(self).spec_height(),
            final(self).colors() == old(self).colors().update(
                pixel_index(x as int, y as int, old(self).spec_width() as int),
                color,
            ),
            final(self).depths() == old(self).depths().update(
                pixel_index(x as int, y as int, old(self).spec_width() as int),
                depth,
            ),
    {
        let i = self.index_of(x, y);
        self.color_buffer.set(i, color);
        self.depth_buffer.set(i, depth);
    }

    /// Offers a fragment to pixel `(x, y)`: it is stored when its depth is
    /// strictly below the pixel's, and the result says whether it was.
    pub fn write_fragment(&mut self, x: u32, y: u32, color: C, depth: u32) -> (written: bool)
        requires
            old(self).wf(),
            x < old(self).spec_width(),
            y < old(self).spec_height(),
        ensures
            final(self).wf(),
            final(self).spec_width() == old(self).spec_width(),
            final(self).spec_height() == old(self).spec_height(),
            written == (depth < old(self).depths()[pixel_index(
                x as int,
                y as int,
                old(self).spec_width() as int,
            )]),
            (final(self).colors(), final(self).depths()) == fragment_applied(
                old(self).colors(),
                old(self).depths(),
                pixel_index(x as int, y as int, old(self).spec_width() as int),
                color,
                depth,
            ),
    {
        if self.depth_passes(x, y, depth) {
            self.set_pixel(x, y, color, depth);
            true
        } else {
            false
        }
    }

    /// Whether a fragment at depth `depth` is nearer than what pixel `(x, y)` holds.
    pub fn depth_passes(&self, x: u32, y: u32, depth: u32) -> (r: bool)
        requires
            self.wf(),
            x < self.spec_width(),
            y < self.spec_height(),
        ensures
            r == (depth < self.depths()[pixel_index(x as int, y as int, self.spec_width() as int)]),
    {
        depth < self.get_pixel_depth(x, y)
    }

    /// The color at pixel `(x, y)`.
    pub fn get_pixel_color(&self, x: u32, y: u32) -> (r: C)
        requires
            self.wf(),
            x < self.spec_width(),
            y < self.spec_height(),
        ensures
            r == self.colors()[pixel_index(x as int, y as int, self.spec_width() as int)],
    {
        let i = self.index_of(x, y);
        self.color_buffer[i]
    }

    /// The depth key at pixel `(x, y)`.
    pub fn get_pixel_depth(&self, x: u32, y: u32) -> (r: u32)
        requires
            self.wf(),
            x < self.spec_width(),
            y < self.spec_height(),
        ensures
            r == self.depths()[pixel_index(x as int, y as int, self.spec_width() as int)],
    {
        let i = self.index_of(x, y);
        self.depth_buffer[i]
    }

    /// All colors, row by row.
    pub fn color_buffer(&self) -> (r: &[C])
        ensures
            r@ == self.colors(),
    {
        self.color_buffer.as_slice()
    }

    pub fn width(&self) -> (r: u32)
        ensures
            r == self.spec_width(),
    {
        self.width
    }

    pub fn height(&self) -> (r: u32)
        ensures
            r == self.spec_height(),
    {
        self.height
    }

    fn index_of(&self, x: u32, y: u32) -> (r: usize)
        requires
            self.wf(),
            x < self.spec_width(),
            y < self.spec_height(),
        ensures
            r == pixel_index(x as int, y as int, self.spec_width() as int),
            r < self.colors().len(),
    {
        proof {
            lemma_pixel_index_bounds(x as int, y as int, self.width as int, self.height as int);
        }
        (y * self.width + x) as usize
    }
}

} // verus!
