//! Packing of 8-bit color channels into the window's 32-bit pixels, and the row
//! order of the window, whose first row is the image's last.

use vstd::prelude::*;

verus! {

/// The pixel `0x00RRGGBB` of channels `r`, `g`, `b`, each at most 255.
pub fn pack_rgb(r: u32, g: u32, b: u32) -> (p: u32)
    requires
        r <= 255,
        g <= 255,
        b <= 255,
    ensures
        p == r * 65536 + g * 256 + b,
{
    assert((r << 16u32) | (g << 8u32) | b == r * 65536 + g * 256 + b) by (bit_vector)
        requires
            r <= 255,
            g <= 255,
            b <= 255,
    ;
    (r << 16) | (g << 8) | b
}

/// The image row shown as window row `window_y` of a window `height` rows tall.
pub fn source_row(window_y: usize, height: usize) -> (r: usize)
    requires
        window_y < height,
    ensures
        r == height - 1 - window_y,
        r < height,
{
    height - 1 - window_y
}

} // verus!
