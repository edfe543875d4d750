//! Pixel format conversion between the renderer's RGBA8 readback layout and
//! the packed 32-bit ARGB layout that bitmap surfaces expect.

use vstd::prelude::*;

verus! {

/// One packed ARGB pixel: alpha in the top byte, then red, green, blue.
pub open spec fn pack_argb(a: u8, r: u8, g: u8, b: u8) -> u32 {
    ((a as u32) << 24) | ((r as u32) << 16) | ((g as u32) << 8) | (b as u32)
}

/// The packed pixel for index `k` of an RGBA8 byte sequence.
pub open spec fn argb_pixel_of(rgba: Seq<u8>, k: int) -> u32 {
    pack_argb(rgba[4 * k + 3], rgba[4 * k], rgba[4 * k + 1], rgba[4 * k + 2])
}

/// Repacks an RGBA8 readback buffer into one `u32` per pixel, alpha in the
/// top byte, as bitmap surfaces store it.
pub fn rgba_to_argb(rgba: &Vec<u8>) -> (out: Vec<u32>)
    requires
        rgba@.len() % 4 == 0,
    ensures
        out@.len() == rgba@.len() / 4,
        forall|k: int| 0 <= k < out@.len() ==> out@[k] == argb_pixel_of(rgba@, k),
{
    let pixel_count: usize = rgba.len() / 4;
    let mut out: Vec<u32> = Vec::new();
    let mut k: usize = 0;
    while k < pixel_count
        invariant
            k <= pixel_count,
            rgba@.len() <= usize::MAX,
            pixel_count == rgba@.len() / 4,
            rgba@.len() % 4 == 0,
            out@.len() == k,
            forall|j: int| 0 <= j < k ==> out@[j] == argb_pixel_of(rgba@, j),
        decreases pixel_count - k,
    {
        let r = rgba[4 * k];
        let g = rgba[4 * k + 1];
        let b = rgba[4 * k + 2];
        let a = rgba[4 * k + 3];
        let pixel: u32 = ((a as u32) << 24) | ((r as u32) << 16) | ((g as u32) << 8) | (b as u32);
        out.push(pixel);
        k = k + 1;
    }
    out
}

} // verus!
