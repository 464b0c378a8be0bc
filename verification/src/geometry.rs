//! Target geometry for thumbnails: a fixed output width, and an output
//! height derived from the source dimensions so that the aspect ratio of
//! the source is preserved.

use vstd::prelude::*;

verus! {

/// Fixed width, in pixels, of every generated thumbnail.
pub const TARGET_WIDTH: u32 = 100;

/// The height that keeps the aspect ratio of a `src_w x src_h` source
/// when the width is scaled to `target_w`: `floor(target_w * src_h / src_w)`,
/// truncating toward zero.
pub open spec fn scaled_height(src_w: int, src_h: int, target_w: int) -> int
    recommends
        src_w > 0,
{
    (target_w * src_h) / src_w
}

/// Compute the thumbnail height for a source of `src_w x src_h` pixels.
/// The result is returned as a `u64` so that no source dimensions make it
/// overflow; the caller decides what to do when it does not fit a `u32`.
pub fn target_height(src_w: u32, src_h: u32) -> (h: u64)
    requires
        src_w > 0,
    ensures
        h == scaled_height(src_w as int, src_h as int, TARGET_WIDTH as int),
{
    let scaled: u64 = 100u64 * (src_h as u64);
    scaled / (src_w as u64)
}

} // verus!
