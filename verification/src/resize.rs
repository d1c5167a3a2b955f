//! The size that a card's image is scaled to.

use vstd::prelude::*;

verus! {

/// Width and height, in pixels, of a scaled image that lies on its side.
pub const LANDSCAPE_SIZE: (u32, u32) = (325, 227);

/// Width and height, in pixels, of a scaled image that stands upright.
pub const PORTRAIT_SIZE: (u32, u32) = (245, 350);

/// The size that an image of the given width and height is scaled to: the
/// landscape size where it is wider than high, else the portrait size.
pub fn target_size(width: u32, height: u32) -> (size: (u32, u32))
    ensures
        size == if width > height {
            LANDSCAPE_SIZE
        } else {
            PORTRAIT_SIZE
        },
{
    if width > height {
        LANDSCAPE_SIZE
    } else {
        PORTRAIT_SIZE
    }
}

} // verus!
