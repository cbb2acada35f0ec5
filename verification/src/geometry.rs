//! Rectangles in pixel coordinates and the header snapshot of a codestream.

use vstd::prelude::*;

verus! {

/// A rectangle in image pixel coordinates at the requested decode resolution.
#[derive(Debug, Clone, Copy, PartialEq, Eq, Structural)]
pub struct Region {
    pub x: u32,
    pub y: u32,
    pub width: u32,
    pub height: u32,
}

/// Header metadata of one codestream: full-resolution extent, tiling grid and
/// the number of wavelet decomposition levels.
#[derive(Debug, Clone, Copy, PartialEq, Eq, Structural)]
pub struct Info {
    pub width: u32,
    pub height: u32,
    pub tile_width: u32,
    pub tile_height: u32,
    pub dwt_levels: u32,
}

impl Region {
    /// A region covers at least one pixel.
    pub open spec fn well_formed(self) -> bool {
        self.width > 0 && self.height > 0
    }

    /// The column just past the right edge.
    pub open spec fn right(self) -> int {
        self.x + self.width
    }

    /// The row just past the bottom edge.
    pub open spec fn bottom(self) -> int {
        self.y + self.height
    }

    /// Every pixel of `self` is a pixel of `outer`.
    pub open spec fn within(self, outer: Region) -> bool {
        &&& outer.x <= self.x
        &&& outer.y <= self.y
        &&& self.right() <= outer.right()
        &&& self.bottom() <= outer.bottom()
    }

    /// The region lies inside an image of the given extent.
    pub open spec fn fits(self, width: u32, height: u32) -> bool {
        self.right() <= width && self.bottom() <= height
    }
}

impl Default for Region {
    fn default() -> (r: Region)
        ensures
            r == (Region { x: 0, y: 0, width: 0, height: 0 }),
    {
        Region { x: 0, y: 0, width: 0, height: 0 }
    }
}

} // verus!
