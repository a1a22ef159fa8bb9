//! Coordinates, rectangles and canvas resolutions.
//!
//! All geometry lives on a fixed pixel grid. A rectangle is given by its
//! top-left and bottom-right corners; the covered pixel area is half-open on
//! both axes, so rectangles that share only an edge do not collide.

use vstd::prelude::*;

verus! {

/// The unit in which pixel coordinates, canvas resolutions and token
/// rectangles are measured.
pub type BlockSideLength = u16;

/// The side length of the allocation blocks a canvas is divided into; each
/// canvas dimension must be a positive multiple of it.
pub type MinBlockSideLength = BlockSideLength;

/// A pixel color.
pub type Color = u8;

/// Coordinates of a pixel on a canvas.
#[derive(Clone, Copy, PartialEq, Eq, Debug)]
pub struct Coordinates {
    pub x: BlockSideLength,
    pub y: BlockSideLength,
}

/// Corners of a token territory on a canvas.
///
/// A rectangle is well formed when the top-left corner lies strictly above
/// and to the left of the bottom-right corner, so every territory has a
/// positive area.
#[derive(Clone, Copy, PartialEq, Eq, Debug)]
pub struct Rectangle {
    pub top_left_corner: Coordinates,
    pub bottom_right_corner: Coordinates,
}

/// Width and height of a canvas, in pixels.
#[derive(Clone, Copy, PartialEq, Eq, Debug)]
pub struct Resolution {
    pub width: BlockSideLength,
    pub height: BlockSideLength,
}

impl Rectangle {
    /// The rectangle's corners are ordered: strictly, on both axes, so the
    /// area is positive.
    pub open spec fn corners_ordered(self) -> bool {
        self.top_left_corner.x < self.bottom_right_corner.x
            && self.top_left_corner.y < self.bottom_right_corner.y
    }

    /// The rectangle lies fully inside a canvas of the given resolution.
    pub open spec fn fits_in(self, resolution: Resolution) -> bool {
        self.bottom_right_corner.x <= resolution.width
            && self.bottom_right_corner.y <= resolution.height
    }

    /// Ordered corners and inside the canvas: what every minted territory
    /// satisfies.
    pub open spec fn valid_in(self, resolution: Resolution) -> bool {
        self.corners_ordered() && self.fits_in(resolution)
    }

    pub open spec fn spec_width(self) -> int {
        self.bottom_right_corner.x - self.top_left_corner.x
    }

    pub open spec fn spec_height(self) -> int {
        self.bottom_right_corner.y - self.top_left_corner.y
    }

    /// The number of pixels the rectangle covers.
    pub open spec fn area(self) -> int {
        self.spec_width() * self.spec_height()
    }

    /// The half-open pixel footprint: column `x`, row `y` lies under the
    /// rectangle.
    pub open spec fn covers(self, x: int, y: int) -> bool {
        self.top_left_corner.x <= x < self.bottom_right_corner.x
            && self.top_left_corner.y <= y < self.bottom_right_corner.y
    }

    /// Axis-aligned open-interval intersection: the two footprints share at
    /// least one pixel. Rectangles that share only an edge do not overlap.
    pub open spec fn overlaps(self, other: Rectangle) -> bool {
        self.top_left_corner.x < other.bottom_right_corner.x
            && other.top_left_corner.x < self.bottom_right_corner.x
            && self.top_left_corner.y < other.bottom_right_corner.y
            && other.top_left_corner.y < self.bottom_right_corner.y
    }

    pub fn width(&self) -> (w: BlockSideLength)
        requires
            self.top_left_corner.x <= self.bottom_right_corner.x,
        ensures
            w == self.spec_width(),
    {
        self.bottom_right_corner.x - self.top_left_corner.x
    }

    pub fn height(&self) -> (h: BlockSideLength)
        requires
            self.top_left_corner.y <= self.bottom_right_corner.y,
        ensures
            h == self.spec_height(),
    {
        self.bottom_right_corner.y - self.top_left_corner.y
    }

    /// The rectangle's area as a machine integer; a canvas never holds more
    /// than `u16::MAX * u16::MAX` pixels, so the product fits easily.
    pub fn area_pixels(&self) -> (a: u64)
        requires
            self.corners_ordered(),
        ensures
            a == self.area(),
    {
        let w = self.width();
        let h = self.height();
        proof {
            vstd::arithmetic::mul::lemma_mul_upper_bound(w as int, 0xFFFF, h as int, 0xFFFF);
        }
        (w as u64) * (h as u64)
    }

    /// Whether the corners are ordered and the rectangle lies inside the
    /// canvas.
    pub fn is_valid_in(&self, resolution: &Resolution) -> (b: bool)
        ensures
            b == self.valid_in(*resolution),
    {
        self.top_left_corner.x < self.bottom_right_corner.x
            && self.top_left_corner.y < self.bottom_right_corner.y
            && self.bottom_right_corner.x <= resolution.width
            && self.bottom_right_corner.y <= resolution.height
    }

    /// Whether the two footprints intersect.
    pub fn intersects(&self, other: &Rectangle) -> (b: bool)
        ensures
            b == self.overlaps(*other),
    {
        self.top_left_corner.x < other.bottom_right_corner.x
            && other.top_left_corner.x < self.bottom_right_corner.x
            && self.top_left_corner.y < other.bottom_right_corner.y
            && other.top_left_corner.y < self.bottom_right_corner.y
    }

    /// Whether the pixel at `point` lies under the rectangle.
    pub fn contains_point(&self, point: &Coordinates) -> (b: bool)
        ensures
            b == self.covers(point.x as int, point.y as int),
    {
        self.top_left_corner.x <= point.x && point.x < self.bottom_right_corner.x
            && self.top_left_corner.y <= point.y && point.y < self.bottom_right_corner.y
    }
}

/// Overlap is symmetric.
pub proof fn lemma_overlap_symmetric(a: Rectangle, b: Rectangle)
    ensures
        a.overlaps(b) == b.overlaps(a),
{
}

/// A pixel lying under two rectangles witnesses their overlap; with it, a
/// point query over pairwise non-overlapping rectangles can name at most one.
pub proof fn lemma_shared_point_overlaps(a: Rectangle, b: Rectangle, x: int, y: int)
    requires
        a.covers(x, y),
        b.covers(x, y),
    ensures
        a.overlaps(b),
{
}

impl From<(BlockSideLength, BlockSideLength)> for Coordinates {
    /// Builds coordinates from an `(x, y)` pair.
    fn from(pair: (BlockSideLength, BlockSideLength)) -> (c: Self) {
        Coordinates { x: pair.0, y: pair.1 }
    }
}

impl vstd::std_specs::convert::FromSpecImpl<(BlockSideLength, BlockSideLength)> for Coordinates {
    open spec fn obeys_from_spec() -> bool {
        true
    }

    open spec fn from_spec(pair: (BlockSideLength, BlockSideLength)) -> Self {
        Coordinates { x: pair.0, y: pair.1 }
    }
}

impl From<((BlockSideLength, BlockSideLength), (BlockSideLength, BlockSideLength))> for Rectangle {
    /// Builds a rectangle from its `(top-left, bottom-right)` corner pairs.
    fn from(
        corners: ((BlockSideLength, BlockSideLength), (BlockSideLength, BlockSideLength)),
    ) -> (r: Self) {
        Rectangle {
            top_left_corner: Coordinates { x: corners.0.0, y: corners.0.1 },
            bottom_right_corner: Coordinates { x: corners.1.0, y: corners.1.1 },
        }
    }
}

impl vstd::std_specs::convert::FromSpecImpl<((BlockSideLength, BlockSideLength), (BlockSideLength, BlockSideLength))> for Rectangle {
    open spec fn obeys_from_spec() -> bool {
        true
    }

    open spec fn from_spec(
        corners: ((BlockSideLength, BlockSideLength), (BlockSideLength, BlockSideLength)),
    ) -> Self {
        Rectangle {
            top_left_corner: Coordinates { x: corners.0.0, y: corners.0.1 },
            bottom_right_corner: Coordinates { x: corners.1.0, y: corners.1.1 },
        }
    }
}

impl From<(BlockSideLength, BlockSideLength)> for Resolution {
    /// Builds a resolution from a `(width, height)` pair.
    fn from(pair: (BlockSideLength, BlockSideLength)) -> (r: Self) {
        Resolution { width: pair.0, height: pair.1 }
    }
}

impl vstd::std_specs::convert::FromSpecImpl<(BlockSideLength, BlockSideLength)> for Resolution {
    open spec fn obeys_from_spec() -> bool {
        true
    }

    open spec fn from_spec(pair: (BlockSideLength, BlockSideLength)) -> Self {
        Resolution { width: pair.0, height: pair.1 }
    }
}

} // verus!
