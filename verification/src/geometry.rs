//! Rectangles on a sheet, in pixels.

use vstd::prelude::*;

verus! {

/// An axis-aligned rectangle given by its two extreme corners.
#[derive(Clone, Copy, Debug, PartialEq, Eq, Structural)]
pub struct Rect {
    pub min_x: u32,
    pub min_y: u32,
    pub max_x: u32,
    pub max_y: u32,
}

pub open spec fn spec_min(a: u32, b: u32) -> u32 {
    if a <= b { a } else { b }
}

pub open spec fn spec_max(a: u32, b: u32) -> u32 {
    if a <= b { b } else { a }
}

/// The rectangle spanned by two opposite corners, in either order.
pub open spec fn spanned(x0: u32, y0: u32, x1: u32, y1: u32) -> Rect {
    Rect {
        min_x: spec_min(x0, x1),
        min_y: spec_min(y0, y1),
        max_x: spec_max(x0, x1),
        max_y: spec_max(y0, y1),
    }
}

/// Calls `bevy::math::URect::from_corners` on the points `(x0, y0)` and
/// `(x1, y1)`. Trusted: the result's minimum corner is the component-wise
/// minimum of the two points and its maximum corner their component-wise
/// maximum.
#[verifier::external_body]
fn rect_from_corners(x0: u32, y0: u32, x1: u32, y1: u32) -> (r: Rect)
    ensures
        r == spanned(x0, y0, x1, y1),
{
    let r = bevy::math::URect::from_corners(
        bevy::math::UVec2::new(x0, y0),
        bevy::math::UVec2::new(x1, y1),
    );
    Rect { min_x: r.min.x, min_y: r.min.y, max_x: r.max.x, max_y: r.max.y }
}

impl Rect {
    /// The rectangle whose corners are `(x, y)` and `(x + width, y + height)`,
    /// or `None` where a sum does not fit in `u32`.
    pub open spec fn spec_from_region(x: u32, y: u32, width: u32, height: u32) -> Option<Rect> {
        if x + width <= u32::MAX && y + height <= u32::MAX {
            Some(Rect { min_x: x, min_y: y, max_x: (x + width) as u32, max_y: (y + height) as u32 })
        } else {
            None
        }
    }

    pub fn from_region(x: u32, y: u32, width: u32, height: u32) -> (r: Option<Rect>)
        ensures
            r == Self::spec_from_region(x, y, width, height),
    {
        match (x.checked_add(width), y.checked_add(height)) {
            (Some(x1), Some(y1)) => Some(rect_from_corners(x, y, x1, y1)),
            _ => None,
        }
    }
}

} // verus!
