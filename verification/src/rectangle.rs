//! An axis-aligned rectangle, the geometry primitive of the simulation.
//!
//! Coordinates are integer subpixel units, anchored at the top-left corner.
//! All edge tests are inclusive: rectangles that merely touch count as
//! intersecting, which lets the ball sit flush against a paddle surface.

use crate::units::{COORD_LIMIT, SIZE_LIMIT};
use vstd::prelude::*;

verus! {

/// The mathematical shape of a [`Rectangle`]: unbounded integer
/// coordinates, top-left anchored.
pub ghost struct RectShape {
    pub x: int,
    pub y: int,
    pub width: int,
    pub height: int,
}

/// An axis-aligned rectangle in subpixel units.
#[derive(Clone, Copy, Debug, PartialEq, Eq, Structural)]
pub struct Rectangle {
    pub x: i64,
    pub y: i64,
    pub width: i64,
    pub height: i64,
}

impl View for Rectangle {
    type V = RectShape;

    open spec fn view(&self) -> RectShape {
        RectShape {
            x: self.x as int,
            y: self.y as int,
            width: self.width as int,
            height: self.height as int,
        }
    }
}

/// A rectangle whose sides are nonnegative and whose coordinates are small
/// enough for the update rules to add them without overflow.
pub open spec fn rect_wf(r: RectShape) -> bool {
    &&& 0 <= r.width <= SIZE_LIMIT
    &&& 0 <= r.height <= SIZE_LIMIT
    &&& -COORD_LIMIT <= r.x <= COORD_LIMIT
    &&& -COORD_LIMIT <= r.y <= COORD_LIMIT
}

/// Inclusive overlap test on both axes.
pub open spec fn rects_intersect(a: RectShape, b: RectShape) -> bool {
    &&& a.x <= b.x + b.width
    &&& a.x + a.width >= b.x
    &&& a.y <= b.y + b.height
    &&& a.y + a.height >= b.y
}

/// Inclusive bounds test on both axes.
pub open spec fn rect_contains_point(r: RectShape, x: int, y: int) -> bool {
    &&& x >= r.x
    &&& x <= r.x + r.width
    &&& y >= r.y
    &&& y <= r.y + r.height
}

impl Rectangle {
    /// Creates a rectangle with its top-left corner at the given position.
    pub fn new(x: i64, y: i64, width: i64, height: i64) -> (r: Rectangle)
        ensures
            r@ == (RectShape {
                x: x as int,
                y: y as int,
                width: width as int,
                height: height as int,
            }),
    {
        Rectangle { x, y, width, height }
    }

    /// Creates a rectangle centered at the given position.  Odd sizes lose
    /// half a unit to truncation, exactly as hardware division does.
    pub fn new_centered(x: i64, y: i64, width: i64, height: i64) -> (r: Rectangle)
        requires
            0 <= width <= SIZE_LIMIT,
            0 <= height <= SIZE_LIMIT,
            -COORD_LIMIT <= x <= COORD_LIMIT,
            -COORD_LIMIT <= y <= COORD_LIMIT,
        ensures
            r@ == (RectShape {
                x: x - width / 2,
                y: y - height / 2,
                width: width as int,
                height: height as int,
            }),
    {
        proof {
            vstd::arithmetic::div_mod::lemma_div_nonincreasing(width as int, 2);
            vstd::arithmetic::div_mod::lemma_div_pos_is_pos(width as int, 2);
            vstd::arithmetic::div_mod::lemma_div_nonincreasing(height as int, 2);
            vstd::arithmetic::div_mod::lemma_div_pos_is_pos(height as int, 2);
        }
        let half_width = crate::units::div_trunc(width, 2);
        let half_height = crate::units::div_trunc(height, 2);
        Rectangle { x: x - half_width, y: y - half_height, width, height }
    }

    /// Tests whether `self` contains the given point, inclusive on all
    /// edges.
    pub fn contains_point(&self, x: i64, y: i64) -> (b: bool)
        requires
            0 <= self@.width,
            0 <= self@.height,
            self@.x + self@.width <= i64::MAX,
            self@.y + self@.height <= i64::MAX,
        ensures
            b == rect_contains_point(self@, x as int, y as int),
    {
        x >= self.x && x <= self.x + self.width && y >= self.y && y <= self.y + self.height
    }

    /// Tests whether `self` intersects the given rectangle, inclusive on
    /// all edges: touching rectangles intersect.
    pub fn intersects(&self, other: Rectangle) -> (b: bool)
        requires
            0 <= self@.width,
            0 <= self@.height,
            0 <= other@.width,
            0 <= other@.height,
            self@.x + self@.width <= i64::MAX,
            self@.y + self@.height <= i64::MAX,
            other@.x + other@.width <= i64::MAX,
            other@.y + other@.height <= i64::MAX,
        ensures
            b == rects_intersect(self@, other@),
    {
        self.x <= other.x + other.width && self.x + self.width >= other.x
            && self.y <= other.y + other.height && self.y + self.height >= other.y
    }
}

/// Intersection is symmetric: `A` intersects `B` exactly when `B`
/// intersects `A`.
pub proof fn lemma_intersects_symmetric(a: RectShape, b: RectShape)
    ensures
        rects_intersect(a, b) == rects_intersect(b, a),
{
}

/// A rectangle with nonnegative sides always intersects itself.
pub proof fn lemma_intersects_self(a: RectShape)
    requires
        a.width >= 0,
        a.height >= 0,
    ensures
        rects_intersect(a, a),
{
}

} // verus!
