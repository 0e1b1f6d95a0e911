//! Two-dimensional user-interface geometry.
//!
//! The host's 2D coordinate system has its origin in the lower left corner
//! of the window, with units of pixels.

use vstd::prelude::*;

verus! {

/// A 2D point
#[derive(Debug, Copy, Clone)]
pub struct Point<N> {
    /// The X coordinate
    pub x: N,
    /// The Y coordinate
    pub y: N,
}

impl<N> Point<N> {
    /// Creates a point from X and Y coordinates
    pub fn from_xy(x: N, y: N) -> (r: Self)
        ensures
            r.x == x,
            r.y == y,
    {
        Point { x, y }
    }

    /// Replaces the X coordinate
    pub fn set_x(&mut self, x: N)
        ensures
            final(self).x == x,
            final(self).y == old(self).y,
    {
        self.x = x;
    }

    /// Replaces the Y coordinate
    pub fn set_y(&mut self, y: N)
        ensures
            final(self).x == old(self).x,
            final(self).y == y,
    {
        self.y = y;
    }

    /// Consumes this point and returns its X and Y coordinates
    pub fn into_xy(self) -> (r: (N, N))
        ensures
            r.0 == self.x,
            r.1 == self.y,
    {
        (self.x, self.y)
    }
}

impl<N: Copy> Point<N> {
    /// Returns the X coordinate
    pub fn x(&self) -> (r: N)
        ensures
            r == self.x,
    {
        self.x
    }

    /// Returns the Y coordinate
    pub fn y(&self) -> (r: N)
        ensures
            r == self.y,
    {
        self.y
    }
}

/// A 2-dimensional rectangle
#[derive(Debug, Copy, Clone)]
pub struct Rect<N> {
    /// The top coordinate
    pub top: N,
    /// The bottom coordinate
    pub bottom: N,
    /// The left coordinate
    pub left: N,
    /// The right coordinate
    pub right: N,
}

impl<N> Rect<N> {
    /// Creates a rectangle from left, top, right, and bottom coordinates
    pub fn from_left_top_right_bottom(left: N, top: N, right: N, bottom: N) -> (r: Self)
        ensures
            r.left == left,
            r.top == top,
            r.right == right,
            r.bottom == bottom,
    {
        Rect { top, bottom, left, right }
    }

    /// Creates a rectangle from a top left corner and a bottom right corner
    pub fn from_corners(top_left: Point<N>, bottom_right: Point<N>) -> (r: Self)
        ensures
            r.left == top_left.x,
            r.top == top_left.y,
            r.bottom == bottom_right.x,
            r.right == bottom_right.y,
    {
        let (left, top) = top_left.into_xy();
        let (bottom, right) = bottom_right.into_xy();
        Rect { top, bottom, left, right }
    }

    /// Consumes this rectangle and returns its left, top, bottom, and right
    /// coordinates
    pub fn into_left_top_bottom_right(self) -> (r: (N, N, N, N))
        ensures
            r.0 == self.left,
            r.1 == self.top,
            r.2 == self.bottom,
            r.3 == self.right,
    {
        (self.left, self.top, self.bottom, self.right)
    }

    /// Replaces the top coordinate
    pub fn set_top(&mut self, top: N)
        ensures
            *final(self) == (Rect { top, ..*old(self) }),
    {
        self.top = top;
    }

    /// Replaces the left coordinate
    pub fn set_left(&mut self, left: N)
        ensures
            *final(self) == (Rect { left, ..*old(self) }),
    {
        self.left = left;
    }

    /// Replaces the bottom coordinate
    pub fn set_bottom(&mut self, bottom: N)
        ensures
            *final(self) == (Rect { bottom, ..*old(self) }),
    {
        self.bottom = bottom;
    }

    /// Replaces the right coordinate
    pub fn set_right(&mut self, right: N)
        ensures
            *final(self) == (Rect { right, ..*old(self) }),
    {
        self.right = right;
    }
}

impl Rect<i32> {
    /// Determines whether this rectangle contains a point
    ///
    /// For this calculation, the bottom and left edges are inside the
    /// rectangle, while the top and right edges are outside.
    pub fn contains(&self, point: Point<i32>) -> (r: bool)
        ensures
            r == (point.x >= self.left && point.x < self.right && point.y >= self.bottom
                && point.y < self.top),
    {
        let (x, y) = point.into_xy();
        x >= self.left && x < self.right && y >= self.bottom && y < self.top
    }
}

impl<N: Copy> Rect<N> {
    /// Returns the top coordinate
    pub fn top(&self) -> (r: N)
        ensures
            r == self.top,
    {
        self.top
    }

    /// Returns the bottom coordinate
    pub fn bottom(&self) -> (r: N)
        ensures
            r == self.bottom,
    {
        self.bottom
    }

    /// Returns the left coordinate
    pub fn left(&self) -> (r: N)
        ensures
            r == self.left,
    {
        self.left
    }

    /// Returns the right coordinate
    pub fn right(&self) -> (r: N)
        ensures
            r == self.right,
    {
        self.right
    }
}

} // verus!
