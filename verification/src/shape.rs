//! Size and rectangle readings of the vector types: a two-vector read
//! as width and height, a four-vector read as the four edges of an
//! axis-aligned box.

use vstd::prelude::*;
use crate::math::{Vector2, Vector4};

verus! {

/// Something with a width and a height.
pub trait Size<T> {
    /// The horizontal extent.
    fn width(&self) -> T;

    /// The vertical extent.
    fn height(&self) -> T;
}

impl<T: Copy> Size<T> for Vector2<T> {
    fn width(&self) -> (r: T)
        ensures
            r == self.x,
    {
        self.x
    }

    fn height(&self) -> (r: T)
        ensures
            r == self.y,
    {
        self.y
    }
}

/// Something with four edges: top, bottom, left and right.
pub trait Rectangle<T> {
    /// The top edge.
    fn top(&self) -> T;

    /// The bottom edge.
    fn bottom(&self) -> T;

    /// The left edge.
    fn left(&self) -> T;

    /// The right edge.
    fn right(&self) -> T;
}

impl<T: Copy> Rectangle<T> for Vector4<T> {
    fn top(&self) -> (r: T)
        ensures
            r == self.x,
    {
        self.x
    }

    fn bottom(&self) -> (r: T)
        ensures
            r == self.y,
    {
        self.y
    }

    fn left(&self) -> (r: T)
        ensures
            r == self.z,
    {
        self.z
    }

    fn right(&self) -> (r: T)
        ensures
            r == self.w,
    {
        self.w
    }
}

} // verus!
