//! Points, sizes and rectangles in whole pixels.

use vstd::prelude::*;

verus! {

/// A length or coordinate, in whole logical pixels.
#[derive(Clone, Copy, Debug, PartialEq, Eq, Hash, PartialOrd, Ord, Default)]
pub struct Pixels(pub i32);

#[derive(Debug, PartialEq, Eq, Default)]
pub struct Point<T> {
    pub x: T,
    pub y: T,
}

impl<T: Copy> Clone for Point<T> {
    fn clone(&self) -> (r: Self)
        ensures
            r == *self,
    {
        *self
    }
}

impl<T: Copy> Copy for Point<T> {

}

#[derive(Debug, PartialEq, Eq, Default)]
pub struct Size<T> {
    pub width: T,
    pub height: T,
}

impl<T: Copy> Clone for Size<T> {
    fn clone(&self) -> (r: Self)
        ensures
            r == *self,
    {
        *self
    }
}

impl<T: Copy> Copy for Size<T> {

}

/// An axis-aligned rectangle: its top-left corner and its extent.
#[derive(Debug, PartialEq, Eq, Default)]
pub struct Bounds<T> {
    pub origin: Point<T>,
    pub size: Size<T>,
}

impl<T: Copy> Clone for Bounds<T> {
    fn clone(&self) -> (r: Self)
        ensures
            r == *self,
    {
        *self
    }
}

impl<T: Copy> Copy for Bounds<T> {

}

pub fn px(pixels: i32) -> (r: Pixels)
    ensures
        r == Pixels(pixels),
{
    Pixels(pixels)
}

pub fn point<T>(x: T, y: T) -> (r: Point<T>)
    ensures
        r == (Point { x, y }),
{
    Point { x, y }
}

pub fn size<T>(width: T, height: T) -> (r: Size<T>)
    ensures
        r == (Size { width, height }),
{
    Size { width, height }
}

impl Bounds<Pixels> {
    /// A point lies in the rectangle when it is at or past the origin and
    /// strictly before the far edge on both axes. Stated over the integers,
    /// so a far edge beyond `i32::MAX` is still an edge.
    pub open spec fn contains(self, p: Point<Pixels>) -> bool {
        &&& self.origin.x.0 <= p.x.0 < self.origin.x.0 + self.size.width.0
        &&& self.origin.y.0 <= p.y.0 < self.origin.y.0 + self.size.height.0
    }

    pub fn contains_point(&self, p: &Point<Pixels>) -> (r: bool)
        ensures
            r == self.contains(*p),
    {
        let right: i64 = self.origin.x.0 as i64 + self.size.width.0 as i64;
        let bottom: i64 = self.origin.y.0 as i64 + self.size.height.0 as i64;
        self.origin.x.0 <= p.x.0 && (p.x.0 as i64) < right && self.origin.y.0 <= p.y.0 && (
        p.y.0 as i64) < bottom
    }
}

} // verus!
