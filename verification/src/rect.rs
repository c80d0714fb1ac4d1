use vstd::prelude::*;

verus! {

/// An axis-aligned rectangle with a width and a height in pixels.
#[derive(Debug)]
pub struct Rectangle {
    pub width: u32,
    pub height: u32,
}

impl Rectangle {
    /// The rectangle's area, exact whenever it fits the return type.
    pub fn area(&self) -> (r: u32)
        requires
            self.width * self.height <= u32::MAX,
        ensures
            r == self.width * self.height,
    {
        self.width * self.height
    }

    /// Whether `other` fits strictly inside `self` in both dimensions.
    pub fn can_hold(&self, other: &Rectangle) -> (r: bool)
        ensures
            r == (self.width > other.width && self.height > other.height),
    {
        self.width > other.width && self.height > other.height
    }

    /// A square whose sides are both `size`.
    pub fn square(size: u32) -> (r: Self)
        ensures
            r.width == size,
            r.height == size,
    {
        Self { width: size, height: size }
    }
}

} // verus!
