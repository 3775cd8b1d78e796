use vstd::prelude::*;

verus! {

#[derive(Debug)]
pub struct Rectangle {
    pub width: u32,
    pub height: u32,
}

/// The area of a rectangle handed in as one value instead of two numbers.
pub fn area(dimensions: &Rectangle) -> (a: u32)
    requires
        dimensions.width * dimensions.height <= u32::MAX,
    ensures
        a == dimensions.width * dimensions.height,
{
    dimensions.width * dimensions.height
}

impl Rectangle {
    /// The same area, as a method on the rectangle itself.
    pub fn area(&self) -> (a: u32)
        requires
            self.width * self.height <= u32::MAX,
        ensures
            a == self.width * self.height,
    {
        self.width * self.height
    }

    /// Whether the rectangle has a nonzero width.
    pub fn width(&self) -> (nonzero: bool)
        ensures
            nonzero == (self.width > 0),
    {
        self.width > 0
    }

    /// Whether this rectangle is strictly wider and taller than the other,
    /// so the other fits inside it.
    pub fn can_hold(&self, other: &Rectangle) -> (fits: bool)
        ensures
            fits == (self.width > other.width && self.height > other.height),
    {
        self.width > other.width && self.height > other.height
    }

    /// A square: both sides take the one size given.
    pub fn square(size: u32) -> (sq: Self)
        ensures
            sq.width == size,
            sq.height == size,
    {
        Self { width: size, height: size }
    }
}

} // verus!
