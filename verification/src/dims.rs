use vstd::prelude::*;
use crate::rational::Rat;

verus! {

/// A 2D extent in whole pixels: the library's dimension type for render
/// and display sizes.
#[derive(Clone, Copy, Debug, PartialEq, Eq, Structural)]
pub struct Resolution {
    pub width: u32,
    pub height: u32,
}

impl Resolution {
    pub fn new(width: u32, height: u32) -> (r: Resolution)
        ensures
            r.width == width,
            r.height == height,
    {
        Resolution { width, height }
    }

    /// Componentwise `<=`: this extent fits inside `other`.
    pub open spec fn spec_fits_in(self, other: Resolution) -> bool {
        self.width <= other.width && self.height <= other.height
    }

    pub fn fits_in(&self, other: &Resolution) -> (b: bool)
        ensures
            b == self.spec_fits_in(*other),
    {
        self.width <= other.width && self.height <= other.height
    }
}

/// A pair of exact rational coordinates: sub-pixel offsets and scales.
#[derive(Clone, Copy, Debug, PartialEq, Eq, Structural)]
pub struct Coords2 {
    pub x: Rat,
    pub y: Rat,
}

impl Coords2 {
    /// Validity: both coordinates have positive denominators.
    pub open spec fn wf(self) -> bool {
        self.x.wf() && self.y.wf()
    }

    pub fn new(x: Rat, y: Rat) -> (r: Coords2)
        ensures
            r.x == x,
            r.y == y,
    {
        Coords2 { x, y }
    }

    /// The scale `(1, 1)`: the default motion-vector scale.
    pub fn one_one() -> (r: Coords2)
        ensures
            r.wf(),
            r.x.num == 1 && r.x.den == 1,
            r.y.num == 1 && r.y.den == 1,
    {
        Coords2 { x: Rat::one(), y: Rat::one() }
    }
}

} // verus!
