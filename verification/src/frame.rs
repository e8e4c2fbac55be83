//! Frames as a backend hands them over, and the geometry of a capture source.

use crate::pixel::Bgr8;
use vstd::prelude::*;

verus! {

/// Where a capture source lies and how large it is, in pixels. The offset is
/// taken from the origin of the primary display.
#[derive(Clone, Copy, Debug, PartialEq, Eq, Structural)]
pub struct Geometry {
    pub x: i32,
    pub y: i32,
    pub width: u32,
    pub height: u32,
}

impl Geometry {
    /// The number of pixels in the area.
    pub open spec fn area(self) -> nat {
        (self.width * self.height) as nat
    }

    /// The same place with another size.
    pub open spec fn resized(self, width: u32, height: u32) -> Geometry {
        Geometry { x: self.x, y: self.y, width, height }
    }
}

/// One captured image as a backend returned it: the pixels row by row from the
/// top left, and the width and height the backend reported with them.
#[derive(Clone, Debug, PartialEq, Eq)]
pub struct Frame {
    pub pixels: Vec<Bgr8>,
    pub width: usize,
    pub height: usize,
}

impl Frame {
    /// A frame is complete when it holds one pixel for each place in its area
    /// and its sides fit the 32 bits that a geometry has for them.
    pub open spec fn complete(&self) -> bool {
        &&& self.width <= u32::MAX
        &&& self.height <= u32::MAX
        &&& self.pixels@.len() == self.width * self.height
    }

    /// Tells whether the frame is complete.
    pub fn is_complete(&self) -> (whole: bool)
        ensures
            whole == self.complete(),
    {
        if self.width > u32::MAX as usize || self.height > u32::MAX as usize {
            return false;
        }
        assert(self.width * self.height <= u64::MAX) by (nonlinear_arith)
            requires
                self.width <= u32::MAX,
                self.height <= u32::MAX,
        ;
        let area: u64 = (self.width as u64) * (self.height as u64);
        self.pixels.len() as u64 == area
    }
}

} // verus!
