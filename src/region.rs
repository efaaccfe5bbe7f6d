use vstd::prelude::*;

verus! {

/// A rectangle of compositor pixel coordinates to be captured.
#[derive(Clone, Copy, Debug, PartialEq, Eq, Structural)]
pub struct CaptureRegion {
    pub x: i32,
    pub y: i32,
    pub width: u32,
    pub height: u32,
}

impl CaptureRegion {
    /// A region is valid when it covers at least one pixel.
    pub open spec fn is_valid(&self) -> bool {
        self.width > 0 && self.height > 0
    }

    pub fn new(x: i32, y: i32, width: u32, height: u32) -> (r: CaptureRegion)
        ensures
            r == (CaptureRegion { x, y, width, height }),
    {
        CaptureRegion { x, y, width, height }
    }

    pub fn valid(&self) -> (b: bool)
        ensures
            b == self.is_valid(),
    {
        self.width > 0 && self.height > 0
    }
}

} // verus!
