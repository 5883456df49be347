//! Rectangles in monitor pixel space.

use crate::error::BoundsError;
use vstd::prelude::*;

verus! {

/// A rectangle in the pixel space of one monitor. Building one checks
/// nothing; it is validated against a monitor size at the moment it is used.
#[derive(Copy, Clone, Eq, PartialEq, Debug, Structural)]
pub struct Region {
    pub left: u32,
    pub top: u32,
    pub width: u32,
    pub height: u32,
}

impl Region {
    /// Whether the region is non-empty and lies inside a monitor of
    /// `full_width` x `full_height` pixels.
    pub open spec fn fits(self, full_width: nat, full_height: nat) -> bool {
        &&& self.width > 0
        &&& self.height > 0
        &&& self.left + self.width <= full_width
        &&& self.top + self.height <= full_height
    }

    /// The first rule the region breaks against the given monitor size, in
    /// the order empty extent, width, height; `Ok` if it breaks none.
    pub open spec fn verdict(self, full_width: nat, full_height: nat) -> Result<(), BoundsError> {
        if self.width == 0 || self.height == 0 {
            Err(BoundsError::EmptyExtent)
        } else if self.left + self.width > full_width {
            Err(BoundsError::ExceedsWidth)
        } else if self.top + self.height > full_height {
            Err(BoundsError::ExceedsHeight)
        } else {
            Ok(())
        }
    }

    pub fn new(left: u32, top: u32, width: u32, height: u32) -> (region: Self)
        ensures
            region == (Region { left, top, width, height }),
    {
        Region { left, top, width, height }
    }

    /// Validates the region against the full size of the monitor it is
    /// about to be used on.
    pub fn check(&self, full_width: u32, full_height: u32) -> (res: Result<(), BoundsError>)
        ensures
            res == self.verdict(full_width as nat, full_height as nat),
            res is Ok <==> self.fits(full_width as nat, full_height as nat),
    {
        if self.width == 0 || self.height == 0 {
            return Err(BoundsError::EmptyExtent);
        }
        if self.left as u64 + self.width as u64 > full_width as u64 {
            return Err(BoundsError::ExceedsWidth);
        }
        if self.top as u64 + self.height as u64 > full_height as u64 {
            return Err(BoundsError::ExceedsHeight);
        }
        Ok(())
    }
}

} // verus!
