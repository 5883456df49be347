//! Failure kinds of the capture core.

use vstd::prelude::*;

verus! {

/// Why a region does not fit the monitor it is applied to.
#[derive(Debug, Clone, Copy, PartialEq, Eq, Structural)]
pub enum BoundsError {
    /// The region is zero pixels wide or zero pixels high.
    EmptyExtent,
    /// `left + width` reaches past the right edge.
    ExceedsWidth,
    /// `top + height` reaches past the bottom edge.
    ExceedsHeight,
}

/// Every way a capture operation can fail.
#[derive(Debug, Clone, Copy, PartialEq, Eq, Structural)]
pub enum Error {
    /// The operating system could not enumerate the displays.
    Enumeration,
    /// The requested monitor, or the primary display, does not exist.
    NotFound,
    /// A capture mechanism is not available on this system.
    Unsupported,
    /// Creating or tearing down an operating-system resource failed.
    Resource,
    /// A region failed validation against the current monitor geometry.
    Bounds(BoundsError),
    /// The destination cannot hold the frame and cannot grow.
    BufferTooSmall,
    /// No frame became available, or the frame source is in a state it
    /// cannot recover from.
    Acquisition,
    /// The source image does not match its own description.
    InvalidData,
}

impl BoundsError {
    /// The cause, in words.
    pub open spec fn cause(self) -> Seq<char> {
        match self {
            BoundsError::EmptyExtent => "width or height cannot be 0"@,
            BoundsError::ExceedsWidth => "Region out of bounds: left + width > full_width"@,
            BoundsError::ExceedsHeight => "Region out of bounds: top + height > full_height"@,
        }
    }

    pub fn message(&self) -> (text: &'static str)
        ensures
            text@ == self.cause(),
    {
        match self {
            BoundsError::EmptyExtent => "width or height cannot be 0",
            BoundsError::ExceedsWidth => "Region out of bounds: left + width > full_width",
            BoundsError::ExceedsHeight => "Region out of bounds: top + height > full_height",
        }
    }
}

impl Error {
    /// The cause, in words.
    pub open spec fn cause(self) -> Seq<char> {
        match self {
            Error::Enumeration => "Display enumeration failed"@,
            Error::NotFound => "Monitor not found"@,
            Error::Unsupported => "Capture mechanism is not supported"@,
            Error::Resource => "Capture resource could not be created or released"@,
            Error::Bounds(e) => e.cause(),
            Error::BufferTooSmall => "Buffer is too small to hold the frame data"@,
            Error::Acquisition => "No frame could be acquired"@,
            Error::InvalidData => "Source image does not match its description"@,
        }
    }

    pub fn message(&self) -> (text: &'static str)
        ensures
            text@ == self.cause(),
    {
        match self {
            Error::Enumeration => "Display enumeration failed",
            Error::NotFound => "Monitor not found",
            Error::Unsupported => "Capture mechanism is not supported",
            Error::Resource => "Capture resource could not be created or released",
            Error::Bounds(e) => e.message(),
            Error::BufferTooSmall => "Buffer is too small to hold the frame data",
            Error::Acquisition => "No frame could be acquired",
            Error::InvalidData => "Source image does not match its description",
        }
    }
}

} // verus!
