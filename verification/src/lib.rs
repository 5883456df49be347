//! Capture core for raw display frames: pixel layouts, region validation,
//! stride-aware conversion out of packed BGRA, and the decision logic that
//! selects and drives a capture backend.
//!
//! The operating system is not called from here. An adapter around this
//! library acquires frames and hands them over as plain values; the
//! library decides what is valid, what is staged, what is written and when
//! a lease goes back.

pub mod buffer;
pub mod convert;
pub mod error;
pub mod format;
pub mod frame;
pub mod layout;
pub mod lifecycle;
pub mod macos;
pub mod order;
pub mod outside;
pub mod region;
pub mod resources;
pub mod windows;

pub use crate::buffer::Buffer;
pub use crate::convert::convert_bgra;
pub use crate::error::{BoundsError, Error};
pub use crate::format::PixelFormat;
pub use crate::frame::{Frame, Source};
pub use crate::region::Region;
