//! Decisions of the Windows capture paths, on plain values.

pub mod capture;
pub mod common;
pub mod gdi;
pub mod monitor;
