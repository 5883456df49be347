//! Decisions of the Quartz capture path, on plain values.

pub mod capture;
pub mod monitor;
