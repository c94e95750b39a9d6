//! Clocks.

pub mod v2;
