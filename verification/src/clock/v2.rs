//! The clock tree, as far as the bus clocks of the peripherals go.

pub mod apb;
pub mod types;
