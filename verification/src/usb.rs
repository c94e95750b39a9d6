//! Driver for the USB device controller, written against a plain-data model
//! of the peripheral so that every decision it takes is machine-checked.
//!
//! [`bus::UsbBus`] is the controller. It keeps the endpoint registry and the
//! packet-buffer allocator, and works on a [`device::Device`]: the register
//! file, the descriptor table and the packet memory that the peripheral's
//! DMA engine shares with software.

pub mod bank;
pub mod buffers;
pub mod bus;
pub mod device;
pub mod endpoints;
pub mod mask;
pub mod types;

pub use bus::UsbBus;
pub use types::{
    EndpointAddress, EndpointType, EndpointTypeBits, PollResult, UsbDirection, UsbError,
};
