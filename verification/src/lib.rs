//! Verified core of a USB debug and programming adapter.
//!
//! The adapter multiplexes one set of pins between a flash programmer, an
//! FPGA loader, an SWD probe and a bit-banged JTAG port, and speaks CMSIS-DAP
//! over USB. This crate holds the decisions: every register value, packet and
//! response byte is computed here from plain values, and the code that touches
//! the peripherals only carries those values to and from the hardware.
//!
//! Work that needs the hardware in the middle of a command is handed out as
//! an action: the caller performs it and hands the outcome back, so that every
//! function here runs to its end without waiting.

pub mod app;
pub mod bootload;
pub mod bytes;
pub mod dap;
pub mod ecp5;
pub mod flash;
pub mod gpio;
pub mod jtag;
pub mod sequence;
pub mod spi;
pub mod swd;
pub mod unique_id;
pub mod usb;
