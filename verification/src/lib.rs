//! Command encoding and bring-up sequencing for small TFT/LCD display
//! controllers that speak the MIPI display command set over a byte bus.
//!
//! The crate is split in three layers:
//!
//! * [`dcs`] turns typed commands into the exact parameter bytes a controller
//!   expects,
//! * [`interface`] describes what reaches the bus: one instruction byte and
//!   its parameter bytes, whichever way a command was built,
//! * [`models`] sequences the bring-up of a controller variant as a list of
//!   delays and bus writes.
//!
//! Nothing here touches a bus or a timer. Every function is a computation on
//! plain values whose result is stated in its contract and proved.
pub mod dcs;
pub mod error;
pub mod instruction;
pub mod interface;
pub mod models;
pub mod options;
