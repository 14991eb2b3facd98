//! Device-side protocol state machine for the USB Device Firmware Update
//! (DFU 1.1) class.
//!
//! - `consts`: the wire vocabulary (request, state and status codes).
//! - `state`: the internal state and its transition rules.
//! - `handler`: the programming backend that the firmware supplies.
//! - `device`: the device, which applies the rules and drives the backend.
//! - `trace`: sequences of control transfers and the state they lead to.
//! - `laws`: what holds of every request and of every such sequence.

pub mod consts;
pub mod device;
pub mod handler;
pub mod laws;
pub mod state;
pub mod trace;

pub use device::UsbDfuDevice;
pub use handler::DfuHandler;
