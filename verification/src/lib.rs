//! Core protocol engine for configuring Logitech G mice over HID++ 2.0,
//! a vendor feature-indexed binary RPC protocol carried in fixed-size USB
//! HID reports.
//!
//! The crate covers the message codec, feature-index resolution, error
//! classification with bounded retry, and a safety gate that must approve
//! every value and every feature id before a request reaches the device.
//! Raw HID I/O is left to the host application, which supplies a
//! [`transport::HidTransport`] implementation.

use vstd::prelude::*;

pub mod buttons;
pub mod cids;
pub mod comm;
pub mod device;
pub mod dpi;
pub mod error;
pub mod features;
pub mod hidpp;
pub mod onboard;
pub mod pids;
pub mod profile;
pub mod report_rate;
pub mod safety;
pub mod text;
pub mod transport;

verus! {

/// Logitech USB vendor ID.
pub const LOGITECH_VID: u16 = 0x046D;

} // verus!
