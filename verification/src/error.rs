//! Error taxonomy for the protocol engine.

use vstd::prelude::*;

verus! {

/// A failure surfaced by this crate.
///
/// Structured variants keep the data a caller needs: a rejected value
/// retains the field name, the observed value and the allowed bounds; a
/// device protocol error retains the feature and the vendor error code.
#[derive(Debug)]
pub enum Error {
    /// Structural failure while encoding or decoding a report frame.
    Framing(String),
    /// The device does not support the requested feature: the bootstrap
    /// query resolved it to index 0, which is reserved.
    FeatureNotSupported { feature: u16 },
    /// The device answered with a protocol error frame.
    HidppProtocol { feature: u16, code: u8 },
    /// Transport-level failure reported by the HID link.
    Hid(String),
    /// The device was not found or has disconnected.
    DeviceNotFound(String),
    /// The host denied access to the device.
    PermissionDenied(String),
    /// The bounded wait for a response elapsed.
    Timeout(String),
    /// A value was rejected by the safety gate.
    OutOfRange { field: &'static str, value: u32, min: u32, max: u32 },
    /// Profile storage failure.
    Profile(String),
}

} // verus!
