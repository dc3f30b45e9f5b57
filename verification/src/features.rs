//! HID++ 2.0 well-known feature identifiers.
//!
//! A feature identifier is a stable 16-bit constant naming a device
//! capability; the device maps it to a session-scoped one-byte feature
//! index via the root feature.

use vstd::prelude::*;

verus! {

/// Root feature: device ping and feature index lookup.
pub const ROOT: u16 = 0x0000;
/// Feature set: enumerate all supported features.
pub const FEATURE_SET: u16 = 0x0001;
/// Device name and type.
pub const DEVICE_NAME: u16 = 0x0005;
/// Battery status.
pub const BATTERY_STATUS: u16 = 0x1000;
/// Programmable button remapping.
pub const REPROG_CONTROLS_V4: u16 = 0x1B04;
/// Adjustable DPI setting.
pub const ADJUSTABLE_DPI: u16 = 0x2201;
/// USB report rate (polling rate).
pub const REPORT_RATE: u16 = 0x8060;
/// Onboard profiles.
pub const ONBOARD_PROFILES: u16 = 0x8100;

} // verus!
