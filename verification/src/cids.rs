//! Well-known HID++ control IDs (CIDs) for G502 buttons.
//!
//! A CID is a 16-bit identifier of one physical or logical button action;
//! remapping points one CID at another.

use vstd::prelude::*;

verus! {

/// Left click.
pub const LEFT_CLICK: u16 = 0x0050;
/// Right click.
pub const RIGHT_CLICK: u16 = 0x0051;
/// Middle click.
pub const MIDDLE_CLICK: u16 = 0x0052;
/// Back (thumb button).
pub const BACK: u16 = 0x0053;
/// Forward (thumb button).
pub const FORWARD: u16 = 0x0056;
/// DPI cycle up.
pub const DPI_UP: u16 = 0x004D;
/// DPI cycle down.
pub const DPI_DOWN: u16 = 0x004E;
/// No action / disabled.
pub const NO_ACTION: u16 = 0x0000;

} // verus!
