//! Known Logitech G502 USB product IDs.

use vstd::prelude::*;

verus! {

/// G502 Lightspeed (wireless receiver mode).
pub const G502_LIGHTSPEED: u16 = 0xC08D;
/// G502 HERO (wired).
pub const G502_HERO: u16 = 0xC08B;

} // verus!
