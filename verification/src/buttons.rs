//! Button remapping via the HID++ 2.0 reprogrammable-controls feature.
//!
//! Functions of the feature: 0 reads the control count, 1 reads the
//! control info at an index (CID, default task ID, flags), 2 reads the
//! current remap of a CID, 3 writes a remap for a CID. A button index
//! maps to its CID by a device query, not a static table, so a read and
//! a write each take two round trips.

use vstd::prelude::*;

use crate::cids;
use crate::device::ButtonAction;
use crate::error::Error;
use crate::features;
use crate::hidpp::{u16_from_be, u16_to_be, HidppRequest, HidppResponse};
use crate::safety;
use crate::text::{chars_of, is_space, spec_trim, spec_trim_back, spec_trim_front};
use crate::transport::{hidpp_request, lookup_feature_index, HidTransport};

verus! {

/// The CID each button action stands for.
pub open spec fn spec_action_cid(action: ButtonAction) -> u16 {
    match action {
        ButtonAction::LeftClick => cids::LEFT_CLICK,
        ButtonAction::RightClick => cids::RIGHT_CLICK,
        ButtonAction::MiddleClick => cids::MIDDLE_CLICK,
        ButtonAction::Back => cids::BACK,
        ButtonAction::Forward => cids::FORWARD,
        ButtonAction::DpiCycleUp => cids::DPI_UP,
        ButtonAction::DpiCycleDown => cids::DPI_DOWN,
        ButtonAction::NoAction => cids::NO_ACTION,
    }
}

/// The action a CID decodes to. A CID outside the known table decodes to
/// the no-action sentinel rather than failing, since a device may report
/// vendor-private CIDs.
pub open spec fn spec_cid_action(cid: u16) -> ButtonAction {
    if cid == cids::LEFT_CLICK {
        ButtonAction::LeftClick
    } else if cid == cids::RIGHT_CLICK {
        ButtonAction::RightClick
    } else if cid == cids::MIDDLE_CLICK {
        ButtonAction::MiddleClick
    } else if cid == cids::BACK {
        ButtonAction::Back
    } else if cid == cids::FORWARD {
        ButtonAction::Forward
    } else if cid == cids::DPI_UP {
        ButtonAction::DpiCycleUp
    } else if cid == cids::DPI_DOWN {
        ButtonAction::DpiCycleDown
    } else {
        ButtonAction::NoAction
    }
}

/// Convert a button action to its HID++ control ID.
pub fn action_to_cid(action: ButtonAction) -> (r: u16)
    ensures
        r == spec_action_cid(action),
{
    match action {
        ButtonAction::LeftClick => cids::LEFT_CLICK,
        ButtonAction::RightClick => cids::RIGHT_CLICK,
        ButtonAction::MiddleClick => cids::MIDDLE_CLICK,
        ButtonAction::Back => cids::BACK,
        ButtonAction::Forward => cids::FORWARD,
        ButtonAction::DpiCycleUp => cids::DPI_UP,
        ButtonAction::DpiCycleDown => cids::DPI_DOWN,
        ButtonAction::NoAction => cids::NO_ACTION,
    }
}

/// Convert a HID++ control ID to a button action.
pub fn cid_to_action(cid: u16) -> (r: ButtonAction)
    ensures
        r == spec_cid_action(cid),
{
    if cid == cids::LEFT_CLICK {
        ButtonAction::LeftClick
    } else if cid == cids::RIGHT_CLICK {
        ButtonAction::RightClick
    } else if cid == cids::MIDDLE_CLICK {
        ButtonAction::MiddleClick
    } else if cid == cids::BACK {
        ButtonAction::Back
    } else if cid == cids::FORWARD {
        ButtonAction::Forward
    } else if cid == cids::DPI_UP {
        ButtonAction::DpiCycleUp
    } else if cid == cids::DPI_DOWN {
        ButtonAction::DpiCycleDown
    } else {
        ButtonAction::NoAction
    }
}

/// Law: every action other than the no-action sentinel survives the trip
/// through its CID and back. (The sentinel shares its CID with every
/// unknown CID, so only the action-to-CID direction is injective there.)
pub proof fn lemma_action_cid_roundtrip(action: ButtonAction)
    requires
        action != ButtonAction::NoAction,
    ensures
        spec_cid_action(spec_action_cid(action)) == action,
{
}

/// Information about a single reprogrammable control.
#[derive(Debug, Clone)]
pub struct ControlInfo {
    /// Control ID: unique identifier of this button.
    pub cid: u16,
    /// Task ID: the default action of this control.
    pub task_id: u16,
    /// Flags (virtual, persist, divert, reprog).
    pub flags: u8,
}

/// Read the number of reprogrammable controls (function 0).
pub fn read_control_count<T: HidTransport>(transport: &T, device_index: u8) -> Result<u8, Error> {
    let feature_idx = match lookup_feature_index(
        transport,
        device_index,
        features::REPROG_CONTROLS_V4,
    ) {
        Ok(idx) => idx,
        Err(e) => { return Err(e) },
    };
    let req = HidppRequest::new(device_index, feature_idx, 0x00, vec![]);
    let resp = match hidpp_request(transport, &req) {
        Ok(resp) => resp,
        Err(e) => { return Err(e) },
    };
    Ok(resp.params[0])
}

/// Read the control info at the given index (function 1): big-endian CID
/// and task ID, then a flags byte. A response too short to carry them is
/// a protocol error.
pub fn read_control_info<T: HidTransport>(
    transport: &T,
    device_index: u8,
    index: u8,
) -> Result<ControlInfo, Error> {
    let feature_idx = match lookup_feature_index(
        transport,
        device_index,
        features::REPROG_CONTROLS_V4,
    ) {
        Ok(idx) => idx,
        Err(e) => { return Err(e) },
    };
    read_control_info_with_feature(transport, device_index, feature_idx, index)
}

/// Assemble a control-info reply: a big-endian CID from the first two
/// parameter bytes, a big-endian task ID from the next two, then a
/// flags byte. A reply too short to carry them is a protocol error with
/// a distinct code.
pub fn control_info_from_reply(resp: &HidppResponse) -> (r: Result<ControlInfo, Error>)
    ensures
        resp.params@.len() >= 5 ==> (r matches Ok(info) && info.cid == resp.params@[0] * 256
            + resp.params@[1] && info.task_id == resp.params@[2] * 256 + resp.params@[3]
            && info.flags == resp.params@[4]),
        resp.params@.len() < 5 ==> (r matches Err(e) && e matches Error::HidppProtocol {
            feature,
            code,
        } && feature == features::REPROG_CONTROLS_V4 && code == 0xFE),
{
    if resp.params.len() < 5 {
        return Err(Error::HidppProtocol { feature: features::REPROG_CONTROLS_V4, code: 0xFE });
    }
    Ok(ControlInfo {
        cid: u16_from_be(resp.params[0], resp.params[1]),
        task_id: u16_from_be(resp.params[2], resp.params[3]),
        flags: resp.params[4],
    })
}

/// Decode the remap reply for one control: the remap CID sits
/// big-endian in the fourth and fifth parameter bytes of a long reply;
/// a short reply reports no remap, so the control maps to itself.
pub fn remap_action_from_reply(resp: &HidppResponse, control_cid: u16) -> (r: ButtonAction)
    ensures
        resp.params@.len() >= 5 ==> r == spec_cid_action(
            (resp.params@[3] * 256 + resp.params@[4]) as u16,
        ),
        resp.params@.len() < 5 ==> r == spec_cid_action(control_cid),
{
    let remap_cid = if resp.params.len() >= 5 {
        u16_from_be(resp.params[3], resp.params[4])
    } else {
        control_cid
    };
    cid_to_action(remap_cid)
}

/// Read control info when the feature index is already resolved.
fn read_control_info_with_feature<T: HidTransport>(
    transport: &T,
    device_index: u8,
    feature_idx: u8,
    index: u8,
) -> Result<ControlInfo, Error> {
    let req = HidppRequest::new(device_index, feature_idx, 0x01, vec![index]);
    let resp = match hidpp_request(transport, &req) {
        Ok(resp) => resp,
        Err(e) => { return Err(e) },
    };
    control_info_from_reply(&resp)
}

/// Read the current remapping of the button at `button_index`: resolve
/// the button's CID (function 1), query its remap (function 2), and
/// decode the remap CID via [`remap_action_from_reply`]. An index
/// outside the device's button range is rejected before any frame is
/// built, with the field, value and bounds retained.
pub fn read_button_mapping<T: HidTransport>(
    transport: &T,
    device_index: u8,
    button_index: usize,
) -> (r: Result<ButtonAction, Error>)
    ensures
        button_index >= crate::device::G502_BUTTON_COUNT ==> (r matches Err(e)
            && e matches Error::OutOfRange { field, value, min, max } && field@
            == "button_index"@ && value == button_index as u32 && min == 0 && max
            == crate::device::G502_BUTTON_COUNT - 1),
{
    match safety::validate_button_index(button_index) {
        Ok(_) => {},
        Err(e) => { return Err(e) },
    }
    let feature_idx = match lookup_feature_index(
        transport,
        device_index,
        features::REPROG_CONTROLS_V4,
    ) {
        Ok(idx) => idx,
        Err(e) => { return Err(e) },
    };
    let info = match read_control_info_with_feature(
        transport,
        device_index,
        feature_idx,
        button_index as u8,
    ) {
        Ok(info) => info,
        Err(e) => { return Err(e) },
    };
    let (cid_hi, cid_lo) = u16_to_be(info.cid);
    let req = HidppRequest::new(device_index, feature_idx, 0x02, vec![cid_hi, cid_lo]);
    let resp = match hidpp_request(transport, &req) {
        Ok(resp) => resp,
        Err(e) => { return Err(e) },
    };
    Ok(remap_action_from_reply(&resp, info.cid))
}

/// Remap the button at `button_index` to `action`: resolve the button's
/// CID (function 1), then write the remap (function 3) with the remap
/// flag set. An index outside the device's button range is rejected
/// before any frame is built, with the field, value and bounds retained.
pub fn write_button_mapping<T: HidTransport>(
    transport: &T,
    device_index: u8,
    button_index: usize,
    action: ButtonAction,
) -> (r: Result<(), Error>)
    ensures
        button_index >= crate::device::G502_BUTTON_COUNT ==> (r matches Err(e)
            && e matches Error::OutOfRange { field, value, min, max } && field@
            == "button_index"@ && value == button_index as u32 && min == 0 && max
            == crate::device::G502_BUTTON_COUNT - 1),
{
    match safety::validate_button_index(button_index) {
        Ok(_) => {},
        Err(e) => { return Err(e) },
    }
    let feature_idx = match lookup_feature_index(
        transport,
        device_index,
        features::REPROG_CONTROLS_V4,
    ) {
        Ok(idx) => idx,
        Err(e) => { return Err(e) },
    };
    let info = match read_control_info_with_feature(
        transport,
        device_index,
        feature_idx,
        button_index as u8,
    ) {
        Ok(info) => info,
        Err(e) => { return Err(e) },
    };
    let remap_cid = action_to_cid(action);
    let (cid_hi, cid_lo) = u16_to_be(info.cid);
    let (remap_hi, remap_lo) = u16_to_be(remap_cid);
    let req = HidppRequest::new(
        device_index,
        feature_idx,
        0x03,
        vec![
            cid_hi,
            cid_lo,
            0x10,  // remap flag
            remap_hi,
            remap_lo,
        ],
    );
    match hidpp_request(transport, &req) {
        Ok(_) => Ok(()),
        Err(e) => Err(e),
    }
}

/// A hexadecimal digit.
pub open spec fn spec_is_hex_digit(c: char) -> bool {
    ('0' <= c && c <= '9') || ('a' <= c && c <= 'f') || ('A' <= c && c <= 'F')
}

/// The value of a hexadecimal digit; other characters count as 0.
pub open spec fn spec_hex_val(c: char) -> int {
    if '0' <= c && c <= '9' {
        c as int - '0' as int
    } else if 'a' <= c && c <= 'f' {
        c as int - 'a' as int + 10
    } else if 'A' <= c && c <= 'F' {
        c as int - 'A' as int + 10
    } else {
        0
    }
}

/// Every character of `s` is a hexadecimal digit.
pub open spec fn spec_all_hex(s: Seq<char>) -> bool {
    forall|i: int| 0 <= i < s.len() ==> spec_is_hex_digit(#[trigger] s[i])
}

/// The number a big-endian string of hexadecimal digits denotes.
pub open spec fn spec_hex_value(s: Seq<char>) -> int
    decreases s.len(),
{
    if s.len() == 0 {
        0
    } else {
        spec_hex_value(s.drop_last()) * 16 + spec_hex_val(s.last())
    }
}

/// `s` after an optional `0x` / `0X` radix prefix.
pub open spec fn spec_strip_radix_prefix(s: Seq<char>) -> Seq<char> {
    if s.len() >= 2 && s[0] == '0' && (s[1] == 'x' || s[1] == 'X') {
        s.subrange(2, s.len() as int)
    } else {
        s
    }
}

/// `s` after an optional leading plus sign.
pub open spec fn spec_strip_sign(s: Seq<char>) -> Seq<char> {
    if s.len() >= 1 && s[0] == '+' {
        s.subrange(1, s.len() as int)
    } else {
        s
    }
}

/// The CID a user-entered text denotes: after trimming whitespace and an
/// optional radix prefix and sign, a non-empty all-hexadecimal string
/// whose value fits 16 bits.
pub open spec fn spec_parse_cid(s: Seq<char>) -> Option<u16> {
    let t = spec_strip_sign(spec_strip_radix_prefix(spec_trim(s)));
    if t.len() > 0 && spec_all_hex(t) && spec_hex_value(t) <= 0xFFFF {
        Some(spec_hex_value(t) as u16)
    } else {
        None
    }
}

proof fn lemma_hex_value_nonneg(s: Seq<char>)
    ensures
        spec_hex_value(s) >= 0,
    decreases s.len(),
{
    if s.len() > 0 {
        lemma_hex_value_nonneg(s.drop_last());
    }
}

/// The value of a digit string never falls below the value of any of its
/// prefixes.
proof fn lemma_hex_value_prefix_le(s: Seq<char>, i: int)
    requires
        0 <= i <= s.len(),
    ensures
        spec_hex_value(s.subrange(0, i)) <= spec_hex_value(s),
    decreases s.len() - i,
{
    if i == s.len() {
        assert(s.subrange(0, i) =~= s);
    } else {
        let a = s.subrange(0, i);
        let b = s.subrange(0, i + 1);
        assert(b.drop_last() =~= a);
        lemma_hex_value_nonneg(a);
        lemma_hex_value_prefix_le(s, i + 1);
    }
}

/// The value of one hexadecimal digit, or `None` for any other
/// character.
fn hex_digit(c: char) -> (r: Option<u8>)
    ensures
        r is Some <==> spec_is_hex_digit(c),
        r matches Some(d) ==> d == spec_hex_val(c) && d < 16,
{
    if '0' <= c && c <= '9' {
        Some((c as u8) - 48)
    } else if 'a' <= c && c <= 'f' {
        Some((c as u8) - 87)
    } else if 'A' <= c && c <= 'F' {
        Some((c as u8) - 55)
    } else {
        None
    }
}

/// Parse a user-entered CID: optional surrounding whitespace, optional
/// `0x` / `0X` prefix, optional plus sign, then hexadecimal digits whose
/// value fits 16 bits.
#[verifier::loop_isolation(false)]
#[verifier::rlimit(60)]
pub fn parse_custom_cid(input: &str) -> (r: Option<u16>)
    ensures
        r == spec_parse_cid(input@),
{
    let v = chars_of(input);
    let n = v.len();
    let ghost s = input@;
    let mut lo: usize = 0;
    proof {
        assert(s.subrange(0, n as int) =~= s);
    }
    while lo < n && is_space(v[lo])
        invariant
            lo <= n,
            v@ == s,
            n == s.len(),
            spec_trim_front(s) == spec_trim_front(s.subrange(lo as int, n as int)),
        decreases n - lo,
    {
        proof {
            assert(s.subrange(lo as int, n as int).drop_first()
                =~= s.subrange(lo + 1 as int, n as int));
        }
        lo = lo + 1;
    }
    proof {
        assert(spec_trim_front(s) == s.subrange(lo as int, n as int));
    }
    let mut hi: usize = n;
    while hi > lo && is_space(v[hi - 1])
        invariant
            lo <= hi <= n,
            v@ == s,
            n == s.len(),
            spec_trim_front(s) == s.subrange(lo as int, n as int),
            spec_trim_back(s.subrange(lo as int, n as int))
                == spec_trim_back(s.subrange(lo as int, hi as int)),
        decreases hi,
    {
        proof {
            assert(s.subrange(lo as int, hi as int).drop_last()
                =~= s.subrange(lo as int, hi - 1 as int));
        }
        hi = hi - 1;
    }
    proof {
        assert(spec_trim(s) == s.subrange(lo as int, hi as int));
    }
    let ghost trimmed = s.subrange(lo as int, hi as int);
    if hi - lo >= 2 && v[lo] == '0' && (v[lo + 1] == 'x' || v[lo + 1] == 'X') {
        proof {
            assert(trimmed.subrange(2, trimmed.len() as int)
                =~= s.subrange(lo + 2 as int, hi as int));
        }
        lo = lo + 2;
    } else {
        proof {
            assert(spec_strip_radix_prefix(trimmed) == trimmed);
        }
    }
    let ghost unprefixed = s.subrange(lo as int, hi as int);
    proof {
        assert(spec_strip_radix_prefix(trimmed) == unprefixed);
    }
    if hi > lo && v[lo] == '+' {
        proof {
            assert(unprefixed.subrange(1, unprefixed.len() as int)
                =~= s.subrange(lo + 1 as int, hi as int));
        }
        lo = lo + 1;
    }
    let ghost t = s.subrange(lo as int, hi as int);
    proof {
        assert(spec_strip_sign(unprefixed) == t);
    }
    if lo == hi {
        return None;
    }
    let mut val: u32 = 0;
    let mut i: usize = lo;
    while i < hi
        invariant
            lo <= i <= hi <= n,
            v@ == s,
            n == s.len(),
            t == s.subrange(lo as int, hi as int),
            forall|k: int| lo <= k < i ==> spec_is_hex_digit(#[trigger] s[k]),
            val == spec_hex_value(s.subrange(lo as int, i as int)),
            val <= 0xFFFF,
        decreases hi - i,
    {
        let d = match hex_digit(v[i]) {
            Some(d) => d,
            None => {
                proof {
                    assert(t[i - lo] == s[i as int]);
                    assert(!spec_all_hex(t));
                }
                return None;
            },
        };
        proof {
            assert(s.subrange(lo as int, i + 1 as int).drop_last()
                =~= s.subrange(lo as int, i as int));
        }
        val = val * 16 + (d as u32);
        i = i + 1;
        if val > 0xFFFF {
            proof {
                let done = s.subrange(lo as int, i as int);
                assert(done =~= t.subrange(0, i - lo));
                lemma_hex_value_prefix_le(t, i - lo);
            }
            return None;
        }
    }
    proof {
        assert(s.subrange(lo as int, i as int) =~= t);
        assert(spec_all_hex(t));
    }
    Some(val as u16)
}

} // verus!
