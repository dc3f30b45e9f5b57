//! Onboard profile management via the HID++ 2.0 onboard-profiles
//! feature.
//!
//! Functions of the feature: 0 reads the description (memory model,
//! profile count, button count, sector count), 1 sets the mode (host or
//! onboard), 2 reads the active profile (page, offset), 3 switches the
//! active profile. In host mode the computer controls the settings; in
//! onboard mode the mouse uses its stored profile.

use vstd::prelude::*;

use crate::error::Error;
use crate::features;
use crate::hidpp::{HidppRequest, HidppResponse};
use crate::transport::{hidpp_request, lookup_feature_index, HidTransport};

verus! {

/// Onboard profile mode.
#[derive(Debug, Clone, Copy, PartialEq, Eq, Structural)]
pub enum OnboardMode {
    /// Host controls settings (software manages the device).
    Host,
    /// Mouse uses its stored onboard profile.
    Onboard,
}

/// The wire byte each mode is sent as.
pub open spec fn spec_mode_byte(mode: OnboardMode) -> u8 {
    match mode {
        OnboardMode::Host => 1,
        OnboardMode::Onboard => 2,
    }
}

/// The mode a wire byte names, if any.
pub open spec fn spec_mode_from_byte(b: u8) -> Option<OnboardMode> {
    if b == 1 {
        Some(OnboardMode::Host)
    } else if b == 2 {
        Some(OnboardMode::Onboard)
    } else {
        None
    }
}

impl OnboardMode {
    /// Decode a mode byte; only 1 (host) and 2 (onboard) are modes.
    pub fn from_byte(b: u8) -> (r: Option<Self>)
        ensures
            r == spec_mode_from_byte(b),
    {
        if b == 1 {
            Some(Self::Host)
        } else if b == 2 {
            Some(Self::Onboard)
        } else {
            None
        }
    }

    /// The wire byte this mode is sent as.
    pub fn as_byte(&self) -> (r: u8)
        ensures
            r == spec_mode_byte(*self),
            spec_mode_from_byte(r) == Some(*self),
    {
        match self {
            Self::Host => 1,
            Self::Onboard => 2,
        }
    }
}

/// Law: every mode survives the trip through its wire byte and back.
pub proof fn lemma_mode_byte_roundtrip(mode: OnboardMode)
    ensures
        spec_mode_from_byte(spec_mode_byte(mode)) == Some(mode),
{
}

/// Description of the device's onboard profile capabilities.
#[derive(Debug, Clone)]
pub struct ProfileDescription {
    /// Memory model (device-specific).
    pub memory_model: u8,
    /// Number of profiles stored on the device.
    pub profile_count: u8,
    /// Number of buttons per profile.
    pub button_count: u8,
    /// Number of sectors.
    pub sector_count: u8,
}

/// Assemble a profile-description reply: memory model, profile count,
/// button count and sector count from the first four parameter bytes.
/// A reply too short to carry them is a protocol error with a distinct
/// code.
pub fn description_from_reply(resp: &HidppResponse) -> (r: Result<ProfileDescription, Error>)
    ensures
        resp.params@.len() >= 4 ==> (r matches Ok(desc) && desc.memory_model == resp.params@[0]
            && desc.profile_count == resp.params@[1] && desc.button_count == resp.params@[2]
            && desc.sector_count == resp.params@[3]),
        resp.params@.len() < 4 ==> (r matches Err(e) && e matches Error::HidppProtocol {
            feature,
            code,
        } && feature == features::ONBOARD_PROFILES && code == 0xFE),
{
    if resp.params.len() < 4 {
        return Err(Error::HidppProtocol { feature: features::ONBOARD_PROFILES, code: 0xFE });
    }
    Ok(ProfileDescription {
        memory_model: resp.params[0],
        profile_count: resp.params[1],
        button_count: resp.params[2],
        sector_count: resp.params[3],
    })
}

/// Read the onboard profile capabilities (function 0) and assemble the
/// reply via [`description_from_reply`]; a short reply is a protocol
/// error.
pub fn read_profile_description<T: HidTransport>(transport: &T, device_index: u8) -> Result<
    ProfileDescription,
    Error,
> {
    let feature_idx = match lookup_feature_index(
        transport,
        device_index,
        features::ONBOARD_PROFILES,
    ) {
        Ok(idx) => idx,
        Err(e) => { return Err(e) },
    };
    let req = HidppRequest::new(device_index, feature_idx, 0x00, vec![]);
    let resp = match hidpp_request(transport, &req) {
        Ok(resp) => resp,
        Err(e) => { return Err(e) },
    };
    description_from_reply(&resp)
}

/// Set the onboard mode (function 1): host or onboard, as its wire byte.
pub fn set_onboard_mode<T: HidTransport>(
    transport: &T,
    device_index: u8,
    mode: OnboardMode,
) -> Result<(), Error> {
    let feature_idx = match lookup_feature_index(
        transport,
        device_index,
        features::ONBOARD_PROFILES,
    ) {
        Ok(idx) => idx,
        Err(e) => { return Err(e) },
    };
    let req = HidppRequest::new(device_index, feature_idx, 0x01, vec![mode.as_byte()]);
    match hidpp_request(transport, &req) {
        Ok(_) => Ok(()),
        Err(e) => Err(e),
    }
}

/// Read the currently active profile (function 2) as the (page, offset)
/// pair identifying it in device memory.
pub fn get_current_profile<T: HidTransport>(transport: &T, device_index: u8) -> Result<
    (u8, u8),
    Error,
> {
    let feature_idx = match lookup_feature_index(
        transport,
        device_index,
        features::ONBOARD_PROFILES,
    ) {
        Ok(idx) => idx,
        Err(e) => { return Err(e) },
    };
    let req = HidppRequest::new(device_index, feature_idx, 0x02, vec![]);
    let resp = match hidpp_request(transport, &req) {
        Ok(resp) => resp,
        Err(e) => { return Err(e) },
    };
    Ok((resp.params[0], resp.params[1]))
}

/// Switch to a specific onboard profile (function 3) by page and offset.
pub fn set_current_profile<T: HidTransport>(
    transport: &T,
    device_index: u8,
    page: u8,
    offset: u8,
) -> Result<(), Error> {
    let feature_idx = match lookup_feature_index(
        transport,
        device_index,
        features::ONBOARD_PROFILES,
    ) {
        Ok(idx) => idx,
        Err(e) => { return Err(e) },
    };
    let req = HidppRequest::new(device_index, feature_idx, 0x03, vec![page, offset]);
    match hidpp_request(transport, &req) {
        Ok(_) => Ok(()),
        Err(e) => Err(e),
    }
}

} // verus!
