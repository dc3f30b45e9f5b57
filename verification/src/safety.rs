//! Safety gate: validates every parameter against known-safe ranges before
//! a request is built, so no out-of-range value ever reaches the device.

use vstd::prelude::*;

use crate::device::{spec_rate_from_hz, PollingRate, G502_BUTTON_COUNT};
use crate::error::Error;
use crate::features;

verus! {

/// Bricking-risk disclaimer: include it in any user-facing output about
/// device writes.
pub const BRICKING_DISCLAIMER: &'static str =
    "WARNING: This software writes directly to your mouse's hardware registers via HID++. While all writes are bounds-checked against known-safe ranges, incorrect usage or software bugs could theoretically render the device unresponsive. Macro and firmware operations are intentionally not supported due to higher risk. Use at your own risk.";

/// Highest function ID a request may carry: the selector is a 4-bit
/// field.
pub const MAX_FUNCTION_ID: u8 = 0x0F;

/// The fixed allow-list of feature identifiers this crate will talk to:
/// bootstrap/root, feature enumeration, device name, battery status,
/// button remap, DPI, polling rate and onboard profiles. Everything else,
/// firmware update and raw memory access included, is rejected before a
/// request is ever constructed.
pub open spec fn spec_feature_allowed(feature_id: u16) -> bool {
    ||| feature_id == features::ROOT
    ||| feature_id == features::FEATURE_SET
    ||| feature_id == features::DEVICE_NAME
    ||| feature_id == features::BATTERY_STATUS
    ||| feature_id == features::REPROG_CONTROLS_V4
    ||| feature_id == features::ADJUSTABLE_DPI
    ||| feature_id == features::REPORT_RATE
    ||| feature_id == features::ONBOARD_PROFILES
}

/// Validate that a feature ID is on the allow-list; anything else is
/// rejected outright.
pub fn validate_feature_id(feature_id: u16) -> (r: Result<(), Error>)
    ensures
        r is Ok <==> spec_feature_allowed(feature_id),
        r matches Err(e) ==> (e matches Error::OutOfRange { field, value, min, max }
            && field@ == "feature_id"@ && value == feature_id && min == 0 && max == 0xFFFF),
{
    if feature_id == features::ROOT || feature_id == features::FEATURE_SET
        || feature_id == features::DEVICE_NAME || feature_id == features::BATTERY_STATUS
        || feature_id == features::REPROG_CONTROLS_V4 || feature_id == features::ADJUSTABLE_DPI
        || feature_id == features::REPORT_RATE || feature_id == features::ONBOARD_PROFILES {
        Ok(())
    } else {
        Err(Error::OutOfRange { field: "feature_id", value: feature_id as u32, min: 0, max: 0xFFFF })
    }
}

/// Validate a request before it is built: the feature ID must be on the
/// allow-list and the function ID must fit the 4-bit selector field.
pub fn validate_hidpp_request(feature_id: u16, function_id: u8) -> (r: Result<(), Error>)
    ensures
        r is Ok <==> spec_feature_allowed(feature_id) && function_id <= MAX_FUNCTION_ID,
        !spec_feature_allowed(feature_id) ==> (r matches Err(e) && e matches Error::OutOfRange {
            field,
            ..
        } && field@ == "feature_id"@),
        spec_feature_allowed(feature_id) && function_id > MAX_FUNCTION_ID ==> (r matches Err(e)
            && e matches Error::OutOfRange { field, value, min, max } && field@ == "function_id"@
            && value == function_id && min == 0 && max == MAX_FUNCTION_ID),
{
    match validate_feature_id(feature_id) {
        Ok(_) => {},
        Err(e) => { return Err(e) },
    }
    if function_id > MAX_FUNCTION_ID {
        return Err(Error::OutOfRange {
            field: "function_id",
            value: function_id as u32,
            min: 0,
            max: MAX_FUNCTION_ID as u32,
        });
    }
    Ok(())
}

/// Validate a polling rate: only the enumerated rates succeed, with no
/// rounding, since the hardware has no interpolated setting.
pub fn validate_polling_rate(hz: u16) -> (r: Result<PollingRate, Error>)
    ensures
        r is Ok <==> spec_rate_from_hz(hz) is Some,
        r matches Ok(rate) ==> spec_rate_from_hz(hz) == Some(rate),
        r matches Err(e) ==> (e matches Error::OutOfRange { field, value, min, max }
            && field@ == "polling_rate"@ && value == hz && min == 125 && max == 1000),
{
    match PollingRate::from_hz(hz) {
        Some(rate) => Ok(rate),
        None => Err(Error::OutOfRange {
            field: "polling_rate",
            value: hz as u32,
            min: 125,
            max: 1000,
        }),
    }
}

/// Validate a 0-based button index against the device's button count.
pub fn validate_button_index(index: usize) -> (r: Result<(), Error>)
    ensures
        r is Ok <==> index < G502_BUTTON_COUNT,
        r matches Err(e) ==> (e matches Error::OutOfRange { field, value, min, max }
            && field@ == "button_index"@ && value == index as u32 && min == 0 && max
            == G502_BUTTON_COUNT - 1),
{
    if index >= G502_BUTTON_COUNT {
        return Err(Error::OutOfRange {
            field: "button_index",
            value: #[verifier::truncate] (index as u32),
            min: 0,
            max: (G502_BUTTON_COUNT - 1) as u32,
        });
    }
    Ok(())
}

/// Lowest DPI the sensor accepts.
pub const DPI_MIN: u16 = 100;
/// Highest DPI the sensor accepts.
pub const DPI_MAX: u16 = 25600;
/// DPI values must align to this step.
pub const DPI_STEP: u16 = 50;

/// The DPI value validation returns for an in-range request: rounded to
/// the nearest step (ties round up), then clamped into the safe range.
pub open spec fn spec_rounded_dpi(dpi: u16) -> int {
    let rounded = ((dpi + DPI_STEP / 2) / (DPI_STEP as int)) * (DPI_STEP as int);
    if rounded < DPI_MIN {
        DPI_MIN as int
    } else if rounded > DPI_MAX {
        DPI_MAX as int
    } else {
        rounded
    }
}

/// Validate a DPI value: rejected outside `[DPI_MIN, DPI_MAX]`, otherwise
/// rounded to the nearest `DPI_STEP` (ties round up) and clamped.
pub fn validate_dpi(dpi: u16) -> (r: Result<u16, Error>)
    ensures
        r is Ok <==> DPI_MIN <= dpi <= DPI_MAX,
        r matches Ok(v) ==> v == spec_rounded_dpi(dpi),
        r matches Ok(v) ==> v % DPI_STEP == 0 && DPI_MIN <= v <= DPI_MAX,
        r matches Err(e) ==> (e matches Error::OutOfRange { field, value, min, max }
            && field@ == "dpi"@ && value == dpi && min == DPI_MIN && max == DPI_MAX),
{
    if dpi < DPI_MIN || dpi > DPI_MAX {
        return Err(Error::OutOfRange {
            field: "dpi",
            value: dpi as u32,
            min: DPI_MIN as u32,
            max: DPI_MAX as u32,
        });
    }
    let rounded = ((dpi + DPI_STEP / 2) / DPI_STEP) * DPI_STEP;
    let clamped = if rounded < DPI_MIN {
        DPI_MIN
    } else if rounded > DPI_MAX {
        DPI_MAX
    } else {
        rounded
    };
    Ok(clamped)
}

} // verus!
