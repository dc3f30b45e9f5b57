//! DPI read/write via the HID++ 2.0 adjustable-DPI feature.
//!
//! Functions of the feature: 0 reads the sensor count, 1 reads the
//! current DPI of one sensor (two big-endian bytes), 2 writes a DPI value
//! for one sensor.

use vstd::prelude::*;

use crate::error::Error;
use crate::features;
use crate::hidpp::{u16_from_be, u16_to_be, HidppRequest};
use crate::safety::{self, spec_rounded_dpi, DPI_MAX, DPI_MIN};
use crate::transport::{hidpp_request, lookup_feature_index, HidTransport};

verus! {

/// Read the current DPI from the device's first sensor: resolve the
/// adjustable-DPI feature, query function 1 for sensor 0, and combine the
/// first two parameter bytes big-endian. The value is whatever the device
/// reports.
pub fn read_dpi<T: HidTransport>(transport: &T, device_index: u8) -> Result<u16, Error> {
    let feature_idx = match lookup_feature_index(
        transport,
        device_index,
        features::ADJUSTABLE_DPI,
    ) {
        Ok(idx) => idx,
        Err(e) => { return Err(e) },
    };
    let req = HidppRequest::new(device_index, feature_idx, 0x01, vec![0x00]);
    let resp = match hidpp_request(transport, &req) {
        Ok(resp) => resp,
        Err(e) => { return Err(e) },
    };
    Ok(u16_from_be(resp.params[0], resp.params[1]))
}

/// Write a DPI value to the device's first sensor. The value passes the
/// safety gate first: a value outside the safe range is rejected before
/// any frame is built, with the field, value and bounds retained, and
/// an in-range value is rounded to the nearest step; the rounded value
/// is what is sent and what is returned.
pub fn write_dpi<T: HidTransport>(transport: &T, device_index: u8, dpi: u16) -> (r: Result<
    u16,
    Error,
>)
    ensures
        !(DPI_MIN <= dpi <= DPI_MAX) ==> (r matches Err(e) && e matches Error::OutOfRange {
            field,
            value,
            min,
            max,
        } && field@ == "dpi"@ && value == dpi && min == DPI_MIN && max == DPI_MAX),
        r matches Ok(v) ==> DPI_MIN <= dpi <= DPI_MAX && v == spec_rounded_dpi(dpi),
{
    let validated = match safety::validate_dpi(dpi) {
        Ok(v) => v,
        Err(e) => { return Err(e) },
    };
    let feature_idx = match lookup_feature_index(
        transport,
        device_index,
        features::ADJUSTABLE_DPI,
    ) {
        Ok(idx) => idx,
        Err(e) => { return Err(e) },
    };
    let (dpi_hi, dpi_lo) = u16_to_be(validated);
    let req = HidppRequest::new(device_index, feature_idx, 0x02, vec![0x00, dpi_hi, dpi_lo]);
    match hidpp_request(transport, &req) {
        Ok(_) => Ok(validated),
        Err(e) => Err(e),
    }
}

/// Read the sensor count from the device (function 0, no parameters).
pub fn read_sensor_count<T: HidTransport>(transport: &T, device_index: u8) -> Result<u8, Error> {
    let feature_idx = match lookup_feature_index(
        transport,
        device_index,
        features::ADJUSTABLE_DPI,
    ) {
        Ok(idx) => idx,
        Err(e) => { return Err(e) },
    };
    let req = HidppRequest::new(device_index, feature_idx, 0x00, vec![]);
    let resp = match hidpp_request(transport, &req) {
        Ok(resp) => resp,
        Err(e) => { return Err(e) },
    };
    Ok(resp.params[0])
}

} // verus!
