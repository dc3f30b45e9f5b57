//! Transport abstraction and the request orchestrator.
//!
//! [`HidTransport`] is the capability interface the host environment
//! implements for raw HID report exchange; everything above it is pure
//! protocol logic. [`hidpp_request`] is the single choke point every
//! feature operation passes through: encode, one transport round trip,
//! decode, uniform error-frame detection.

use vstd::prelude::*;

use crate::error::Error;
use crate::hidpp::{u16_to_be, HidppRequest, HidppResponse, ERROR_FEATURE_INDEX, MAX_PARAM_LEN};

verus! {

/// Abstraction over raw HID report exchange.
///
/// An implementation performs one write and one bounded-wait read per
/// call, returning exactly the bytes read, or a timeout, disconnection or
/// permission error. Nothing is assumed of the bytes an implementation
/// hands back: every caller in this crate validates them by decoding.
pub trait HidTransport: Send {
    /// Write one raw HID report and return the response bytes.
    fn send_report(&self, data: &[u8]) -> Result<Vec<u8>, Error>;
}

/// A response whose payload length matches its frame kind: 3 parameter
/// bytes for a short frame, 16 for a long one.
pub open spec fn spec_response_wf(resp: HidppResponse) -> bool {
    resp.params@.len() == (if resp.is_long {
        16int
    } else {
        3int
    })
}

/// Map a decoded response to the orchestrator's result. A frame whose
/// feature index is the reserved error marker becomes
/// [`Error::HidppProtocol`], retaining the offending feature index from
/// the frame's first parameter byte and the vendor error code from its
/// third, and its payload never reaches a caller as a response; any
/// other frame passes through unchanged.
pub fn error_frame_check(resp: HidppResponse) -> (r: Result<HidppResponse, Error>)
    requires
        resp.params@.len() >= 3,
    ensures
        resp.feature_index == ERROR_FEATURE_INDEX ==> (r matches Err(e)
            && e matches Error::HidppProtocol { feature, code } && feature == resp.params@[0]
            as u16 && code == resp.params@[2]),
        resp.feature_index != ERROR_FEATURE_INDEX ==> (r matches Ok(out) && out == resp),
{
    if resp.feature_index == ERROR_FEATURE_INDEX {
        let error_feature = resp.params[0];
        let error_code = resp.params[2];
        Err(Error::HidppProtocol { feature: error_feature as u16, code: error_code })
    } else {
        Ok(resp)
    }
}

/// Send a HID++ request and decode the response.
///
/// Sequence: encode, one transport round trip, decode, then the uniform
/// [`error_frame_check`], which maps an error frame to
/// [`Error::HidppProtocol`] with the offending feature index and vendor
/// code retained, before any payload reaches the caller. Whatever bytes
/// the transport hands back, a returned response is a well-formed,
/// non-error frame.
pub fn hidpp_request<T: HidTransport>(transport: &T, req: &HidppRequest) -> (r: Result<
    HidppResponse,
    Error,
>)
    ensures
        req.params@.len() > MAX_PARAM_LEN ==> (r matches Err(e) && e is Framing),
        r matches Ok(resp) ==> spec_response_wf(resp) && resp.feature_index
            != ERROR_FEATURE_INDEX,
{
    let encoded = match req.encode() {
        Ok(buf) => buf,
        Err(e) => { return Err(e) },
    };
    let raw = match transport.send_report(encoded.as_slice()) {
        Ok(bytes) => bytes,
        Err(e) => { return Err(e) },
    };
    let resp = match HidppResponse::decode(raw.as_slice()) {
        Ok(resp) => resp,
        Err(e) => { return Err(e) },
    };
    error_frame_check(resp)
}

/// Read the resolver's answer out of a bootstrap reply. The first
/// parameter byte is the device-assigned feature index; a zero byte
/// means the feature is not supported and surfaces as the distinct
/// [`Error::FeatureNotSupported`] carrying the queried feature ID, since
/// index 0 is reserved for the root feature itself.
pub fn index_from_reply(resp: &HidppResponse, feature_id: u16) -> (r: Result<u8, Error>)
    requires
        resp.params@.len() >= 1,
    ensures
        resp.params@[0] == 0 ==> (r matches Err(e) && e matches Error::FeatureNotSupported {
            feature,
        } && feature == feature_id),
        resp.params@[0] != 0 ==> (r matches Ok(idx) && idx == resp.params@[0]),
{
    let feature_index = resp.params[0];
    if feature_index == 0 {
        Err(Error::FeatureNotSupported { feature: feature_id })
    } else {
        Ok(feature_index)
    }
}

/// Look up the session-scoped feature index for a feature ID via the root
/// feature (index 0), function 0, with the feature ID as a big-endian
/// two-byte parameter.
///
/// The reply is read by [`index_from_reply`]: the device answers with
/// the feature index in the first parameter byte, and a 0 answer means
/// the feature is not supported and surfaces as
/// [`Error::FeatureNotSupported`]; a returned index is never 0.
pub fn lookup_feature_index<T: HidTransport>(
    transport: &T,
    device_index: u8,
    feature_id: u16,
) -> (r: Result<u8, Error>)
    ensures
        r matches Ok(idx) ==> idx != 0,
{
    let (id_hi, id_lo) = u16_to_be(feature_id);
    let req = HidppRequest::new(
        device_index,
        0x00,  // root feature index
        0x00,  // function 0: look up a feature ID
        vec![id_hi, id_lo],
    );
    let resp = match hidpp_request(transport, &req) {
        Ok(resp) => resp,
        Err(e) => { return Err(e) },
    };
    index_from_reply(&resp, feature_id)
}

} // verus!
