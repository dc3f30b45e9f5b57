//! Resilience layer: error classification and bounded retry.
//!
//! Every failure is classified into a retry category; only a
//! timeout-shaped (transient) failure is ever retried, and retries are
//! sequential with a fixed bound.

use vstd::prelude::*;

use crate::error::Error;
use crate::hidpp::{HidppRequest, HidppResponse, ERROR_FEATURE_INDEX, MAX_PARAM_LEN};
use crate::text::{contains_ci, spec_contains_seq, spec_lower};
use crate::transport::{hidpp_request, spec_response_wf, HidTransport};

verus! {

/// Default bound on retry attempts for transient errors.
pub const MAX_RETRIES: u32 = 3;

/// Classification of communication errors.
#[derive(Debug, Clone, Copy, PartialEq, Eq, Structural)]
pub enum ErrorClass {
    /// Transient errors that may succeed on retry (timeout, busy).
    Transient,
    /// Device is disconnected: stop retrying, notify the user.
    Disconnected,
    /// Permission denied by the host.
    PermissionDenied,
    /// Protocol error: the device rejected the request.
    Protocol,
    /// Invalid response: corrupted, unexpected or out-of-range data.
    InvalidResponse,
}

/// Classification of a transport-level failure by the wording of its
/// message: disconnection wording beats permission wording beats timeout
/// wording; anything else is an invalid response.
pub open spec fn spec_classify_hid_message(msg: Seq<char>) -> ErrorClass {
    let l = spec_lower(msg);
    if spec_contains_seq(l, "disconnect"@) || spec_contains_seq(l, "not found"@)
        || spec_contains_seq(l, "no such device"@) {
        ErrorClass::Disconnected
    } else if spec_contains_seq(l, "permission"@) || spec_contains_seq(l, "access denied"@)
        || spec_contains_seq(l, "access is denied"@) {
        ErrorClass::PermissionDenied
    } else if spec_contains_seq(l, "timeout"@) || spec_contains_seq(l, "timed out"@) {
        ErrorClass::Transient
    } else {
        ErrorClass::InvalidResponse
    }
}

/// The retry category of each failure. Explicit timeout, permission and
/// not-found conditions classify directly; a device protocol error and an
/// unsupported feature are protocol failures; a wrapped transport failure
/// goes by its wording; framing and validation failures are invalid
/// responses and are never retried.
pub open spec fn spec_classify(err: Error) -> ErrorClass {
    match err {
        Error::Timeout(_) => ErrorClass::Transient,
        Error::PermissionDenied(_) => ErrorClass::PermissionDenied,
        Error::DeviceNotFound(_) => ErrorClass::Disconnected,
        Error::HidppProtocol { .. } => ErrorClass::Protocol,
        Error::FeatureNotSupported { .. } => ErrorClass::Protocol,
        Error::Hid(msg) => spec_classify_hid_message(msg@),
        Error::Framing(_) => ErrorClass::InvalidResponse,
        Error::OutOfRange { .. } => ErrorClass::InvalidResponse,
        Error::Profile(_) => ErrorClass::InvalidResponse,
    }
}

impl ErrorClass {
    /// Classify an error for retry decisions.
    pub fn classify(err: &Error) -> (r: Self)
        ensures
            r == spec_classify(*err),
    {
        match err {
            Error::Timeout(_) => Self::Transient,
            Error::PermissionDenied(_) => Self::PermissionDenied,
            Error::DeviceNotFound(_) => Self::Disconnected,
            Error::HidppProtocol { .. } => Self::Protocol,
            Error::FeatureNotSupported { .. } => Self::Protocol,
            Error::Hid(msg) => {
                if contains_ci(msg.as_str(), "disconnect") || contains_ci(msg.as_str(), "not found")
                    || contains_ci(msg.as_str(), "no such device") {
                    Self::Disconnected
                } else if contains_ci(msg.as_str(), "permission") || contains_ci(
                    msg.as_str(),
                    "access denied",
                ) || contains_ci(msg.as_str(), "access is denied") {
                    Self::PermissionDenied
                } else if contains_ci(msg.as_str(), "timeout") || contains_ci(
                    msg.as_str(),
                    "timed out",
                ) {
                    Self::Transient
                } else {
                    Self::InvalidResponse
                }
            },
            Error::Framing(_) => Self::InvalidResponse,
            Error::OutOfRange { .. } => Self::InvalidResponse,
            Error::Profile(_) => Self::InvalidResponse,
        }
    }

    /// Whether this error class is worth retrying.
    pub fn is_retryable(&self) -> (r: bool)
        ensures
            r == (*self is Transient),
    {
        match self {
            Self::Transient => true,
            _ => false,
        }
    }
}

/// Law: only a transient classification is retryable. An explicit timeout
/// always classifies as transient; an explicit permission, disconnect or
/// protocol failure never does; a wrapped transport failure is transient
/// exactly when its wording says timeout and no disconnection or
/// permission wording precedes it.
pub proof fn lemma_only_transient_retries(err: Error)
    ensures
        err is Timeout ==> spec_classify(err) is Transient,
        err is PermissionDenied || err is DeviceNotFound || err is HidppProtocol
            || err is FeatureNotSupported ==> !(spec_classify(err) is Transient),
        err is Framing || err is OutOfRange || err is Profile ==> !(spec_classify(
            err,
        ) is Transient),
        spec_classify(err) is Transient <==> (err is Timeout || (err matches Error::Hid(msg)
            && spec_classify_hid_message(msg@) is Transient)),
{
}

/// Send a HID++ request, retrying a transient failure immediately up to
/// `max_retries` further times; a non-retryable failure, or exhaustion,
/// returns the last error. A returned response is a well-formed,
/// non-error frame.
pub fn send_with_retry<T: HidTransport>(
    transport: &T,
    req: &HidppRequest,
    max_retries: u32,
) -> (r: Result<HidppResponse, Error>)
    ensures
        req.params@.len() > MAX_PARAM_LEN ==> (r matches Err(e) && e is Framing),
        r matches Ok(resp) ==> spec_response_wf(resp) && resp.feature_index
            != ERROR_FEATURE_INDEX,
{
    let mut attempt: u32 = 0;
    loop
        invariant
            attempt <= max_retries,
        decreases max_retries - attempt,
    {
        match hidpp_request(transport, req) {
            Ok(resp) => { return Ok(resp) },
            Err(e) => {
                let retryable = ErrorClass::classify(&e).is_retryable();
                if !retryable || attempt == max_retries {
                    return Err(e);
                }
                attempt = attempt + 1;
            },
        }
    }
}

/// Device connection status for display purposes.
#[derive(Debug, Clone, Copy, PartialEq, Eq, Structural)]
pub enum DeviceStatus {
    /// Device is connected and responding.
    Connected,
    /// Device is not found / disconnected.
    Disconnected,
    /// Permission denied: needs driver or access setup.
    PermissionError,
    /// Communication error (transient or protocol).
    Error,
}

/// The display status for one classified failure.
pub open spec fn spec_status_for(class: ErrorClass) -> DeviceStatus {
    match class {
        ErrorClass::Disconnected => DeviceStatus::Disconnected,
        ErrorClass::PermissionDenied => DeviceStatus::PermissionError,
        _ => DeviceStatus::Error,
    }
}

/// The display status one classified failure maps to: a disconnected or
/// permission-denied class keeps its own status, everything else shows
/// as a communication error.
pub fn status_for(class: ErrorClass) -> (r: DeviceStatus)
    ensures
        r == spec_status_for(class),
{
    match class {
        ErrorClass::Disconnected => DeviceStatus::Disconnected,
        ErrorClass::PermissionDenied => DeviceStatus::PermissionError,
        _ => DeviceStatus::Error,
    }
}

/// Check device connectivity with a single root-feature ping; the probe
/// never retries. A success shows as connected; a failure is mapped by
/// [`status_for`] of its classification.
pub fn check_device_status<T: HidTransport>(transport: &T, device_index: u8) -> DeviceStatus {
    let ping = HidppRequest::new(device_index, 0x00, 0x00, vec![0x00, 0x00]);
    match hidpp_request(transport, &ping) {
        Ok(_) => DeviceStatus::Connected,
        Err(e) => status_for(ErrorClass::classify(&e)),
    }
}

} // verus!
