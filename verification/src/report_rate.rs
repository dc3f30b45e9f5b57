//! Polling rate read/write via the HID++ 2.0 report-rate feature.
//!
//! Functions of the feature: 0 reads the bitmask of supported report
//! intervals, 1 reads the current interval, 2 writes an interval. The
//! device encodes a rate as its report interval in milliseconds:
//! 1 ms is 1000 Hz, 2 ms is 500 Hz, 4 ms is 250 Hz, 8 ms is 125 Hz.

use vstd::prelude::*;

use crate::device::PollingRate;
use crate::error::Error;
use crate::features;
use crate::hidpp::HidppRequest;
use crate::transport::{hidpp_request, lookup_feature_index, HidTransport};

verus! {

/// The report interval in milliseconds that encodes a polling rate.
pub open spec fn spec_interval_for(rate: PollingRate) -> u8 {
    match rate {
        PollingRate::Hz1000 => 1,
        PollingRate::Hz500 => 2,
        PollingRate::Hz250 => 4,
        PollingRate::Hz125 => 8,
    }
}

/// The polling rate an interval byte encodes, if any.
pub open spec fn spec_rate_for_interval(interval: u8) -> Option<PollingRate> {
    if interval == 1 {
        Some(PollingRate::Hz1000)
    } else if interval == 2 {
        Some(PollingRate::Hz500)
    } else if interval == 4 {
        Some(PollingRate::Hz250)
    } else if interval == 8 {
        Some(PollingRate::Hz125)
    } else {
        None
    }
}

/// Convert a polling rate to the report interval the device expects.
pub fn rate_to_interval(rate: PollingRate) -> (r: u8)
    ensures
        r == spec_interval_for(rate),
{
    match rate {
        PollingRate::Hz1000 => 1,
        PollingRate::Hz500 => 2,
        PollingRate::Hz250 => 4,
        PollingRate::Hz125 => 8,
    }
}

/// Convert a report interval back to a polling rate; any interval byte
/// outside the encoding is a protocol error carrying that byte as the
/// code.
pub fn interval_to_rate(interval: u8) -> (r: Result<PollingRate, Error>)
    ensures
        r is Ok <==> spec_rate_for_interval(interval) is Some,
        r matches Ok(rate) ==> spec_rate_for_interval(interval) == Some(rate),
        r matches Err(e) ==> (e matches Error::HidppProtocol { feature, code } && feature
            == features::REPORT_RATE && code == interval),
{
    if interval == 1 {
        Ok(PollingRate::Hz1000)
    } else if interval == 2 {
        Ok(PollingRate::Hz500)
    } else if interval == 4 {
        Ok(PollingRate::Hz250)
    } else if interval == 8 {
        Ok(PollingRate::Hz125)
    } else {
        Err(Error::HidppProtocol { feature: features::REPORT_RATE, code: interval })
    }
}

/// Law: every polling rate survives the trip through its interval
/// encoding and back.
pub proof fn lemma_rate_interval_roundtrip(rate: PollingRate)
    ensures
        spec_rate_for_interval(spec_interval_for(rate)) == Some(rate),
{
}

/// The rates a supported-rate bitmask names, from the fastest interval to
/// the slowest: bit 0 is the 1 ms interval, bit 1 the 2 ms interval,
/// bit 2 the 4 ms interval, bit 3 the 8 ms interval.
pub open spec fn spec_rates_from_bitmask(mask: u8) -> Seq<PollingRate> {
    (if mask & 1 != 0 {
        seq![PollingRate::Hz1000]
    } else {
        Seq::empty()
    }) + (if mask & 2 != 0 {
        seq![PollingRate::Hz500]
    } else {
        Seq::empty()
    }) + (if mask & 4 != 0 {
        seq![PollingRate::Hz250]
    } else {
        Seq::empty()
    }) + (if mask & 8 != 0 {
        seq![PollingRate::Hz125]
    } else {
        Seq::empty()
    })
}

/// Decode a supported-rate bitmask into the rates it names.
pub fn rates_from_bitmask(mask: u8) -> (r: Vec<PollingRate>)
    ensures
        r@ == spec_rates_from_bitmask(mask),
{
    let mut rates: Vec<PollingRate> = Vec::new();
    if mask & 1 != 0 {
        rates.push(PollingRate::Hz1000);
    }
    if mask & 2 != 0 {
        rates.push(PollingRate::Hz500);
    }
    if mask & 4 != 0 {
        rates.push(PollingRate::Hz250);
    }
    if mask & 8 != 0 {
        rates.push(PollingRate::Hz125);
    }
    proof {
        assert(rates@ =~= spec_rates_from_bitmask(mask));
    }
    rates
}

/// Read the current polling rate from the device (function 1) and decode
/// its interval byte; an interval outside the encoding is a protocol
/// error.
pub fn read_report_rate<T: HidTransport>(transport: &T, device_index: u8) -> Result<
    PollingRate,
    Error,
> {
    let feature_idx = match lookup_feature_index(transport, device_index, features::REPORT_RATE) {
        Ok(idx) => idx,
        Err(e) => { return Err(e) },
    };
    let req = HidppRequest::new(device_index, feature_idx, 0x01, vec![]);
    let resp = match hidpp_request(transport, &req) {
        Ok(resp) => resp,
        Err(e) => { return Err(e) },
    };
    interval_to_rate(resp.params[0])
}

/// Write a polling rate to the device (function 2), encoded as its report
/// interval.
pub fn write_report_rate<T: HidTransport>(
    transport: &T,
    device_index: u8,
    rate: PollingRate,
) -> Result<(), Error> {
    let feature_idx = match lookup_feature_index(transport, device_index, features::REPORT_RATE) {
        Ok(idx) => idx,
        Err(e) => { return Err(e) },
    };
    let interval = rate_to_interval(rate);
    let req = HidppRequest::new(device_index, feature_idx, 0x02, vec![interval]);
    match hidpp_request(transport, &req) {
        Ok(_) => Ok(()),
        Err(e) => Err(e),
    }
}

/// Read the list of supported polling rates from the device (function 0)
/// and decode the bitmask in the first parameter byte. Whatever the
/// device answers, a returned list is the decoding of some bitmask.
pub fn read_supported_rates<T: HidTransport>(transport: &T, device_index: u8) -> (r: Result<
    Vec<PollingRate>,
    Error,
>)
    ensures
        r matches Ok(v) ==> exists|b: u8| v@ == spec_rates_from_bitmask(b),
{
    let feature_idx = match lookup_feature_index(transport, device_index, features::REPORT_RATE) {
        Ok(idx) => idx,
        Err(e) => { return Err(e) },
    };
    let req = HidppRequest::new(device_index, feature_idx, 0x00, vec![]);
    let resp = match hidpp_request(transport, &req) {
        Ok(resp) => resp,
        Err(e) => { return Err(e) },
    };
    let mask = resp.params[0];
    let rates = rates_from_bitmask(mask);
    proof {
        assert(exists|b: u8| rates@ == spec_rates_from_bitmask(b)) by {
            assert(rates@ == spec_rates_from_bitmask(mask));
        }
    }
    Ok(rates)
}

} // verus!
