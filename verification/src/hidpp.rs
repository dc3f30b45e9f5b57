//! HID++ 2.0 message codec: encoding a logical request into a fixed-size
//! report buffer and decoding a report buffer into a logical response.
//!
//! The protocol uses two report formats: short reports of 7 bytes (report
//! ID 0x10) and long reports of 20 bytes (report ID 0x11). Encoding picks
//! the smallest frame that fits the parameters. The codec is a pure
//! transformation with no device knowledge.

use vstd::prelude::*;

use crate::error::Error;

verus! {

/// Report ID marking a short (7-byte) frame.
pub const SHORT_REPORT_ID: u8 = 0x10;
/// Report ID marking a long (20-byte) frame.
pub const LONG_REPORT_ID: u8 = 0x11;
/// Short report length, including the report ID byte.
pub const SHORT_REPORT_LEN: usize = 7;
/// Long report length, including the report ID byte.
pub const LONG_REPORT_LEN: usize = 20;
/// Largest parameter payload any frame can carry.
pub const MAX_PARAM_LEN: usize = 16;
/// Feature index reserved for protocol error frames.
pub const ERROR_FEATURE_INDEX: u8 = 0xFF;

/// A HID++ 2.0 request message.
#[derive(Debug, Clone, PartialEq, Eq)]
pub struct HidppRequest {
    /// Device index on the receiver (0xFF for the receiver itself,
    /// 0x01..0x06 for paired devices).
    pub device_index: u8,
    /// Feature index, resolved from a feature ID via the root feature.
    pub feature_index: u8,
    /// Function ID within the feature (bits 7:4) and software ID (bits 3:0).
    pub function_sw: u8,
    /// Parameter bytes (up to 3 for a short frame, up to 16 for a long one).
    pub params: Vec<u8>,
}

/// Report ID chosen for a parameter payload of length `n`.
pub open spec fn spec_report_id(n: nat) -> u8 {
    if n <= 3 {
        SHORT_REPORT_ID
    } else {
        LONG_REPORT_ID
    }
}

/// Whole frame length chosen for a parameter payload of length `n`.
pub open spec fn spec_frame_len(n: nat) -> nat {
    if n <= 3 {
        SHORT_REPORT_LEN as nat
    } else {
        LONG_REPORT_LEN as nat
    }
}

/// Number of zero-padding bytes appended after a payload of length `n`.
pub open spec fn spec_pad_len(n: nat) -> nat {
    if spec_frame_len(n) >= 4 + n {
        (spec_frame_len(n) - 4 - n) as nat
    } else {
        0
    }
}

/// The exact bytes a request encodes to, when its parameters fit a frame:
/// report ID, device index, feature index, function/tag byte, parameters,
/// zero padding up to the frame's fixed length.
pub open spec fn spec_encode(req: HidppRequest) -> Seq<u8> {
    seq![
        spec_report_id(req.params@.len()),
        req.device_index,
        req.feature_index,
        req.function_sw,
    ] + req.params@ + Seq::new(spec_pad_len(req.params@.len()), |i: int| 0u8)
}

impl HidppRequest {
    /// Create a request for a given feature index and function. The
    /// function selector goes to the upper nibble of the function/tag
    /// byte; the lower nibble carries the fixed software ID 0x01.
    pub fn new(device_index: u8, feature_index: u8, function: u8, params: Vec<u8>) -> (r: Self)
        ensures
            r.device_index == device_index,
            r.feature_index == feature_index,
            r.function_sw == (function % 16) * 16 + 1,
            r.params@ == params@,
    {
        proof {
            assert(((function << 4) | 0x01u8) == ((function % 16) * 16 + 1)) by (bit_vector);
        }
        Self { device_index, feature_index, function_sw: (function << 4) | 0x01, params }
    }

    /// Encode into a HID report byte array: a short (7-byte) report when
    /// the parameters fit, otherwise a long (20-byte) report; parameters
    /// longer than 16 bytes are rejected.
    #[verifier::loop_isolation(false)]
    pub fn encode(&self) -> (r: Result<Vec<u8>, Error>)
        ensures
            r is Ok <==> self.params@.len() <= MAX_PARAM_LEN,
            r matches Ok(buf) ==> buf@ == spec_encode(*self),
            r matches Ok(buf) ==> buf@.len() == spec_frame_len(self.params@.len()),
            r matches Err(e) ==> e is Framing,
    {
        let param_len = self.params.len();
        if param_len > MAX_PARAM_LEN {
            return Err(Error::Framing("parameters exceed the long report capacity".to_owned()));
        }
        let (report_id, frame_len) = if param_len <= 3 {
            (SHORT_REPORT_ID, SHORT_REPORT_LEN)
        } else {
            (LONG_REPORT_ID, LONG_REPORT_LEN)
        };
        let mut buf: Vec<u8> = Vec::new();
        buf.push(report_id);
        buf.push(self.device_index);
        buf.push(self.feature_index);
        buf.push(self.function_sw);
        let mut i: usize = 0;
        while i < param_len
            invariant
                i <= param_len,
                buf@.len() == 4 + i,
                buf@ == seq![report_id, self.device_index, self.feature_index, self.function_sw]
                    + self.params@.subrange(0, i as int),
            decreases param_len - i,
        {
            buf.push(self.params[i]);
            proof {
                assert(self.params@.subrange(0, i + 1 as int)
                    =~= self.params@.subrange(0, i as int).push(self.params@[i as int]));
            }
            i = i + 1;
        }
        while buf.len() < frame_len
            invariant
                4 + param_len <= buf@.len() <= frame_len,
                buf@ == seq![report_id, self.device_index, self.feature_index, self.function_sw]
                    + self.params@
                    + Seq::new((buf@.len() - 4 - param_len) as nat, |j: int| 0u8),
            decreases frame_len - buf@.len(),
        {
            buf.push(0);
            proof {
                assert(buf@ =~= seq![
                    report_id,
                    self.device_index,
                    self.feature_index,
                    self.function_sw,
                ] + self.params@ + Seq::new((buf@.len() - 4 - param_len) as nat, |j: int| 0u8));
            }
        }
        proof {
            assert(self.params@.subrange(0, param_len as int) =~= self.params@);
            assert(buf@ =~= spec_encode(*self));
        }
        Ok(buf)
    }
}

/// Combine two bytes into a 16-bit value, big-endian, as the protocol
/// carries feature IDs, CIDs and DPI values on the wire.
pub fn u16_from_be(hi: u8, lo: u8) -> (r: u16)
    ensures
        r == hi * 256 + lo,
{
    proof {
        assert((((hi as u16) << 8) | (lo as u16)) == (hi as u16) * 256 + (lo as u16))
            by (bit_vector);
    }
    ((hi as u16) << 8) | (lo as u16)
}

/// Split a 16-bit value into its big-endian bytes.
pub fn u16_to_be(v: u16) -> (r: (u8, u8))
    ensures
        r.0 == v / 256,
        r.1 == v % 256,
        r.0 * 256 + r.1 == v,
{
    proof {
        assert((v >> 8) == v / 256 && (v & 0xFF) == v % 256 && (v >> 8) < 256 && (v & 0xFF) < 256)
            by (bit_vector);
    }
    ((v >> 8) as u8, (v & 0xFF) as u8)
}

/// A decoded HID++ 2.0 response.
#[derive(Debug, Clone, PartialEq, Eq)]
pub struct HidppResponse {
    /// Whether this is a long report.
    pub is_long: bool,
    /// Device index.
    pub device_index: u8,
    /// Feature index.
    pub feature_index: u8,
    /// Function and software ID byte.
    pub function_sw: u8,
    /// Response payload bytes: 3 for a short frame, 16 for a long one.
    pub params: Vec<u8>,
}

/// True when `data` parses as a frame: at least a short report long, a
/// recognized report ID, and at least as long as that ID implies.
pub open spec fn spec_decodable(data: Seq<u8>) -> bool {
    &&& data.len() >= SHORT_REPORT_LEN
    &&& data[0] == SHORT_REPORT_ID || data[0] == LONG_REPORT_ID
    &&& data[0] == LONG_REPORT_ID ==> data.len() >= LONG_REPORT_LEN
}

/// Whole frame length implied by the report ID byte of a decodable frame.
pub open spec fn spec_implied_len(data: Seq<u8>) -> int {
    if data[0] == LONG_REPORT_ID {
        LONG_REPORT_LEN as int
    } else {
        SHORT_REPORT_LEN as int
    }
}

impl HidppResponse {
    /// Decode a raw HID report into a structured response. Fails when the
    /// input is shorter than a short report, the report ID is unknown, or
    /// the input is shorter than the length the report ID implies.
    #[verifier::loop_isolation(false)]
    pub fn decode(data: &[u8]) -> (r: Result<Self, Error>)
        ensures
            r is Ok <==> spec_decodable(data@),
            r matches Ok(resp) ==> {
                &&& resp.is_long == (data@[0] == LONG_REPORT_ID)
                &&& resp.device_index == data@[1]
                &&& resp.feature_index == data@[2]
                &&& resp.function_sw == data@[3]
                &&& resp.params@ == data@.subrange(4, spec_implied_len(data@))
                &&& resp.params@.len() == (if resp.is_long { 16int } else { 3int })
            },
            r matches Err(e) ==> e is Framing,
    {
        if data.len() < SHORT_REPORT_LEN {
            return Err(Error::Framing("response too short".to_owned()));
        }
        let report_id = data[0];
        let (is_long, expected_len) = if report_id == SHORT_REPORT_ID {
            (false, SHORT_REPORT_LEN)
        } else if report_id == LONG_REPORT_ID {
            (true, LONG_REPORT_LEN)
        } else {
            return Err(Error::Framing("unknown report id".to_owned()));
        };
        if data.len() < expected_len {
            return Err(Error::Framing("incomplete report".to_owned()));
        }
        let mut params: Vec<u8> = Vec::new();
        let mut j: usize = 4;
        while j < expected_len
            invariant
                4 <= j <= expected_len,
                params@ == data@.subrange(4, j as int),
            decreases expected_len - j,
        {
            params.push(data[j]);
            proof {
                assert(data@.subrange(4, j + 1 as int)
                    =~= data@.subrange(4, j as int).push(data@[j as int]));
            }
            j = j + 1;
        }
        Ok(Self {
            is_long,
            device_index: data[1],
            feature_index: data[2],
            function_sw: data[3],
            params,
        })
    }

    /// Extract the 4-bit function ID from the function/tag byte.
    pub fn function(&self) -> (r: u8)
        ensures
            r == self.function_sw / 16,
    {
        let fsw = self.function_sw;
        proof {
            assert(fsw >> 4 == fsw / 16) by (bit_vector);
        }
        fsw >> 4
    }

    /// Check whether this response is a protocol error frame, marked by
    /// the reserved feature index 0xFF.
    pub fn is_error(&self) -> (r: bool)
        ensures
            r == (self.feature_index == ERROR_FEATURE_INDEX),
    {
        self.feature_index == ERROR_FEATURE_INDEX
    }
}

/// Law: a round trip through the codec is lossless. For any request whose
/// parameters fit a frame, the encoded bytes form a decodable frame of the
/// selected size, the header bytes carry the request's device index,
/// feature index and function/tag byte exactly (so decoding reproduces
/// them), and the frame's payload is the request's parameters padded with
/// zeros.
pub proof fn lemma_encode_decode_roundtrip(req: HidppRequest)
    requires
        req.params@.len() <= MAX_PARAM_LEN,
    ensures
        ({
            let buf = spec_encode(req);
            &&& buf.len() == spec_frame_len(req.params@.len())
            &&& spec_decodable(buf)
            &&& buf[1] == req.device_index
            &&& buf[2] == req.feature_index
            &&& buf[3] == req.function_sw
            &&& buf.subrange(4, spec_implied_len(buf)).subrange(0, req.params@.len() as int)
                == req.params@
        }),
{
    let buf = spec_encode(req);
    let n = req.params@.len();
    assert(buf.len() == spec_frame_len(n));
    assert(spec_decodable(buf));
    assert(buf.subrange(4, spec_implied_len(buf)).subrange(0, n as int) =~= req.params@);
}

} // verus!
