//! Tests for the HID++ message codec.

use open_g_hub_core::error::Error;
use open_g_hub_core::hidpp::{
    HidppRequest, HidppResponse, LONG_REPORT_ID, LONG_REPORT_LEN, SHORT_REPORT_ID,
    SHORT_REPORT_LEN,
};

#[test]
fn encode_short_report() {
    let req = HidppRequest::new(0x01, 0x05, 0x00, vec![0xAA, 0xBB]);
    let encoded = req.encode().unwrap();
    assert_eq!(encoded.len(), SHORT_REPORT_LEN);
    assert_eq!(encoded[0], SHORT_REPORT_ID);
    assert_eq!(encoded[1], 0x01); // device index
    assert_eq!(encoded[2], 0x05); // feature index
    assert_eq!(encoded[3], 0x01); // function=0 << 4 | sw_id=1
    assert_eq!(encoded[4], 0xAA);
    assert_eq!(encoded[5], 0xBB);
    assert_eq!(encoded[6], 0x00); // padding
}

#[test]
fn encode_long_report() {
    let params = vec![1, 2, 3, 4, 5, 6, 7, 8];
    let req = HidppRequest::new(0x01, 0x03, 0x02, params.clone());
    let encoded = req.encode().unwrap();
    assert_eq!(encoded.len(), LONG_REPORT_LEN);
    assert_eq!(encoded[0], LONG_REPORT_ID);
    assert_eq!(encoded[3], (0x02 << 4) | 0x01); // function=2, sw_id=1
    assert_eq!(&encoded[4..12], &params[..]);
}

#[test]
fn encode_rejects_oversized_params() {
    let params = vec![0u8; 17]; // exceeds the 16-byte long report limit
    let req = HidppRequest::new(0x01, 0x00, 0x00, params);
    assert!(req.encode().is_err());
}

#[test]
fn encode_oversized_params_is_framing_error() {
    let req = HidppRequest::new(0x01, 0x00, 0x00, vec![0u8; 17]);
    assert!(matches!(req.encode(), Err(Error::Framing(_))));
}

#[test]
fn encode_boundary_three_params_is_short() {
    let req = HidppRequest::new(0x01, 0x05, 0x01, vec![1, 2, 3]);
    assert_eq!(req.encode().unwrap().len(), SHORT_REPORT_LEN);
}

#[test]
fn encode_boundary_four_params_is_long() {
    let req = HidppRequest::new(0x01, 0x05, 0x01, vec![1, 2, 3, 4]);
    let encoded = req.encode().unwrap();
    assert_eq!(encoded.len(), LONG_REPORT_LEN);
    // padding after the params is all zeros
    assert!(encoded[8..].iter().all(|&b| b == 0));
}

#[test]
fn encode_boundary_sixteen_params_is_long() {
    let req = HidppRequest::new(0x01, 0x05, 0x01, vec![0x7Fu8; 16]);
    assert_eq!(req.encode().unwrap().len(), LONG_REPORT_LEN);
}

#[test]
fn decode_short_response() {
    let data = [SHORT_REPORT_ID, 0x01, 0x05, 0x01, 0xAA, 0xBB, 0x00];
    let resp = HidppResponse::decode(&data).unwrap();
    assert!(!resp.is_long);
    assert_eq!(resp.device_index, 0x01);
    assert_eq!(resp.feature_index, 0x05);
    assert_eq!(resp.function(), 0x00);
    assert_eq!(resp.params, vec![0xAA, 0xBB, 0x00]);
}

#[test]
fn decode_long_response() {
    let mut data = vec![LONG_REPORT_ID, 0x01, 0x03, 0x21];
    data.extend_from_slice(&[0x0C, 0x80, 0x00, 0x00]); // DPI bytes
    data.resize(LONG_REPORT_LEN, 0);
    let resp = HidppResponse::decode(&data).unwrap();
    assert!(resp.is_long);
    assert_eq!(resp.function(), 0x02);
    assert_eq!(resp.params[0], 0x0C);
    assert_eq!(resp.params[1], 0x80);
}

#[test]
fn decode_rejects_short_data() {
    let data = [0x10, 0x01, 0x02]; // too short
    assert!(HidppResponse::decode(&data).is_err());
}

#[test]
fn decode_rejects_unknown_report_id() {
    let data = [0x99, 0x01, 0x02, 0x03, 0x04, 0x05, 0x06];
    assert!(HidppResponse::decode(&data).is_err());
}

#[test]
fn decode_failure_is_framing_error() {
    assert!(matches!(
        HidppResponse::decode(&[0x10, 0x01]),
        Err(Error::Framing(_))
    ));
    assert!(matches!(
        HidppResponse::decode(&[0x99, 0, 0, 0, 0, 0, 0]),
        Err(Error::Framing(_))
    ));
}

#[test]
fn decode_rejects_truncated_long_report() {
    // long marker but only 7 bytes on the wire
    let data = [LONG_REPORT_ID, 0x01, 0x05, 0x01, 0x00, 0x00, 0x00];
    assert!(HidppResponse::decode(&data).is_err());
}

#[test]
fn error_response_detected() {
    let data = [SHORT_REPORT_ID, 0x01, 0xFF, 0x01, 0x05, 0x02, 0x00];
    let resp = HidppResponse::decode(&data).unwrap();
    assert!(resp.is_error());
}

#[test]
fn roundtrip_request_response() {
    let req = HidppRequest::new(0x01, 0x05, 0x00, vec![0xAA]);
    let encoded = req.encode().unwrap();
    let resp = HidppResponse::decode(&encoded).unwrap();
    assert_eq!(resp.device_index, req.device_index);
    assert_eq!(resp.feature_index, req.feature_index);
    assert_eq!(resp.function_sw, req.function_sw);
}

#[test]
fn roundtrip_long_request_response() {
    let req = HidppRequest::new(0x02, 0x09, 0x03, vec![9, 8, 7, 6, 5]);
    let encoded = req.encode().unwrap();
    let resp = HidppResponse::decode(&encoded).unwrap();
    assert!(resp.is_long);
    assert_eq!(resp.device_index, req.device_index);
    assert_eq!(resp.feature_index, req.feature_index);
    assert_eq!(resp.function_sw, req.function_sw);
    assert_eq!(&resp.params[..5], &[9, 8, 7, 6, 5]);
}
