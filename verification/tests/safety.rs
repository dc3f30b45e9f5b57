//! Tests for the safety gate.

use open_g_hub_core::error::Error;
use open_g_hub_core::features;
use open_g_hub_core::safety::{
    validate_button_index, validate_dpi, validate_feature_id, validate_hidpp_request,
    validate_polling_rate, BRICKING_DISCLAIMER,
};
use open_g_hub_core::device::PollingRate;

#[test]
fn validate_dpi_in_range() {
    assert_eq!(validate_dpi(800).unwrap(), 800);
    assert_eq!(validate_dpi(100).unwrap(), 100);
    assert_eq!(validate_dpi(25600).unwrap(), 25600);
}

#[test]
fn validate_dpi_rounds_to_step() {
    assert_eq!(validate_dpi(810).unwrap(), 800);
    assert_eq!(validate_dpi(825).unwrap(), 850);
    assert_eq!(validate_dpi(130).unwrap(), 150);
}

#[test]
fn validate_dpi_rejects_out_of_range() {
    assert!(validate_dpi(50).is_err());
    assert!(validate_dpi(0).is_err());
    assert!(validate_dpi(30000).is_err());
}

#[test]
fn validate_dpi_error_names_field_and_bounds() {
    match validate_dpi(50) {
        Err(Error::OutOfRange { field, value, min, max }) => {
            assert_eq!(field, "dpi");
            assert_eq!(value, 50);
            assert_eq!(min, 100);
            assert_eq!(max, 25600);
        }
        other => panic!("expected an out-of-range rejection, got {:?}", other),
    }
}

#[test]
fn validate_polling_rate_accepts_known() {
    assert_eq!(validate_polling_rate(125).unwrap(), PollingRate::Hz125);
    assert_eq!(validate_polling_rate(1000).unwrap(), PollingRate::Hz1000);
}

#[test]
fn validate_polling_rate_rejects_unknown() {
    assert!(validate_polling_rate(200).is_err());
    assert!(validate_polling_rate(0).is_err());
}

#[test]
fn validate_polling_rate_error_names_field() {
    match validate_polling_rate(200) {
        Err(Error::OutOfRange { field, value, .. }) => {
            assert_eq!(field, "polling_rate");
            assert_eq!(value, 200);
        }
        other => panic!("expected an out-of-range rejection, got {:?}", other),
    }
}

#[test]
fn validate_button_index_in_range() {
    for i in 0..6 {
        assert!(validate_button_index(i).is_ok());
    }
}

#[test]
fn validate_button_index_out_of_range() {
    assert!(validate_button_index(6).is_err());
    assert!(validate_button_index(100).is_err());
}

#[test]
fn validate_feature_whitelist_allows_known() {
    assert!(validate_feature_id(features::ROOT).is_ok());
    assert!(validate_feature_id(features::ADJUSTABLE_DPI).is_ok());
    assert!(validate_feature_id(features::REPORT_RATE).is_ok());
    assert!(validate_feature_id(features::REPROG_CONTROLS_V4).is_ok());
    assert!(validate_feature_id(features::ONBOARD_PROFILES).is_ok());
}

#[test]
fn validate_feature_whitelist_rejects_unknown() {
    // DFU-like feature IDs that must be blocked
    assert!(validate_feature_id(0x00D0).is_err());
    assert!(validate_feature_id(0x1802).is_err());
    assert!(validate_feature_id(0xFFFF).is_err());
}

#[test]
fn validate_hidpp_request_ok() {
    assert!(validate_hidpp_request(features::ADJUSTABLE_DPI, 0x00).is_ok());
    assert!(validate_hidpp_request(features::ADJUSTABLE_DPI, 0x0F).is_ok());
}

#[test]
fn validate_hidpp_request_rejects_bad_feature() {
    assert!(validate_hidpp_request(0x00D0, 0x00).is_err());
}

#[test]
fn validate_hidpp_request_rejects_wide_function_id() {
    match validate_hidpp_request(features::ROOT, 0x10) {
        Err(Error::OutOfRange { field, value, min, max }) => {
            assert_eq!(field, "function_id");
            assert_eq!(value, 0x10);
            assert_eq!(min, 0);
            assert_eq!(max, 15);
        }
        other => panic!("expected an out-of-range rejection, got {:?}", other),
    }
}

#[test]
fn validate_hidpp_request_accepts_all_function_ids() {
    // Function IDs are 4-bit (0-15); all are accepted for allowed features
    for f in 0..=0x0F {
        assert!(validate_hidpp_request(features::ROOT, f).is_ok());
    }
}

#[test]
fn bricking_disclaimer_not_empty() {
    assert!(!BRICKING_DISCLAIMER.is_empty());
    assert!(BRICKING_DISCLAIMER.contains("WARNING"));
}
