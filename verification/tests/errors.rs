//! The error surface: one distinguishable kind per failure class.

use geocodio_lib_rust::decode::decode_geocode_body;
use geocodio_lib_rust::{DecodeError, GeocodioError};

#[test]
fn decode_failure_carries_its_cause() {
    let err = decode_geocode_body(r#"{ "results": [] }"#).unwrap_err();
    // the diagnostic names the offending member
    assert!(err.message().contains("input"));
}

#[test]
fn error_messages_name_their_kind() {
    let config = GeocodioError::Config("GEOCODIO_API_KEY is not set".to_string());
    assert_eq!(config.message(), "configuration error: GEOCODIO_API_KEY is not set");
    let transport = GeocodioError::Transport("status 403".to_string());
    assert_eq!(transport.message(), "transport error: status 403");
    let decode = GeocodioError::Decode(DecodeError { detail: "input: missing required member".to_string() });
    assert_eq!(decode.message(), "decode error: input: missing required member");
}

#[test]
fn error_kinds_are_distinguishable() {
    let config = GeocodioError::Config("GEOCODIO_API_KEY is not set".to_string());
    let transport = GeocodioError::Transport("status 403".to_string());
    let decode = GeocodioError::Decode(DecodeError { detail: "results: expected an array".to_string() });
    assert!(matches!(config, GeocodioError::Config(_)));
    assert!(matches!(transport, GeocodioError::Transport(_)));
    assert!(matches!(decode, GeocodioError::Decode(_)));
    assert_ne!(config, transport);
}
