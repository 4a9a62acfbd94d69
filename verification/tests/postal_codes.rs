//! Boundary behaviour of the postal-code types.

use reactive_service::canada_postal_code::CanadaPostalCode;
use reactive_service::canada_postal_code_nutype::CanadaPostalCodeNuType;
use reactive_service::errors::OrderError;
use reactive_service::postal_code::{PostalCode, PostalCodeError};

#[test]
fn compact_form_parses() {
    let code = CanadaPostalCode::parse("A1A0B0").unwrap();
    assert_eq!(code.to_text(), "A1A 0B0");
    assert_eq!(code.compact_text(), "A1A0B0");
}

#[test]
fn spaced_form_parses() {
    let code = CanadaPostalCode::parse("A1A 0B0").unwrap();
    assert_eq!(code.to_text(), "A1A 0B0");
}

#[test]
fn lower_case_is_normalised() {
    let code = CanadaPostalCode::parse("a1a 0b0").unwrap();
    assert_eq!(code.to_text(), "A1A 0B0");
}

#[test]
fn surrounding_whitespace_is_trimmed() {
    let code = CanadaPostalCode::parse("  k1b 0a1\n").unwrap();
    assert_eq!(code.to_text(), "K1B 0A1");
}

#[test]
fn short_input_is_rejected() {
    assert_eq!(CanadaPostalCode::parse("A1A"), Err(OrderError::InvalidPostalCode));
}

#[test]
fn digits_only_are_rejected() {
    assert_eq!(CanadaPostalCode::parse("21111"), Err(OrderError::InvalidPostalCode));
}

#[test]
fn repeated_code_is_rejected() {
    assert_eq!(CanadaPostalCode::parse("A1A 0B0 A1A"), Err(OrderError::InvalidPostalCode));
}

#[test]
fn forbidden_first_letter_is_rejected() {
    assert_eq!(CanadaPostalCode::parse("D1A 0B0"), Err(OrderError::InvalidPostalCode));
}

#[test]
fn space_in_wrong_place_is_rejected() {
    assert!(CanadaPostalCode::parse("A1 A0B0").is_err());
}

#[test]
fn exact_type_accepts_upper_case() {
    assert!(PostalCode::try_from_text("A1A 1A1").is_ok());
    assert!(PostalCode::try_from_text("A1A1A1").is_ok());
}

#[test]
fn exact_type_rejects_lower_case() {
    assert!(matches!(
        PostalCode::try_from_text("a1a 1a1"),
        Err(PostalCodeError::InvalidPostalCode)
    ));
}

#[test]
fn exact_type_rejects_malformed_input() {
    assert!(PostalCode::try_from_text("A1A").is_err());
    assert!(PostalCode::try_from_text("A1A 1A1 A1A").is_err());
    assert!(PostalCode::try_from_text("21111").is_err());
}

#[test]
fn exact_type_renders_with_space() {
    assert_eq!(PostalCode::try_from_text("A1A 1A1").unwrap().to_text(), "A1A 1A1");
    assert_eq!(PostalCode::try_from_text("A1A1A1").unwrap().to_text(), "A1A 1A1");
}

#[test]
fn exact_type_error_text() {
    let e = PostalCode::try_from_text("nope").unwrap_err();
    assert_eq!(e.as_text(), "Invalid postal code format");
}

#[test]
fn sanitising_type_drops_spaces_anywhere() {
    let code = CanadaPostalCodeNuType::parse(" k1b 0 a1 ").unwrap();
    assert_eq!(code.to_text(), "K1B0A1");
    assert!(CanadaPostalCodeNuType::parse("K1B0A1").is_ok());
    assert!(CanadaPostalCodeNuType::parse("K1B").is_err());
}
