//! Rendering of address and coordinate inputs into their wire form.

use geocodio_lib_rust::{AddressInput, AddressParams, Coordinates};

fn full_input() -> AddressInput {
    AddressInput {
        line_1: Some("1500 Sugar Bowl Dr".to_string()),
        line_2: None,
        city: Some("New Orleans".to_string()),
        state: Some("LA".to_string()),
        country: Some("US".to_string()),
        postal_code: Some("70112".to_string()),
    }
}

#[test]
fn render_structured_subset_keeps_order_and_commas() {
    let rendered = full_input().fmt_string();
    assert_eq!(rendered, "1500 Sugar Bowl Dr, New Orleans, LA, 70112, US");
}

#[test]
fn render_all_fields_in_fixed_order() {
    let input = AddressInput {
        line_1: Some("a".to_string()),
        line_2: Some("b".to_string()),
        city: Some("c".to_string()),
        state: Some("d".to_string()),
        country: Some("f".to_string()),
        postal_code: Some("e".to_string()),
    };
    // postal code renders before country, whatever the struct order suggests
    assert_eq!(input.fmt_string(), "a, b, c, d, e, f");
}

#[test]
fn render_single_field_has_no_separator() {
    let input = AddressInput {
        line_1: None,
        line_2: None,
        city: Some("Tulsa".to_string()),
        state: None,
        country: None,
        postal_code: None,
    };
    assert_eq!(input.fmt_string(), "Tulsa");
}

#[test]
fn render_all_absent_is_empty() {
    let input = AddressInput {
        line_1: None,
        line_2: None,
        city: None,
        state: None,
        country: None,
        postal_code: None,
    };
    assert_eq!(input.fmt_string(), "");
}

#[test]
fn render_skips_absent_middle_fields_without_double_commas() {
    let input = AddressInput {
        line_1: Some("1 Main St".to_string()),
        line_2: None,
        city: None,
        state: Some("TX".to_string()),
        country: None,
        postal_code: None,
    };
    let rendered = input.fmt_string();
    assert_eq!(rendered, "1 Main St, TX");
    assert!(!rendered.contains(",,"));
    assert!(!rendered.contains(", ,"));
}

#[test]
fn render_freeform_is_unchanged() {
    let params = AddressParams::Freeform("1500 Sugar Bowl Dr, New Orleans, LA 70112".to_string());
    assert_eq!(params.render(), "1500 Sugar Bowl Dr, New Orleans, LA 70112");
}

#[test]
fn render_structured_goes_through_fmt_string() {
    let params = AddressParams::Structured(full_input());
    assert_eq!(params.render(), "1500 Sugar Bowl Dr, New Orleans, LA, 70112, US");
}

#[test]
fn render_coordinates_full_precision() {
    let c = Coordinates {
        latitude: format!("{}", 40.81352f64),
        longitude: format!("{}", -74.074333f64),
    };
    assert_eq!(c.fmt_string(), "40.81352,-74.074333");
}
