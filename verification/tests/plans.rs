//! Planned requests: URL shape, method, API key placement, and the batch
//! body's positional correspondence with the input list.

use geocodio_lib_rust::{
    AddressInput, AddressParams, Coordinates, GeocodioProxy, HttpMethod,
};

fn proxy() -> GeocodioProxy {
    GeocodioProxy::new_from_key("TESTKEY".to_string()).unwrap()
}

#[test]
fn new_from_key_stores_key_and_base() {
    let p = proxy();
    assert_eq!(p.api_key, "TESTKEY");
    assert_eq!(p.base_url, "https://api.geocod.io/v1.7/");
}

#[test]
fn single_geocode_plan_is_get_with_key_last() {
    let p = proxy();
    let params = AddressParams::Freeform("1500 Sugar Bowl Dr, New Orleans, LA 70112".to_string());
    let plan = p.plan_geocode(&params, None);
    assert!(matches!(plan.method, HttpMethod::Get));
    assert!(plan.body.is_none());
    assert_eq!(
        plan.url,
        "https://api.geocod.io/v1.7/geocode?q=1500 Sugar Bowl Dr, New Orleans, LA 70112&api_key=TESTKEY"
    );
}

#[test]
fn single_geocode_plan_carries_fields_csv() {
    let p = proxy();
    let params = AddressParams::Freeform("x".to_string());
    let fields = vec!["timezone".to_string(), "zip4".to_string()];
    let plan = p.plan_geocode(&params, Some(&fields));
    assert_eq!(
        plan.url,
        "https://api.geocod.io/v1.7/geocode?q=x&fields=timezone,zip4&api_key=TESTKEY"
    );
}

#[test]
fn reverse_plan_renders_coordinates_as_query() {
    let p = proxy();
    let c = Coordinates {
        latitude: "40.81352".to_string(),
        longitude: "-74.074333".to_string(),
    };
    let plan = p.plan_reverse_geocode(&c);
    assert!(matches!(plan.method, HttpMethod::Get));
    assert_eq!(
        plan.url,
        "https://api.geocod.io/v1.7/reverse?q=40.81352,-74.074333&api_key=TESTKEY"
    );
}

#[test]
fn batch_plan_is_post_with_key_in_url() {
    let p = proxy();
    let addresses = vec![
        AddressParams::Freeform("a".to_string()),
        AddressParams::Freeform("b".to_string()),
    ];
    let plan = p.plan_geocode_batch(&addresses);
    assert!(matches!(plan.method, HttpMethod::Post));
    assert_eq!(plan.url, "https://api.geocod.io/v1.7/geocode?api_key=TESTKEY");
}

#[test]
fn batch_body_preserves_length_and_order() {
    let p = proxy();
    let addresses = vec![
        AddressParams::Freeform("1500 Sugar Bowl Dr, New Orleans, LA 70112".to_string()),
        AddressParams::Structured(AddressInput {
            line_1: Some("1 MetLife Stadium Dr".to_string()),
            line_2: None,
            city: Some("East Rutherford".to_string()),
            state: Some("NJ".to_string()),
            country: None,
            postal_code: Some("07073".to_string()),
        }),
        AddressParams::Freeform("1 AT&T Way, Arlington, TX 76011".to_string()),
    ];
    let plan = p.plan_geocode_batch(&addresses);
    let body = plan.body.expect("batch plan must carry a body");
    assert_eq!(body.len(), 3);
    assert_eq!(body[0], "1500 Sugar Bowl Dr, New Orleans, LA 70112");
    assert_eq!(body[1], "1 MetLife Stadium Dr, East Rutherford, NJ, 07073");
    assert_eq!(body[2], "1 AT&T Way, Arlington, TX 76011");
}

#[test]
fn reverse_batch_body_preserves_length_and_order() {
    let p = proxy();
    let coords = vec![
        Coordinates { latitude: "40.81352".to_string(), longitude: "-74.074333".to_string() },
        Coordinates { latitude: "35.9746000".to_string(), longitude: "-77.9658000".to_string() },
        Coordinates { latitude: "32.8793700".to_string(), longitude: "-96.6303900".to_string() },
    ];
    let plan = p.plan_reverse_geocode_batch(&coords);
    assert_eq!(plan.url, "https://api.geocod.io/v1.7/reverse?api_key=TESTKEY");
    let body = plan.body.expect("batch plan must carry a body");
    assert_eq!(body.len(), 3);
    assert_eq!(body[0], "40.81352,-74.074333");
    assert_eq!(body[1], "35.9746000,-77.9658000");
    assert_eq!(body[2], "32.8793700,-96.6303900");
}
