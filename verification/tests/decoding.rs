//! Decoding of response bodies: the three response shapes, absent-field
//! handling, extended fields, and structural failures.

use geocodio_lib_rust::decode::{
    decode_batch_body, decode_geocode_body, decode_geocode_response, decode_reverse_body,
    decode_timezone,
};
use geocodio_lib_rust::response::{Address, AddressComponents, Location};

const GEOCODE_FIXTURE: &str = r#"{
  "input": {
    "address_components": {
      "number": "1500",
      "street": "Sugar Bowl",
      "suffix": "Dr",
      "formatted_street": "Sugar Bowl Dr",
      "city": "New Orleans",
      "state": "LA",
      "zip": "70112",
      "country": "US"
    },
    "formatted_address": "1500 Sugar Bowl Dr, New Orleans, LA 70112"
  },
  "results": [
    {
      "address_components": {
        "number": "1500",
        "street": "Sugar Bowl",
        "suffix": "Dr",
        "formatted_street": "Sugar Bowl Dr",
        "city": "New Orleans",
        "county": "Orleans Parish",
        "state": "LA",
        "zip": "70112",
        "country": "US"
      },
      "formatted_address": "1500 Sugar Bowl Dr, New Orleans, LA 70112",
      "location": { "lat": 29.9512, "lng": -90.0812 },
      "accuracy": 1,
      "accuracy_type": "rooftop",
      "source": "City of New Orleans"
    }
  ]
}"#;

#[test]
fn geocode_fixture_first_candidate_near_expected_point() {
    let resp = decode_geocode_body(GEOCODE_FIXTURE).unwrap();
    assert!(!resp.results.is_empty());
    let first = &resp.results[0];
    let loc = first.location.as_ref().unwrap();
    let lat: f64 = loc.lat.as_ref().unwrap().parse().unwrap();
    let lng: f64 = loc.lng.as_ref().unwrap().parse().unwrap();
    assert!((lat - 29.951).abs() < 0.01);
    assert!((lng - -90.081).abs() < 0.01);
    assert_eq!(
        resp.input.formatted_address,
        "1500 Sugar Bowl Dr, New Orleans, LA 70112"
    );
    assert_eq!(first.accuracy_type.as_deref(), Some("rooftop"));
    assert_eq!(first.accuracy.as_deref(), Some("1"));
}

#[test]
fn geocode_fixture_decodes_to_equal_values_each_time() {
    let once = decode_geocode_body(GEOCODE_FIXTURE).unwrap();
    let twice = decode_geocode_body(GEOCODE_FIXTURE).unwrap();
    assert_eq!(once, twice);
}

#[test]
fn geocode_fixture_reproduces_expected_value() {
    let resp = decode_geocode_body(GEOCODE_FIXTURE).unwrap();
    let expected_first = Address {
        address_components: Some(AddressComponents {
            number: Some("1500".to_string()),
            predirectional: None,
            street: Some("Sugar Bowl".to_string()),
            suffix: Some("Dr".to_string()),
            formatted_street: Some("Sugar Bowl Dr".to_string()),
            city: Some("New Orleans".to_string()),
            county: Some("Orleans Parish".to_string()),
            state: Some("LA".to_string()),
            zip: Some("70112".to_string()),
            country: Some("US".to_string()),
        }),
        formatted_address: Some("1500 Sugar Bowl Dr, New Orleans, LA 70112".to_string()),
        location: Some(Location {
            lat: Some("29.9512".to_string()),
            lng: Some("-90.0812".to_string()),
        }),
        accuracy: Some("1".to_string()),
        accuracy_type: Some("rooftop".to_string()),
        source: Some("City of New Orleans".to_string()),
        fields: None,
    };
    assert_eq!(resp.results.len(), 1);
    assert_eq!(resp.results[0], expected_first);
}

#[test]
fn reverse_fixture_has_candidate_with_formatted_address() {
    let body = r#"{
      "results": [
        {
          "formatted_address": "500 Paterson Plank Rd, East Rutherford, NJ 07073",
          "location": { "lat": 40.81352, "lng": -74.074333 },
          "accuracy": 0.9,
          "accuracy_type": "nearest_street",
          "source": "TIGER"
        }
      ]
    }"#;
    let resp = decode_reverse_body(body).unwrap();
    let results = resp.results.unwrap();
    assert!(!results.is_empty());
    let formatted = results[0].formatted_address.as_ref().unwrap();
    assert!(!formatted.is_empty());
}

#[test]
fn reverse_absent_results_decodes_to_absent() {
    let resp = decode_reverse_body("{}").unwrap();
    assert!(resp.results.is_none());
}

#[test]
fn missing_optional_fields_decode_to_absent_not_defaults() {
    let body = r#"{
      "input": {
        "address_components": {},
        "formatted_address": "somewhere"
      },
      "results": [ { "formatted_address": "somewhere" } ]
    }"#;
    let resp = decode_geocode_body(body).unwrap();
    let first = &resp.results[0];
    // absent means None: never an empty string, never zero
    assert!(first.accuracy_type.is_none());
    assert!(first.accuracy.is_none());
    assert!(first.location.is_none());
    assert!(first.address_components.is_none());
    assert!(first.source.is_none());
    assert!(resp.input.address_components.city.is_none());
}

#[test]
fn null_optional_field_decodes_to_absent() {
    let body = r#"{
      "input": { "address_components": {}, "formatted_address": "x" },
      "results": [ { "accuracy_type": null, "location": null } ]
    }"#;
    let resp = decode_geocode_body(body).unwrap();
    assert!(resp.results[0].accuracy_type.is_none());
    assert!(resp.results[0].location.is_none());
}

#[test]
fn empty_results_array_is_an_empty_vector() {
    let body = r#"{
      "input": { "address_components": {}, "formatted_address": "x" },
      "results": []
    }"#;
    let resp = decode_geocode_body(body).unwrap();
    assert!(resp.results.is_empty());
}

#[test]
fn extended_fields_decode_timezone_and_census() {
    let body = r#"{
      "input": { "address_components": {}, "formatted_address": "x" },
      "results": [
        {
          "formatted_address": "x",
          "fields": {
            "timezone": {
              "name": "America/Chicago",
              "abbreviation": "CST",
              "utc_offset": -6,
              "observes_dst": true,
              "source": "© OpenStreetMap contributors"
            },
            "school_districts": {
              "unified": {
                "name": "Orleans Parish",
                "lea_code": "2200000",
                "grade_low": "PK",
                "grade_high": "12"
              }
            },
            "census": { "2020": { "tract_code": "013800" } }
          }
        }
      ]
    }"#;
    let resp = decode_geocode_body(body).unwrap();
    let fields = resp.results[0].fields.as_ref().unwrap();
    let tz = fields.timezone.as_ref().unwrap();
    assert_eq!(tz.name, "America/Chicago");
    assert_eq!(tz.utc_offset, -6);
    assert!(tz.observes_dst);
    let sd = fields.school_districts.as_ref().unwrap();
    assert_eq!(sd.unified.as_ref().unwrap().lea_code, "2200000");
    assert!(sd.elementary.is_none());
    // the census blob passes through as the raw JSON the service sent
    let census = fields.census.as_ref().unwrap();
    let expected: serde_json::Value =
        serde_json::from_str(r#"{ "2020": { "tract_code": "013800" } }"#).unwrap();
    assert_eq!(census, &expected);
    assert!(fields.acs.is_none());
    assert!(fields.zip4.is_none());
}

#[test]
fn zip4_fields_decode_fully() {
    let body = r#"{
      "record_type": { "code": "S", "description": "Street" },
      "carrier_route": { "id": "C033", "description": "City Delivery" },
      "building_or_firm_name": null,
      "plus4": ["3262", "3263"],
      "zip9": ["70112-3262", "70112-3263"],
      "facility_code": { "code": "P", "description": "Post Office" },
      "city_delivery": true,
      "valid_delivery_area": true,
      "exact_match": false
    }"#;
    let v: serde_json::Value = serde_json::from_str(body).unwrap();
    let z = geocodio_lib_rust::decode::decode_zip4(&v).unwrap();
    assert_eq!(z.record_type.code, "S");
    assert_eq!(z.carrier_route.id, "C033");
    assert!(z.building_or_firm_name.is_none());
    assert_eq!(z.plus4, vec!["3262".to_string(), "3263".to_string()]);
    assert_eq!(z.zip9.len(), 2);
    assert_eq!(z.facility_code.description, "Post Office");
    assert!(z.city_delivery);
    assert!(z.valid_delivery_area);
    assert!(!z.exact_match);
}

#[test]
fn batch_fixture_preserves_length_and_query_alignment() {
    let inputs = [
        "1500 Sugar Bowl Dr, New Orleans, LA 70112",
        "1 MetLife Stadium Dr, East Rutherford, NJ 07073",
        "1 AT&T Way, Arlington, TX 76011",
    ];
    let body = r#"{
      "results": [
        {
          "query": "1500 Sugar Bowl Dr, New Orleans, LA 70112",
          "response": { "results": [ { "formatted_address": "1500 Sugar Bowl Dr, New Orleans, LA 70112" } ] }
        },
        {
          "query": "1 MetLife Stadium Dr, East Rutherford, NJ 07073",
          "response": { "results": [ { "formatted_address": "1 MetLife Stadium Dr, East Rutherford, NJ 07073" } ] }
        },
        {
          "query": "1 AT&T Way, Arlington, TX 76011",
          "response": { "results": [] }
        }
      ]
    }"#;
    let resp = decode_batch_body(body).unwrap();
    let results = resp.results.unwrap();
    assert_eq!(results.len(), 3);
    for (i, item) in results.iter().enumerate() {
        assert_eq!(item.query.as_deref(), Some(inputs[i]));
    }
    let sub = results[0].response.as_ref().unwrap();
    let sub_results = sub.results.as_ref().unwrap();
    assert_eq!(
        sub_results[0].formatted_address.as_deref(),
        Some("1500 Sugar Bowl Dr, New Orleans, LA 70112")
    );
    assert!(results[2].response.as_ref().unwrap().results.as_ref().unwrap().is_empty());
}

#[test]
fn batch_result_without_echo_decodes_with_absent_query() {
    let body = r#"{ "results": [ { "response": { "results": [] } } ] }"#;
    let resp = decode_batch_body(body).unwrap();
    let results = resp.results.unwrap();
    assert!(results[0].query.is_none());
    assert!(results[0].response.is_some());
}

#[test]
fn timezone_offset_must_be_a_whole_number() {
    let good: serde_json::Value = serde_json::from_str(
        r#"{ "name": "UTC", "abbreviation": "UTC", "utc_offset": 0, "observes_dst": false, "source": "x" }"#,
    )
    .unwrap();
    assert_eq!(decode_timezone(&good).unwrap().utc_offset, 0);
    let fractional: serde_json::Value = serde_json::from_str(
        r#"{ "name": "UTC", "abbreviation": "UTC", "utc_offset": 5.5, "observes_dst": false, "source": "x" }"#,
    )
    .unwrap();
    assert!(decode_timezone(&fractional).is_err());
    let too_big: serde_json::Value = serde_json::from_str(
        r#"{ "name": "UTC", "abbreviation": "UTC", "utc_offset": 32768, "observes_dst": false, "source": "x" }"#,
    )
    .unwrap();
    assert!(decode_timezone(&too_big).is_err());
}

#[test]
fn wrong_type_for_required_field_is_a_decode_error() {
    // "results" must be an array, not a number
    let body = r#"{
      "input": { "address_components": {}, "formatted_address": "x" },
      "results": 5
    }"#;
    let err = decode_geocode_body(body).unwrap_err();
    assert!(!err.message().is_empty());
}

#[test]
fn missing_required_field_is_a_decode_error() {
    // no "input" member at all
    let body = r#"{ "results": [] }"#;
    assert!(decode_geocode_body(body).is_err());
}

#[test]
fn wrong_type_inside_candidate_is_a_decode_error() {
    let body = r#"{
      "input": { "address_components": {}, "formatted_address": "x" },
      "results": [ { "formatted_address": 7 } ]
    }"#;
    assert!(decode_geocode_body(body).is_err());
}

#[test]
fn invalid_json_is_a_decode_error_not_a_panic() {
    assert!(decode_geocode_body("{ not json").is_err());
    assert!(decode_reverse_body("").is_err());
    assert!(decode_batch_body("[1, 2").is_err());
}

#[test]
fn top_level_non_object_is_a_decode_error() {
    let v: serde_json::Value = serde_json::from_str("[1, 2, 3]").unwrap();
    assert!(decode_geocode_response(&v).is_err());
}

#[test]
fn unknown_members_are_ignored() {
    let body = r#"{
      "input": { "address_components": {}, "formatted_address": "x" },
      "results": [],
      "some_future_member": { "anything": [1, 2, 3] }
    }"#;
    assert!(decode_geocode_body(body).is_ok());
}
