//! Response model: the typed records mirroring the service's JSON schema.
//! Every wire-optional field is an explicit `Option`; "absent" is never
//! represented by a default placeholder value. Numeric wire fields whose
//! precision matters (coordinates, accuracy scores) are carried as decimal
//! text, exactly as the wire held them.
//!
//! Each record has a spec-level mirror (`Spec*`) reached through `View`; the
//! decoding and encoding specs are stated over the mirrors.

use vstd::prelude::*;
use vstd::seq_lib::*;

use crate::json::{jview, JsonView};

verus! {

/// The view of an optional viewable value: absent stays absent.
pub open spec fn ov<T: View>(o: Option<T>) -> Option<T::V> {
    match o {
        Some(t) => Some(t@),
        None => None,
    }
}

/// The view of an optional raw JSON value.
pub open spec fn jov(o: Option<serde_json::Value>) -> Option<JsonView> {
    match o {
        Some(v) => Some(jview(v)),
        None => None,
    }
}

/// The view of an optional vector of viewable values.
pub open spec fn ovv<T: View>(o: Option<Vec<T>>) -> Option<Seq<T::V>> {
    match o {
        Some(v) => Some(v@.map_values(|t: T| t@)),
        None => None,
    }
}

/// The individual components of one address, as the service parsed or
/// resolved them. Components the service could not resolve are absent.
#[derive(Debug, Clone, PartialEq, Eq)]
pub struct AddressComponents {
    pub number: Option<String>,
    pub predirectional: Option<String>,
    pub street: Option<String>,
    pub suffix: Option<String>,
    pub formatted_street: Option<String>,
    pub city: Option<String>,
    pub county: Option<String>,
    pub state: Option<String>,
    pub zip: Option<String>,
    pub country: Option<String>,
}

#[verifier::ext_equal]
pub struct SpecAddressComponents {
    pub number: Option<Seq<char>>,
    pub predirectional: Option<Seq<char>>,
    pub street: Option<Seq<char>>,
    pub suffix: Option<Seq<char>>,
    pub formatted_street: Option<Seq<char>>,
    pub city: Option<Seq<char>>,
    pub county: Option<Seq<char>>,
    pub state: Option<Seq<char>>,
    pub zip: Option<Seq<char>>,
    pub country: Option<Seq<char>>,
}

impl View for AddressComponents {
    type V = SpecAddressComponents;

    open spec fn view(&self) -> SpecAddressComponents {
        SpecAddressComponents {
            number: ov(self.number),
            predirectional: ov(self.predirectional),
            street: ov(self.street),
            suffix: ov(self.suffix),
            formatted_street: ov(self.formatted_street),
            city: ov(self.city),
            county: ov(self.county),
            state: ov(self.state),
            zip: ov(self.zip),
            country: ov(self.country),
        }
    }
}

/// A resolved point. Each axis is independently optional: in degenerate cases
/// the service may resolve one axis only. Values are decimal text at the
/// wire's full precision.
#[derive(Debug, Clone, PartialEq, Eq)]
pub struct Location {
    pub lat: Option<String>,
    pub lng: Option<String>,
}

#[verifier::ext_equal]
pub struct SpecLocation {
    pub lat: Option<Seq<char>>,
    pub lng: Option<Seq<char>>,
}

impl View for Location {
    type V = SpecLocation;

    open spec fn view(&self) -> SpecLocation {
        SpecLocation { lat: ov(self.lat), lng: ov(self.lng) }
    }
}

/// The name, local education agency code and grade range of one school
/// district.
#[derive(Debug, Clone, PartialEq, Eq)]
pub struct SchoolDistrict {
    pub name: String,
    pub lea_code: String,
    pub grade_low: String,
    pub grade_high: String,
}

#[verifier::ext_equal]
pub struct SpecSchoolDistrict {
    pub name: Seq<char>,
    pub lea_code: Seq<char>,
    pub grade_low: Seq<char>,
    pub grade_high: Seq<char>,
}

impl View for SchoolDistrict {
    type V = SpecSchoolDistrict;

    open spec fn view(&self) -> SpecSchoolDistrict {
        SpecSchoolDistrict {
            name: self.name@,
            lea_code: self.lea_code@,
            grade_low: self.grade_low@,
            grade_high: self.grade_high@,
        }
    }
}

/// The school districts covering an address: unified, or split into
/// elementary and secondary.
#[derive(Debug, Clone, PartialEq, Eq)]
pub struct SchoolDistricts {
    pub unified: Option<SchoolDistrict>,
    pub elementary: Option<SchoolDistrict>,
    pub secondary: Option<SchoolDistrict>,
}

#[verifier::ext_equal]
pub struct SpecSchoolDistricts {
    pub unified: Option<SpecSchoolDistrict>,
    pub elementary: Option<SpecSchoolDistrict>,
    pub secondary: Option<SpecSchoolDistrict>,
}

impl View for SchoolDistricts {
    type V = SpecSchoolDistricts;

    open spec fn view(&self) -> SpecSchoolDistricts {
        SpecSchoolDistricts {
            unified: ov(self.unified),
            elementary: ov(self.elementary),
            secondary: ov(self.secondary),
        }
    }
}

/// The time zone of an address. The offset is whole hours from UTC.
#[derive(Debug, Clone, PartialEq, Eq)]
pub struct Timezone {
    pub name: String,
    pub abbreviation: String,
    pub utc_offset: i16,
    pub observes_dst: bool,
    pub source: String,
}

#[verifier::ext_equal]
pub struct SpecTimezone {
    pub name: Seq<char>,
    pub abbreviation: Seq<char>,
    pub utc_offset: int,
    pub observes_dst: bool,
    pub source: Seq<char>,
}

impl View for Timezone {
    type V = SpecTimezone;

    open spec fn view(&self) -> SpecTimezone {
        SpecTimezone {
            name: self.name@,
            abbreviation: self.abbreviation@,
            utc_offset: self.utc_offset as int,
            observes_dst: self.observes_dst,
            source: self.source@,
        }
    }
}

/// A postal record type code with its description.
#[derive(Debug, Clone, PartialEq, Eq)]
pub struct RecordType {
    pub code: String,
    pub description: String,
}

#[verifier::ext_equal]
pub struct SpecRecordType {
    pub code: Seq<char>,
    pub description: Seq<char>,
}

impl View for RecordType {
    type V = SpecRecordType;

    open spec fn view(&self) -> SpecRecordType {
        SpecRecordType { code: self.code@, description: self.description@ }
    }
}

/// A postal carrier route with its description.
#[derive(Debug, Clone, PartialEq, Eq)]
pub struct CarrierRoute {
    pub id: String,
    pub description: String,
}

#[verifier::ext_equal]
pub struct SpecCarrierRoute {
    pub id: Seq<char>,
    pub description: Seq<char>,
}

impl View for CarrierRoute {
    type V = SpecCarrierRoute;

    open spec fn view(&self) -> SpecCarrierRoute {
        SpecCarrierRoute { id: self.id@, description: self.description@ }
    }
}

/// A postal facility code with its description.
#[derive(Debug, Clone, PartialEq, Eq)]
pub struct FacilityCode {
    pub code: String,
    pub description: String,
}

#[verifier::ext_equal]
pub struct SpecFacilityCode {
    pub code: Seq<char>,
    pub description: Seq<char>,
}

impl View for FacilityCode {
    type V = SpecFacilityCode;

    open spec fn view(&self) -> SpecFacilityCode {
        SpecFacilityCode { code: self.code@, description: self.description@ }
    }
}

/// ZIP+4 postal routing detail.
#[derive(Debug, Clone, PartialEq, Eq)]
pub struct Zip4 {
    pub record_type: RecordType,
    pub carrier_route: CarrierRoute,
    pub building_or_firm_name: Option<String>,
    pub plus4: Vec<String>,
    pub zip9: Vec<String>,
    pub government_building: Option<String>,
    pub facility_code: FacilityCode,
    pub city_delivery: bool,
    pub valid_delivery_area: bool,
    pub exact_match: bool,
}

#[verifier::ext_equal]
pub struct SpecZip4 {
    pub record_type: SpecRecordType,
    pub carrier_route: SpecCarrierRoute,
    pub building_or_firm_name: Option<Seq<char>>,
    pub plus4: Seq<Seq<char>>,
    pub zip9: Seq<Seq<char>>,
    pub government_building: Option<Seq<char>>,
    pub facility_code: SpecFacilityCode,
    pub city_delivery: bool,
    pub valid_delivery_area: bool,
    pub exact_match: bool,
}

impl View for Zip4 {
    type V = SpecZip4;

    open spec fn view(&self) -> SpecZip4 {
        SpecZip4 {
            record_type: self.record_type@,
            carrier_route: self.carrier_route@,
            building_or_firm_name: ov(self.building_or_firm_name),
            plus4: self.plus4@.map_values(|s: String| s@),
            zip9: self.zip9@.map_values(|s: String| s@),
            government_building: ov(self.government_building),
            facility_code: self.facility_code@,
            city_delivery: self.city_delivery,
            valid_delivery_area: self.valid_delivery_area,
            exact_match: self.exact_match,
        }
    }
}

/// One congressional district covering an address. The district and congress
/// numbers are carried as the wire's decimal text.
#[derive(Debug, Clone, PartialEq, Eq)]
pub struct CongressionalDistrict {
    pub name: Option<String>,
    pub district_number: Option<String>,
    pub congress_number: Option<String>,
}

#[verifier::ext_equal]
pub struct SpecCongressionalDistrict {
    pub name: Option<Seq<char>>,
    pub district_number: Option<Seq<char>>,
    pub congress_number: Option<Seq<char>>,
}

impl View for CongressionalDistrict {
    type V = SpecCongressionalDistrict;

    open spec fn view(&self) -> SpecCongressionalDistrict {
        SpecCongressionalDistrict {
            name: ov(self.name),
            district_number: ov(self.district_number),
            congress_number: ov(self.congress_number),
        }
    }
}

/// One state legislative district. The district number is carried as the
/// wire's text.
#[derive(Debug, Clone, PartialEq, Eq)]
pub struct StateLegislativeDistrict {
    pub name: Option<String>,
    pub district_number: Option<String>,
}

#[verifier::ext_equal]
pub struct SpecStateLegislativeDistrict {
    pub name: Option<Seq<char>>,
    pub district_number: Option<Seq<char>>,
}

impl View for StateLegislativeDistrict {
    type V = SpecStateLegislativeDistrict;

    open spec fn view(&self) -> SpecStateLegislativeDistrict {
        SpecStateLegislativeDistrict {
            name: ov(self.name),
            district_number: ov(self.district_number),
        }
    }
}

/// The state legislative districts covering an address.
#[derive(Debug, Clone, PartialEq, Eq)]
pub struct StateLegislativeDistricts {
    pub house: Option<StateLegislativeDistrict>,
    pub senate: Option<StateLegislativeDistrict>,
}

#[verifier::ext_equal]
pub struct SpecStateLegislativeDistricts {
    pub house: Option<SpecStateLegislativeDistrict>,
    pub senate: Option<SpecStateLegislativeDistrict>,
}

impl View for StateLegislativeDistricts {
    type V = SpecStateLegislativeDistricts;

    open spec fn view(&self) -> SpecStateLegislativeDistricts {
        SpecStateLegislativeDistricts { house: ov(self.house), senate: ov(self.senate) }
    }
}

/// The extended fields of one candidate, present only when requested. Census
/// and ACS data have no modelled schema: they are preserved as the raw JSON
/// values the service sent.
#[derive(Debug, Clone, PartialEq)]
pub struct Fields {
    pub timezone: Option<Timezone>,
    pub zip4: Option<Zip4>,
    pub congressional_district: Option<CongressionalDistrict>,
    pub congressional_districts: Option<Vec<CongressionalDistrict>>,
    pub state_legislative_districts: Option<StateLegislativeDistricts>,
    pub school_districts: Option<SchoolDistricts>,
    pub census: Option<serde_json::Value>,
    pub acs: Option<serde_json::Value>,
}

#[verifier::ext_equal]
pub struct SpecFields {
    pub timezone: Option<SpecTimezone>,
    pub zip4: Option<SpecZip4>,
    pub congressional_district: Option<SpecCongressionalDistrict>,
    pub congressional_districts: Option<Seq<SpecCongressionalDistrict>>,
    pub state_legislative_districts: Option<SpecStateLegislativeDistricts>,
    pub school_districts: Option<SpecSchoolDistricts>,
    pub census: Option<JsonView>,
    pub acs: Option<JsonView>,
}

impl View for Fields {
    type V = SpecFields;

    open spec fn view(&self) -> SpecFields {
        SpecFields {
            timezone: ov(self.timezone),
            zip4: ov(self.zip4),
            congressional_district: ov(self.congressional_district),
            congressional_districts: ovv(self.congressional_districts),
            state_legislative_districts: ov(self.state_legislative_districts),
            school_districts: ov(self.school_districts),
            census: jov(self.census),
            acs: jov(self.acs),
        }
    }
}

/// One candidate match for a single-mode lookup, ordered by decreasing
/// confidence among its peers.
#[derive(Debug, Clone, PartialEq)]
pub struct Address {
    pub address_components: Option<AddressComponents>,
    pub formatted_address: Option<String>,
    pub location: Option<Location>,
    pub accuracy: Option<String>,
    pub accuracy_type: Option<String>,
    pub source: Option<String>,
    pub fields: Option<Fields>,
}

#[verifier::ext_equal]
pub struct SpecAddress {
    pub address_components: Option<SpecAddressComponents>,
    pub formatted_address: Option<Seq<char>>,
    pub location: Option<SpecLocation>,
    pub accuracy: Option<Seq<char>>,
    pub accuracy_type: Option<Seq<char>>,
    pub source: Option<Seq<char>>,
    pub fields: Option<SpecFields>,
}

impl View for Address {
    type V = SpecAddress;

    open spec fn view(&self) -> SpecAddress {
        SpecAddress {
            address_components: ov(self.address_components),
            formatted_address: ov(self.formatted_address),
            location: ov(self.location),
            accuracy: ov(self.accuracy),
            accuracy_type: ov(self.accuracy_type),
            source: ov(self.source),
            fields: ov(self.fields),
        }
    }
}

/// One candidate inside a batch sub-response: the same shape as [`Address`]
/// without the extended fields, kept as its own type because the batch
/// envelope's JSON differs slightly from the single-result shape.
#[derive(Debug, Clone, PartialEq, Eq)]
pub struct ResponseResult {
    pub address_components: Option<AddressComponents>,
    pub formatted_address: Option<String>,
    pub location: Option<Location>,
    pub accuracy: Option<String>,
    pub accuracy_type: Option<String>,
    pub source: Option<String>,
}

#[verifier::ext_equal]
pub struct SpecResponseResult {
    pub address_components: Option<SpecAddressComponents>,
    pub formatted_address: Option<Seq<char>>,
    pub location: Option<SpecLocation>,
    pub accuracy: Option<Seq<char>>,
    pub accuracy_type: Option<Seq<char>>,
    pub source: Option<Seq<char>>,
}

impl View for ResponseResult {
    type V = SpecResponseResult;

    open spec fn view(&self) -> SpecResponseResult {
        SpecResponseResult {
            address_components: ov(self.address_components),
            formatted_address: ov(self.formatted_address),
            location: ov(self.location),
            accuracy: ov(self.accuracy),
            accuracy_type: ov(self.accuracy_type),
            source: ov(self.source),
        }
    }
}

/// The service's echo of the submitted input: its components as parsed, and
/// the formatted string it worked on.
#[derive(Debug, Clone, PartialEq, Eq)]
pub struct Input {
    pub address_components: AddressComponents,
    pub formatted_address: String,
}

#[verifier::ext_equal]
pub struct SpecInput {
    pub address_components: SpecAddressComponents,
    pub formatted_address: Seq<char>,
}

impl View for Input {
    type V = SpecInput;

    open spec fn view(&self) -> SpecInput {
        SpecInput {
            address_components: self.address_components@,
            formatted_address: self.formatted_address@,
        }
    }
}

/// A successful single-mode geocode response: the input echo and the
/// candidates, ordered by decreasing confidence.
#[derive(Debug, Clone, PartialEq)]
pub struct GeocodeResponse {
    pub input: Input,
    pub results: Vec<Address>,
}

#[verifier::ext_equal]
pub struct SpecGeocodeResponse {
    pub input: SpecInput,
    pub results: Seq<SpecAddress>,
}

impl View for GeocodeResponse {
    type V = SpecGeocodeResponse;

    open spec fn view(&self) -> SpecGeocodeResponse {
        SpecGeocodeResponse {
            input: self.input@,
            results: self.results@.map_values(|a: Address| a@),
        }
    }
}

/// A reverse-geocode response: absent or empty when no address resolves near
/// the coordinates.
#[derive(Debug, Clone, PartialEq)]
pub struct GeocodeReverseResponse {
    pub results: Option<Vec<Address>>,
}

#[verifier::ext_equal]
pub struct SpecGeocodeReverseResponse {
    pub results: Option<Seq<SpecAddress>>,
}

impl View for GeocodeReverseResponse {
    type V = SpecGeocodeReverseResponse;

    open spec fn view(&self) -> SpecGeocodeReverseResponse {
        SpecGeocodeReverseResponse { results: ovv(self.results) }
    }
}

/// The envelope inside one batch result: the echoed input, when the service
/// sends it, and the candidates for that one query.
#[derive(Debug, Clone, PartialEq, Eq)]
pub struct Response {
    pub input: Option<Input>,
    pub results: Option<Vec<ResponseResult>>,
}

#[verifier::ext_equal]
pub struct SpecResponse {
    pub input: Option<SpecInput>,
    pub results: Option<Seq<SpecResponseResult>>,
}

impl View for Response {
    type V = SpecResponse;

    open spec fn view(&self) -> SpecResponse {
        SpecResponse { input: ov(self.input), results: ovv(self.results) }
    }
}

/// One entry of a batch response: the original query string, when the server
/// echoes it, and that query's own sub-response.
#[derive(Debug, Clone, PartialEq, Eq)]
pub struct BatchResult {
    pub query: Option<String>,
    pub response: Option<Response>,
}

#[verifier::ext_equal]
pub struct SpecBatchResult {
    pub query: Option<Seq<char>>,
    pub response: Option<SpecResponse>,
}

impl View for BatchResult {
    type V = SpecBatchResult;

    open spec fn view(&self) -> SpecBatchResult {
        SpecBatchResult { query: ov(self.query), response: ov(self.response) }
    }
}

/// A batch response: one [`BatchResult`] per submitted input, in request
/// order, index-aligned with the request list.
#[derive(Debug, Clone, PartialEq, Eq)]
pub struct GeocodeBatchResponse {
    pub results: Option<Vec<BatchResult>>,
}

#[verifier::ext_equal]
pub struct SpecGeocodeBatchResponse {
    pub results: Option<Seq<SpecBatchResult>>,
}

impl View for GeocodeBatchResponse {
    type V = SpecGeocodeBatchResponse;

    open spec fn view(&self) -> SpecGeocodeBatchResponse {
        SpecGeocodeBatchResponse { results: ovv(self.results) }
    }
}

/// Well-formedness of a decoded time zone: the offset fits the field's width.
pub open spec fn wf_spec_timezone(t: SpecTimezone) -> bool {
    i16::MIN <= t.utc_offset <= i16::MAX
}

/// Well-formedness of decoded extended fields: raw census and ACS values are
/// never the JSON null (the decoder reads null as absent), and the time zone
/// offset fits its width.
pub open spec fn wf_spec_fields(f: SpecFields) -> bool {
    &&& (f.timezone matches Some(t) ==> wf_spec_timezone(t))
    &&& (f.census matches Some(j) ==> !(j is Null))
    &&& (f.acs matches Some(j) ==> !(j is Null))
}

/// Well-formedness of one candidate.
pub open spec fn wf_spec_address(a: SpecAddress) -> bool {
    a.fields matches Some(f) ==> wf_spec_fields(f)
}

/// Well-formedness of a single-mode geocode response.
pub open spec fn wf_spec_geocode_response(r: SpecGeocodeResponse) -> bool {
    forall|i: int| 0 <= i < r.results.len() ==> wf_spec_address(#[trigger] r.results[i])
}

/// Well-formedness of a reverse-geocode response.
pub open spec fn wf_spec_reverse_response(r: SpecGeocodeReverseResponse) -> bool {
    r.results matches Some(s) ==> forall|i: int|
        0 <= i < s.len() ==> wf_spec_address(#[trigger] s[i])
}

} // verus!
