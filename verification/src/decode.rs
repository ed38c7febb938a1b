//! Decoder: turns a raw JSON payload into one of the three typed response
//! shapes, or a typed decoding failure. The meaning of decoding is given by
//! the `dec_*` spec functions over [`JsonView`]; each executable decoder
//! returns `Ok` exactly when its spec decodes, and then returns exactly the
//! decoded value. Unknown members are ignored; a missing optional member
//! reads as absent, never as a placeholder; a non-conforming document is a
//! [`DecodeError`], never a silent coercion.

use vstd::prelude::*;
use vstd::seq_lib::*;

use crate::errors::DecodeError;
use crate::json::{
    json_doc, json_err_text, parse_json,
    dec_elems, jview, lemma_dec_elems_none, opt_elem, opt_num, opt_str, req_bool, req_elem,
    req_num, req_str, v_as_array, v_as_bool, v_as_str, v_get, v_is_null, v_is_object, v_num_text,
    v_clone, JsonView,
};
use crate::numtext::parse_int;
use crate::numtext::parse_i16_text;
use crate::response::{
    ov, Address, AddressComponents, BatchResult, CarrierRoute, CongressionalDistrict,
    FacilityCode, Fields, GeocodeBatchResponse, GeocodeResponse, GeocodeReverseResponse, Input,
    Location, RecordType, Response, ResponseResult, SchoolDistrict, SchoolDistricts,
    SpecAddress, SpecAddressComponents, SpecBatchResult, SpecCarrierRoute,
    SpecCongressionalDistrict, SpecFacilityCode, SpecFields, SpecGeocodeBatchResponse,
    SpecGeocodeResponse, SpecGeocodeReverseResponse, SpecInput, SpecLocation, SpecRecordType,
    SpecResponse, SpecResponseResult, SpecSchoolDistrict, SpecSchoolDistricts,
    SpecStateLegislativeDistrict, SpecStateLegislativeDistricts, SpecTimezone, SpecZip4,
    StateLegislativeDistrict, StateLegislativeDistricts, Timezone, Zip4,
};

verus! {

// ---------------------------------------------------------------------------
// Spec-level decoding helpers over one object member
// ---------------------------------------------------------------------------

/// An optional structured member decoded by `f`: absent or null is absent;
/// a present member must decode.
pub open spec fn dec_opt<T>(
    m: Map<Seq<char>, JsonView>,
    k: Seq<char>,
    f: spec_fn(JsonView) -> Option<T>,
) -> Option<Option<T>> {
    match opt_elem(m, k) {
        None => Some(None),
        Some(jj) => match f(jj) {
            Some(t) => Some(Some(t)),
            None => None,
        },
    }
}

/// A required structured member decoded by `f`.
pub open spec fn dec_req<T>(
    m: Map<Seq<char>, JsonView>,
    k: Seq<char>,
    f: spec_fn(JsonView) -> Option<T>,
) -> Option<T> {
    match req_elem(m, k) {
        None => None,
        Some(jj) => f(jj),
    }
}

/// An array decoded element-wise by `f`, keeping length and order.
pub open spec fn dec_arr<T>(j: JsonView, f: spec_fn(JsonView) -> Option<T>) -> Option<Seq<T>> {
    if j is Arr {
        dec_elems(j->Arr_0, f)
    } else {
        None
    }
}

/// One string array element.
pub open spec fn dec_str_elem(j: JsonView) -> Option<Seq<char>> {
    match j {
        JsonView::Str(s) => Some(s),
        _ => None,
    }
}

// ---------------------------------------------------------------------------
// Spec-level decoders, one per record of the response model
// ---------------------------------------------------------------------------

pub open spec fn dec_address_components(j: JsonView) -> Option<SpecAddressComponents> {
    if !(j is Obj) {
        None
    } else {
        let m = j->Obj_0;
        match (opt_str(m, "number"@), opt_str(m, "predirectional"@), opt_str(m, "street"@),
        opt_str(m, "suffix"@), opt_str(m, "formatted_street"@), opt_str(m, "city"@), opt_str(
            m,
            "county"@,
        ), opt_str(m, "state"@), opt_str(m, "zip"@), opt_str(m, "country"@)) {
            (
                Some(number),
                Some(predirectional),
                Some(street),
                Some(suffix),
                Some(formatted_street),
                Some(city),
                Some(county),
                Some(state),
                Some(zip),
                Some(country),
            ) => Some(
                SpecAddressComponents {
                    number,
                    predirectional,
                    street,
                    suffix,
                    formatted_street,
                    city,
                    county,
                    state,
                    zip,
                    country,
                },
            ),
            _ => None,
        }
    }
}

pub open spec fn dec_location(j: JsonView) -> Option<SpecLocation> {
    if !(j is Obj) {
        None
    } else {
        let m = j->Obj_0;
        match (opt_num(m, "lat"@), opt_num(m, "lng"@)) {
            (Some(lat), Some(lng)) => Some(SpecLocation { lat, lng }),
            _ => None,
        }
    }
}

pub open spec fn dec_school_district(j: JsonView) -> Option<SpecSchoolDistrict> {
    if !(j is Obj) {
        None
    } else {
        let m = j->Obj_0;
        match (req_str(m, "name"@), req_str(m, "lea_code"@), req_str(m, "grade_low"@), req_str(
            m,
            "grade_high"@,
        )) {
            (Some(name), Some(lea_code), Some(grade_low), Some(grade_high)) => Some(
                SpecSchoolDistrict { name, lea_code, grade_low, grade_high },
            ),
            _ => None,
        }
    }
}

pub open spec fn dec_school_districts(j: JsonView) -> Option<SpecSchoolDistricts> {
    if !(j is Obj) {
        None
    } else {
        let m = j->Obj_0;
        match (dec_opt(m, "unified"@, |jj: JsonView| dec_school_district(jj)), dec_opt(
            m,
            "elementary"@,
            |jj: JsonView| dec_school_district(jj),
        ), dec_opt(m, "secondary"@, |jj: JsonView| dec_school_district(jj))) {
            (Some(unified), Some(elementary), Some(secondary)) => Some(
                SpecSchoolDistricts { unified, elementary, secondary },
            ),
            _ => None,
        }
    }
}

pub open spec fn dec_timezone(j: JsonView) -> Option<SpecTimezone> {
    if !(j is Obj) {
        None
    } else {
        let m = j->Obj_0;
        match (req_str(m, "name"@), req_str(m, "abbreviation"@), req_num(m, "utc_offset"@),
        req_bool(m, "observes_dst"@), req_str(m, "source"@)) {
            (Some(name), Some(abbreviation), Some(offset_text), Some(observes_dst), Some(source)) => match parse_int(
                offset_text,
            ) {
                Some(v) => if i16::MIN <= v <= i16::MAX {
                    Some(
                        SpecTimezone {
                            name,
                            abbreviation,
                            utc_offset: v,
                            observes_dst,
                            source,
                        },
                    )
                } else {
                    None
                },
                None => None,
            },
            _ => None,
        }
    }
}

pub open spec fn dec_record_type(j: JsonView) -> Option<SpecRecordType> {
    if !(j is Obj) {
        None
    } else {
        let m = j->Obj_0;
        match (req_str(m, "code"@), req_str(m, "description"@)) {
            (Some(code), Some(description)) => Some(SpecRecordType { code, description }),
            _ => None,
        }
    }
}

pub open spec fn dec_carrier_route(j: JsonView) -> Option<SpecCarrierRoute> {
    if !(j is Obj) {
        None
    } else {
        let m = j->Obj_0;
        match (req_str(m, "id"@), req_str(m, "description"@)) {
            (Some(id), Some(description)) => Some(SpecCarrierRoute { id, description }),
            _ => None,
        }
    }
}

pub open spec fn dec_facility_code(j: JsonView) -> Option<SpecFacilityCode> {
    if !(j is Obj) {
        None
    } else {
        let m = j->Obj_0;
        match (req_str(m, "code"@), req_str(m, "description"@)) {
            (Some(code), Some(description)) => Some(SpecFacilityCode { code, description }),
            _ => None,
        }
    }
}

pub open spec fn dec_zip4(j: JsonView) -> Option<SpecZip4> {
    if !(j is Obj) {
        None
    } else {
        let m = j->Obj_0;
        match (dec_req(m, "record_type"@, |jj: JsonView| dec_record_type(jj)), dec_req(
            m,
            "carrier_route"@,
            |jj: JsonView| dec_carrier_route(jj),
        ), opt_str(m, "building_or_firm_name"@), dec_req(
            m,
            "plus4"@,
            |jj: JsonView| dec_arr(jj, |e: JsonView| dec_str_elem(e)),
        ), dec_req(m, "zip9"@, |jj: JsonView| dec_arr(jj, |e: JsonView| dec_str_elem(e)))) {
            (
                Some(record_type),
                Some(carrier_route),
                Some(building_or_firm_name),
                Some(plus4),
                Some(zip9),
            ) => match (opt_str(m, "government_building"@), dec_req(
                m,
                "facility_code"@,
                |jj: JsonView| dec_facility_code(jj),
            ), req_bool(m, "city_delivery"@), req_bool(m, "valid_delivery_area"@), req_bool(
                m,
                "exact_match"@,
            )) {
                (
                    Some(government_building),
                    Some(facility_code),
                    Some(city_delivery),
                    Some(valid_delivery_area),
                    Some(exact_match),
                ) => Some(
                    SpecZip4 {
                        record_type,
                        carrier_route,
                        building_or_firm_name,
                        plus4,
                        zip9,
                        government_building,
                        facility_code,
                        city_delivery,
                        valid_delivery_area,
                        exact_match,
                    },
                ),
                _ => None,
            },
            _ => None,
        }
    }
}

pub open spec fn dec_congressional_district(j: JsonView) -> Option<SpecCongressionalDistrict> {
    if !(j is Obj) {
        None
    } else {
        let m = j->Obj_0;
        match (opt_str(m, "name"@), opt_num(m, "district_number"@), opt_num(
            m,
            "congress_number"@,
        )) {
            (Some(name), Some(district_number), Some(congress_number)) => Some(
                SpecCongressionalDistrict { name, district_number, congress_number },
            ),
            _ => None,
        }
    }
}

pub open spec fn dec_state_legislative_district(j: JsonView) -> Option<
    SpecStateLegislativeDistrict,
> {
    if !(j is Obj) {
        None
    } else {
        let m = j->Obj_0;
        match (opt_str(m, "name"@), opt_num(m, "district_number"@)) {
            (Some(name), Some(district_number)) => Some(
                SpecStateLegislativeDistrict { name, district_number },
            ),
            _ => None,
        }
    }
}

pub open spec fn dec_state_legislative_districts(j: JsonView) -> Option<
    SpecStateLegislativeDistricts,
> {
    if !(j is Obj) {
        None
    } else {
        let m = j->Obj_0;
        match (dec_opt(m, "house"@, |jj: JsonView| dec_state_legislative_district(jj)), dec_opt(
            m,
            "senate"@,
            |jj: JsonView| dec_state_legislative_district(jj),
        )) {
            (Some(house), Some(senate)) => Some(SpecStateLegislativeDistricts { house, senate }),
            _ => None,
        }
    }
}

pub open spec fn dec_fields(j: JsonView) -> Option<SpecFields> {
    if !(j is Obj) {
        None
    } else {
        let m = j->Obj_0;
        match (dec_opt(m, "timezone"@, |jj: JsonView| dec_timezone(jj)), dec_opt(
            m,
            "zip4"@,
            |jj: JsonView| dec_zip4(jj),
        ), dec_opt(m, "congressional_district"@, |jj: JsonView| dec_congressional_district(jj)),
        dec_opt(
            m,
            "congressional_districts"@,
            |jj: JsonView| dec_arr(jj, |e: JsonView| dec_congressional_district(e)),
        ), dec_opt(
            m,
            "state_legislative_districts"@,
            |jj: JsonView| dec_state_legislative_districts(jj),
        ), dec_opt(m, "school_districts"@, |jj: JsonView| dec_school_districts(jj))) {
            (
                Some(timezone),
                Some(zip4),
                Some(congressional_district),
                Some(congressional_districts),
                Some(state_legislative_districts),
                Some(school_districts),
            ) => Some(
                SpecFields {
                    timezone,
                    zip4,
                    congressional_district,
                    congressional_districts,
                    state_legislative_districts,
                    school_districts,
                    census: opt_elem(m, "census"@),
                    acs: opt_elem(m, "acs"@),
                },
            ),
            _ => None,
        }
    }
}

pub open spec fn dec_address(j: JsonView) -> Option<SpecAddress> {
    if !(j is Obj) {
        None
    } else {
        let m = j->Obj_0;
        match (dec_opt(m, "address_components"@, |jj: JsonView| dec_address_components(jj)),
        opt_str(m, "formatted_address"@), dec_opt(m, "location"@, |jj: JsonView| dec_location(jj)),
        opt_num(m, "accuracy"@), opt_str(m, "accuracy_type"@), opt_str(m, "source"@), dec_opt(
            m,
            "fields"@,
            |jj: JsonView| dec_fields(jj),
        )) {
            (
                Some(address_components),
                Some(formatted_address),
                Some(location),
                Some(accuracy),
                Some(accuracy_type),
                Some(source),
                Some(fields),
            ) => Some(
                SpecAddress {
                    address_components,
                    formatted_address,
                    location,
                    accuracy,
                    accuracy_type,
                    source,
                    fields,
                },
            ),
            _ => None,
        }
    }
}

pub open spec fn dec_response_result(j: JsonView) -> Option<SpecResponseResult> {
    if !(j is Obj) {
        None
    } else {
        let m = j->Obj_0;
        match (dec_opt(m, "address_components"@, |jj: JsonView| dec_address_components(jj)),
        opt_str(m, "formatted_address"@), dec_opt(m, "location"@, |jj: JsonView| dec_location(jj)),
        opt_num(m, "accuracy"@), opt_str(m, "accuracy_type"@), opt_str(m, "source"@)) {
            (
                Some(address_components),
                Some(formatted_address),
                Some(location),
                Some(accuracy),
                Some(accuracy_type),
                Some(source),
            ) => Some(
                SpecResponseResult {
                    address_components,
                    formatted_address,
                    location,
                    accuracy,
                    accuracy_type,
                    source,
                },
            ),
            _ => None,
        }
    }
}

pub open spec fn dec_input(j: JsonView) -> Option<SpecInput> {
    if !(j is Obj) {
        None
    } else {
        let m = j->Obj_0;
        match (dec_req(m, "address_components"@, |jj: JsonView| dec_address_components(jj)),
        req_str(m, "formatted_address"@)) {
            (Some(address_components), Some(formatted_address)) => Some(
                SpecInput { address_components, formatted_address },
            ),
            _ => None,
        }
    }
}

/// A single-mode geocode response: the input echo and the candidate list are
/// both required.
pub open spec fn dec_geocode_response(j: JsonView) -> Option<SpecGeocodeResponse> {
    if !(j is Obj) {
        None
    } else {
        let m = j->Obj_0;
        match (dec_req(m, "input"@, |jj: JsonView| dec_input(jj)), dec_req(
            m,
            "results"@,
            |jj: JsonView| dec_arr(jj, |e: JsonView| dec_address(e)),
        )) {
            (Some(input), Some(results)) => Some(SpecGeocodeResponse { input, results }),
            _ => None,
        }
    }
}

/// A reverse-geocode response: the candidate list may be absent entirely.
pub open spec fn dec_reverse_response(j: JsonView) -> Option<SpecGeocodeReverseResponse> {
    if !(j is Obj) {
        None
    } else {
        let m = j->Obj_0;
        match dec_opt(m, "results"@, |jj: JsonView| dec_arr(jj, |e: JsonView| dec_address(e))) {
            Some(results) => Some(SpecGeocodeReverseResponse { results }),
            None => None,
        }
    }
}

pub open spec fn dec_response(j: JsonView) -> Option<SpecResponse> {
    if !(j is Obj) {
        None
    } else {
        let m = j->Obj_0;
        match (dec_opt(m, "input"@, |jj: JsonView| dec_input(jj)), dec_opt(
            m,
            "results"@,
            |jj: JsonView| dec_arr(jj, |e: JsonView| dec_response_result(e)),
        )) {
            (Some(input), Some(results)) => Some(SpecResponse { input, results }),
            _ => None,
        }
    }
}

pub open spec fn dec_batch_result(j: JsonView) -> Option<SpecBatchResult> {
    if !(j is Obj) {
        None
    } else {
        let m = j->Obj_0;
        match (opt_str(m, "query"@), dec_opt(m, "response"@, |jj: JsonView| dec_response(jj))) {
            (Some(query), Some(response)) => Some(SpecBatchResult { query, response }),
            _ => None,
        }
    }
}

/// A batch response: one entry per submitted input, in request order.
pub open spec fn dec_batch_response(j: JsonView) -> Option<SpecGeocodeBatchResponse> {
    if !(j is Obj) {
        None
    } else {
        let m = j->Obj_0;
        match dec_opt(m, "results"@, |jj: JsonView| dec_arr(jj, |e: JsonView| dec_batch_result(e))) {
            Some(results) => Some(SpecGeocodeBatchResponse { results }),
            None => None,
        }
    }
}

// ---------------------------------------------------------------------------
// Executable field readers
// ---------------------------------------------------------------------------

/// Builds the diagnostic text of one decoding failure.
fn derr(key: &str, what: &str) -> DecodeError {
    DecodeError { detail: String::from_str(key).concat(": ").concat(what) }
}

/// Reads an optional string member.
fn get_opt_str(v: &serde_json::Value, key: &str) -> (r: Result<Option<String>, DecodeError>)
    requires
        jview(*v) is Obj,
    ensures
        match opt_str(jview(*v)->Obj_0, key@) {
            Some(o) => r matches Ok(x) && ov(x) == o,
            None => r is Err,
        },
{
    match v_get(v, key) {
        None => Ok(None),
        Some(f) => {
            if v_is_null(f) {
                Ok(None)
            } else {
                match v_as_str(f) {
                    Some(s) => Ok(Some(String::from_str(s))),
                    None => Err(derr(key, "expected a string")),
                }
            }
        },
    }
}

/// Reads a required string member.
fn get_req_str(v: &serde_json::Value, key: &str) -> (r: Result<String, DecodeError>)
    requires
        jview(*v) is Obj,
    ensures
        match req_str(jview(*v)->Obj_0, key@) {
            Some(s) => r matches Ok(x) && x@ == s,
            None => r is Err,
        },
{
    match v_get(v, key) {
        None => Err(derr(key, "missing required string")),
        Some(f) => match v_as_str(f) {
            Some(s) => Ok(String::from_str(s)),
            None => Err(derr(key, "expected a string")),
        },
    }
}

/// Reads an optional number member as its decimal text.
fn get_opt_num(v: &serde_json::Value, key: &str) -> (r: Result<Option<String>, DecodeError>)
    requires
        jview(*v) is Obj,
    ensures
        match opt_num(jview(*v)->Obj_0, key@) {
            Some(o) => r matches Ok(x) && ov(x) == o,
            None => r is Err,
        },
{
    match v_get(v, key) {
        None => Ok(None),
        Some(f) => {
            if v_is_null(f) {
                Ok(None)
            } else {
                match v_num_text(f) {
                    Some(s) => Ok(Some(s)),
                    None => Err(derr(key, "expected a number")),
                }
            }
        },
    }
}

/// Reads a required number member as its decimal text.
fn get_req_num(v: &serde_json::Value, key: &str) -> (r: Result<String, DecodeError>)
    requires
        jview(*v) is Obj,
    ensures
        match req_num(jview(*v)->Obj_0, key@) {
            Some(s) => r matches Ok(x) && x@ == s,
            None => r is Err,
        },
{
    match v_get(v, key) {
        None => Err(derr(key, "missing required number")),
        Some(f) => match v_num_text(f) {
            Some(s) => Ok(s),
            None => Err(derr(key, "expected a number")),
        },
    }
}

/// Reads a required boolean member.
fn get_req_bool(v: &serde_json::Value, key: &str) -> (r: Result<bool, DecodeError>)
    requires
        jview(*v) is Obj,
    ensures
        match req_bool(jview(*v)->Obj_0, key@) {
            Some(b) => r matches Ok(x) && x == b,
            None => r is Err,
        },
{
    match v_get(v, key) {
        None => Err(derr(key, "missing required boolean")),
        Some(f) => match v_as_bool(f) {
            Some(b) => Ok(b),
            None => Err(derr(key, "expected a boolean")),
        },
    }
}

/// Reads an optional structured member; absent and null read as absent.
fn get_opt_elem<'a>(v: &'a serde_json::Value, key: &str) -> (r: Option<&'a serde_json::Value>)
    requires
        jview(*v) is Obj,
    ensures
        match opt_elem(jview(*v)->Obj_0, key@) {
            Some(j) => r matches Some(f) && jview(*f) == j,
            None => r is None,
        },
{
    match v_get(v, key) {
        None => None,
        Some(f) => {
            if v_is_null(f) {
                None
            } else {
                Some(f)
            }
        },
    }
}

/// Reads a required structured member.
fn get_req_elem<'a>(v: &'a serde_json::Value, key: &str) -> (r: Result<
    &'a serde_json::Value,
    DecodeError,
>)
    requires
        jview(*v) is Obj,
    ensures
        match req_elem(jview(*v)->Obj_0, key@) {
            Some(j) => r matches Ok(f) && jview(*f) == j,
            None => r is Err,
        },
{
    match v_get(v, key) {
        None => Err(derr(key, "missing required member")),
        Some(f) => Ok(f),
    }
}

// ---------------------------------------------------------------------------
// Executable decoders
// ---------------------------------------------------------------------------

/// Decodes the individual components of one address.
pub fn decode_address_components(v: &serde_json::Value) -> (r: Result<
    AddressComponents,
    DecodeError,
>)
    ensures
        r is Ok <==> dec_address_components(jview(*v)) is Some,
        r matches Ok(x) ==> Some(x@) == dec_address_components(jview(*v)),
{
    if !v_is_object(v) {
        return Err(derr("address_components", "expected an object"));
    }
    let number = get_opt_str(v, "number")?;
    let predirectional = get_opt_str(v, "predirectional")?;
    let street = get_opt_str(v, "street")?;
    let suffix = get_opt_str(v, "suffix")?;
    let formatted_street = get_opt_str(v, "formatted_street")?;
    let city = get_opt_str(v, "city")?;
    let county = get_opt_str(v, "county")?;
    let state = get_opt_str(v, "state")?;
    let zip = get_opt_str(v, "zip")?;
    let country = get_opt_str(v, "country")?;
    Ok(
        AddressComponents {
            number,
            predirectional,
            street,
            suffix,
            formatted_street,
            city,
            county,
            state,
            zip,
            country,
        },
    )
}

/// Decodes a resolved point.
pub fn decode_location(v: &serde_json::Value) -> (r: Result<Location, DecodeError>)
    ensures
        r is Ok <==> dec_location(jview(*v)) is Some,
        r matches Ok(x) ==> Some(x@) == dec_location(jview(*v)),
{
    if !v_is_object(v) {
        return Err(derr("location", "expected an object"));
    }
    let lat = get_opt_num(v, "lat")?;
    let lng = get_opt_num(v, "lng")?;
    Ok(Location { lat, lng })
}

/// Decodes one school district.
pub fn decode_school_district(v: &serde_json::Value) -> (r: Result<SchoolDistrict, DecodeError>)
    ensures
        r is Ok <==> dec_school_district(jview(*v)) is Some,
        r matches Ok(x) ==> Some(x@) == dec_school_district(jview(*v)),
{
    if !v_is_object(v) {
        return Err(derr("school_district", "expected an object"));
    }
    let name = get_req_str(v, "name")?;
    let lea_code = get_req_str(v, "lea_code")?;
    let grade_low = get_req_str(v, "grade_low")?;
    let grade_high = get_req_str(v, "grade_high")?;
    Ok(SchoolDistrict { name, lea_code, grade_low, grade_high })
}

/// Decodes the school-district container.
pub fn decode_school_districts(v: &serde_json::Value) -> (r: Result<SchoolDistricts, DecodeError>)
    ensures
        r is Ok <==> dec_school_districts(jview(*v)) is Some,
        r matches Ok(x) ==> Some(x@) == dec_school_districts(jview(*v)),
{
    if !v_is_object(v) {
        return Err(derr("school_districts", "expected an object"));
    }
    let unified = match get_opt_elem(v, "unified") {
        None => None,
        Some(f) => Some(decode_school_district(f)?),
    };
    let elementary = match get_opt_elem(v, "elementary") {
        None => None,
        Some(f) => Some(decode_school_district(f)?),
    };
    let secondary = match get_opt_elem(v, "secondary") {
        None => None,
        Some(f) => Some(decode_school_district(f)?),
    };
    Ok(SchoolDistricts { unified, elementary, secondary })
}

/// Decodes the time zone record, reading the UTC offset out of the wire's
/// decimal text and rejecting values that do not fit an i16.
pub fn decode_timezone(v: &serde_json::Value) -> (r: Result<Timezone, DecodeError>)
    ensures
        r is Ok <==> dec_timezone(jview(*v)) is Some,
        r matches Ok(x) ==> Some(x@) == dec_timezone(jview(*v)),
{
    if !v_is_object(v) {
        return Err(derr("timezone", "expected an object"));
    }
    let name = get_req_str(v, "name")?;
    let abbreviation = get_req_str(v, "abbreviation")?;
    let offset_text = get_req_num(v, "utc_offset")?;
    let observes_dst = get_req_bool(v, "observes_dst")?;
    let source = get_req_str(v, "source")?;
    let utc_offset = match parse_i16_text(offset_text.as_str()) {
        Some(n) => n,
        None => {
            return Err(derr("utc_offset", "expected a whole number of hours"));
        },
    };
    Ok(Timezone { name, abbreviation, utc_offset, observes_dst, source })
}

/// Decodes a postal record type.
pub fn decode_record_type(v: &serde_json::Value) -> (r: Result<RecordType, DecodeError>)
    ensures
        r is Ok <==> dec_record_type(jview(*v)) is Some,
        r matches Ok(x) ==> Some(x@) == dec_record_type(jview(*v)),
{
    if !v_is_object(v) {
        return Err(derr("record_type", "expected an object"));
    }
    let code = get_req_str(v, "code")?;
    let description = get_req_str(v, "description")?;
    Ok(RecordType { code, description })
}

/// Decodes a postal carrier route.
pub fn decode_carrier_route(v: &serde_json::Value) -> (r: Result<CarrierRoute, DecodeError>)
    ensures
        r is Ok <==> dec_carrier_route(jview(*v)) is Some,
        r matches Ok(x) ==> Some(x@) == dec_carrier_route(jview(*v)),
{
    if !v_is_object(v) {
        return Err(derr("carrier_route", "expected an object"));
    }
    let id = get_req_str(v, "id")?;
    let description = get_req_str(v, "description")?;
    Ok(CarrierRoute { id, description })
}

/// Decodes a postal facility code.
pub fn decode_facility_code(v: &serde_json::Value) -> (r: Result<FacilityCode, DecodeError>)
    ensures
        r is Ok <==> dec_facility_code(jview(*v)) is Some,
        r matches Ok(x) ==> Some(x@) == dec_facility_code(jview(*v)),
{
    if !v_is_object(v) {
        return Err(derr("facility_code", "expected an object"));
    }
    let code = get_req_str(v, "code")?;
    let description = get_req_str(v, "description")?;
    Ok(FacilityCode { code, description })
}

/// Decodes an array of strings, keeping length and order.
fn decode_str_vec(v: &serde_json::Value) -> (r: Result<Vec<String>, DecodeError>)
    ensures
        r is Ok <==> dec_arr(jview(*v), |e: JsonView| dec_str_elem(e)) is Some,
        r matches Ok(out) ==> Some(out@.map_values(|s: String| s@)) == dec_arr(
            jview(*v),
            |e: JsonView| dec_str_elem(e),
        ),
{
    let ghost f = |e: JsonView| dec_str_elem(e);
    let arr = match v_as_array(v) {
        Some(a) => a,
        None => {
            return Err(derr("array", "expected an array of strings"));
        },
    };
    let ghost jvs = jview(*v)->Arr_0;
    let mut out: Vec<String> = Vec::new();
    let mut i: usize = 0;
    while i < arr.len()
        invariant
            0 <= i <= arr.len(),
            jview(*v) is Arr,
            jvs == jview(*v)->Arr_0,
            arr@.len() == jvs.len(),
            forall|k: int| 0 <= k < arr@.len() ==> jview(arr@[k]) == jvs[k],
            f == (|e: JsonView| dec_str_elem(e)),
            dec_elems(jvs.subrange(0, i as int), f) == Some(
                out@.map_values(|s: String| s@),
            ),
        decreases arr.len() - i,
    {
        let x = match v_as_str(&arr[i]) {
            Some(s) => String::from_str(s),
            None => {
                proof {
                    lemma_dec_elems_none(jvs, f, i as int);
                }
                return Err(derr("array", "expected a string element"));
            },
        };
        proof {
            let pre = jvs.subrange(0, i as int + 1);
            assert(pre.drop_last() =~= jvs.subrange(0, i as int));
            assert(pre.last() == jvs[i as int]);
            assert(f(jvs[i as int]) == Some(x@));
            assert(out@.push(x).map_values(|s: String| s@) =~= out@.map_values(
                |s: String| s@,
            ).push(x@));
        }
        out.push(x);
        i = i + 1;
    }
    proof {
        assert(jvs.subrange(0, jvs.len() as int) =~= jvs);
    }
    Ok(out)
}

/// Decodes ZIP+4 postal routing detail.
pub fn decode_zip4(v: &serde_json::Value) -> (r: Result<Zip4, DecodeError>)
    ensures
        r is Ok <==> dec_zip4(jview(*v)) is Some,
        r matches Ok(x) ==> Some(x@) == dec_zip4(jview(*v)),
{
    if !v_is_object(v) {
        return Err(derr("zip4", "expected an object"));
    }
    let record_type = decode_record_type(get_req_elem(v, "record_type")?)?;
    let carrier_route = decode_carrier_route(get_req_elem(v, "carrier_route")?)?;
    let building_or_firm_name = get_opt_str(v, "building_or_firm_name")?;
    let plus4 = decode_str_vec(get_req_elem(v, "plus4")?)?;
    let zip9 = decode_str_vec(get_req_elem(v, "zip9")?)?;
    let government_building = get_opt_str(v, "government_building")?;
    let facility_code = decode_facility_code(get_req_elem(v, "facility_code")?)?;
    let city_delivery = get_req_bool(v, "city_delivery")?;
    let valid_delivery_area = get_req_bool(v, "valid_delivery_area")?;
    let exact_match = get_req_bool(v, "exact_match")?;
    Ok(
        Zip4 {
            record_type,
            carrier_route,
            building_or_firm_name,
            plus4,
            zip9,
            government_building,
            facility_code,
            city_delivery,
            valid_delivery_area,
            exact_match,
        },
    )
}

/// Decodes one congressional district.
pub fn decode_congressional_district(v: &serde_json::Value) -> (r: Result<
    CongressionalDistrict,
    DecodeError,
>)
    ensures
        r is Ok <==> dec_congressional_district(jview(*v)) is Some,
        r matches Ok(x) ==> Some(x@) == dec_congressional_district(jview(*v)),
{
    if !v_is_object(v) {
        return Err(derr("congressional_district", "expected an object"));
    }
    let name = get_opt_str(v, "name")?;
    let district_number = get_opt_num(v, "district_number")?;
    let congress_number = get_opt_num(v, "congress_number")?;
    Ok(CongressionalDistrict { name, district_number, congress_number })
}

/// Decodes an array of congressional districts, keeping length and order.
fn decode_congressional_district_vec(v: &serde_json::Value) -> (r: Result<
    Vec<CongressionalDistrict>,
    DecodeError,
>)
    ensures
        r is Ok <==> dec_arr(jview(*v), |e: JsonView| dec_congressional_district(e)) is Some,
        r matches Ok(out) ==> Some(out@.map_values(|x: CongressionalDistrict| x@)) == dec_arr(
            jview(*v),
            |e: JsonView| dec_congressional_district(e),
        ),
{
    let ghost f = |e: JsonView| dec_congressional_district(e);
    let arr = match v_as_array(v) {
        Some(a) => a,
        None => {
            return Err(derr("congressional_districts", "expected an array"));
        },
    };
    let ghost jvs = jview(*v)->Arr_0;
    let mut out: Vec<CongressionalDistrict> = Vec::new();
    let mut i: usize = 0;
    while i < arr.len()
        invariant
            0 <= i <= arr.len(),
            jview(*v) is Arr,
            jvs == jview(*v)->Arr_0,
            arr@.len() == jvs.len(),
            forall|k: int| 0 <= k < arr@.len() ==> jview(arr@[k]) == jvs[k],
            f == (|e: JsonView| dec_congressional_district(e)),
            dec_elems(jvs.subrange(0, i as int), f) == Some(
                out@.map_values(|x: CongressionalDistrict| x@),
            ),
        decreases arr.len() - i,
    {
        let x = match decode_congressional_district(&arr[i]) {
            Ok(x) => x,
            Err(e) => {
                proof {
                    lemma_dec_elems_none(jvs, f, i as int);
                }
                return Err(e);
            },
        };
        proof {
            let pre = jvs.subrange(0, i as int + 1);
            assert(pre.drop_last() =~= jvs.subrange(0, i as int));
            assert(pre.last() == jvs[i as int]);
            assert(f(jvs[i as int]) == Some(x@));
            assert(out@.push(x).map_values(|y: CongressionalDistrict| y@) =~= out@.map_values(
                |y: CongressionalDistrict| y@,
            ).push(x@));
        }
        out.push(x);
        i = i + 1;
    }
    proof {
        assert(jvs.subrange(0, jvs.len() as int) =~= jvs);
    }
    Ok(out)
}

/// Decodes one state legislative district.
pub fn decode_state_legislative_district(v: &serde_json::Value) -> (r: Result<
    StateLegislativeDistrict,
    DecodeError,
>)
    ensures
        r is Ok <==> dec_state_legislative_district(jview(*v)) is Some,
        r matches Ok(x) ==> Some(x@) == dec_state_legislative_district(jview(*v)),
{
    if !v_is_object(v) {
        return Err(derr("state_legislative_district", "expected an object"));
    }
    let name = get_opt_str(v, "name")?;
    let district_number = get_opt_num(v, "district_number")?;
    Ok(StateLegislativeDistrict { name, district_number })
}

/// Decodes the state-legislative-district container.
pub fn decode_state_legislative_districts(v: &serde_json::Value) -> (r: Result<
    StateLegislativeDistricts,
    DecodeError,
>)
    ensures
        r is Ok <==> dec_state_legislative_districts(jview(*v)) is Some,
        r matches Ok(x) ==> Some(x@) == dec_state_legislative_districts(jview(*v)),
{
    if !v_is_object(v) {
        return Err(derr("state_legislative_districts", "expected an object"));
    }
    let house = match get_opt_elem(v, "house") {
        None => None,
        Some(f) => Some(decode_state_legislative_district(f)?),
    };
    let senate = match get_opt_elem(v, "senate") {
        None => None,
        Some(f) => Some(decode_state_legislative_district(f)?),
    };
    Ok(StateLegislativeDistricts { house, senate })
}

/// Decodes the extended-fields container. Census and ACS values are kept as
/// the raw JSON the service sent.
pub fn decode_fields(v: &serde_json::Value) -> (r: Result<Fields, DecodeError>)
    ensures
        r is Ok <==> dec_fields(jview(*v)) is Some,
        r matches Ok(x) ==> Some(x@) == dec_fields(jview(*v)),
{
    if !v_is_object(v) {
        return Err(derr("fields", "expected an object"));
    }
    let timezone = match get_opt_elem(v, "timezone") {
        None => None,
        Some(f) => Some(decode_timezone(f)?),
    };
    let zip4 = match get_opt_elem(v, "zip4") {
        None => None,
        Some(f) => Some(decode_zip4(f)?),
    };
    let congressional_district = match get_opt_elem(v, "congressional_district") {
        None => None,
        Some(f) => Some(decode_congressional_district(f)?),
    };
    let congressional_districts = match get_opt_elem(v, "congressional_districts") {
        None => None,
        Some(f) => Some(decode_congressional_district_vec(f)?),
    };
    let state_legislative_districts = match get_opt_elem(v, "state_legislative_districts") {
        None => None,
        Some(f) => Some(decode_state_legislative_districts(f)?),
    };
    let school_districts = match get_opt_elem(v, "school_districts") {
        None => None,
        Some(f) => Some(decode_school_districts(f)?),
    };
    let census = match get_opt_elem(v, "census") {
        None => None,
        Some(f) => Some(v_clone(f)),
    };
    let acs = match get_opt_elem(v, "acs") {
        None => None,
        Some(f) => Some(v_clone(f)),
    };
    Ok(
        Fields {
            timezone,
            zip4,
            congressional_district,
            congressional_districts,
            state_legislative_districts,
            school_districts,
            census,
            acs,
        },
    )
}

/// Decodes one single-mode candidate.
pub fn decode_address(v: &serde_json::Value) -> (r: Result<Address, DecodeError>)
    ensures
        r is Ok <==> dec_address(jview(*v)) is Some,
        r matches Ok(x) ==> Some(x@) == dec_address(jview(*v)),
{
    if !v_is_object(v) {
        return Err(derr("result", "expected an object"));
    }
    let address_components = match get_opt_elem(v, "address_components") {
        None => None,
        Some(f) => Some(decode_address_components(f)?),
    };
    let formatted_address = get_opt_str(v, "formatted_address")?;
    let location = match get_opt_elem(v, "location") {
        None => None,
        Some(f) => Some(decode_location(f)?),
    };
    let accuracy = get_opt_num(v, "accuracy")?;
    let accuracy_type = get_opt_str(v, "accuracy_type")?;
    let source = get_opt_str(v, "source")?;
    let fields = match get_opt_elem(v, "fields") {
        None => None,
        Some(f) => Some(decode_fields(f)?),
    };
    Ok(
        Address {
            address_components,
            formatted_address,
            location,
            accuracy,
            accuracy_type,
            source,
            fields,
        },
    )
}

/// Decodes one batch-mode candidate.
pub fn decode_response_result(v: &serde_json::Value) -> (r: Result<ResponseResult, DecodeError>)
    ensures
        r is Ok <==> dec_response_result(jview(*v)) is Some,
        r matches Ok(x) ==> Some(x@) == dec_response_result(jview(*v)),
{
    if !v_is_object(v) {
        return Err(derr("result", "expected an object"));
    }
    let address_components = match get_opt_elem(v, "address_components") {
        None => None,
        Some(f) => Some(decode_address_components(f)?),
    };
    let formatted_address = get_opt_str(v, "formatted_address")?;
    let location = match get_opt_elem(v, "location") {
        None => None,
        Some(f) => Some(decode_location(f)?),
    };
    let accuracy = get_opt_num(v, "accuracy")?;
    let accuracy_type = get_opt_str(v, "accuracy_type")?;
    let source = get_opt_str(v, "source")?;
    Ok(
        ResponseResult {
            address_components,
            formatted_address,
            location,
            accuracy,
            accuracy_type,
            source,
        },
    )
}

/// Decodes the service's echo of the submitted input.
pub fn decode_input(v: &serde_json::Value) -> (r: Result<Input, DecodeError>)
    ensures
        r is Ok <==> dec_input(jview(*v)) is Some,
        r matches Ok(x) ==> Some(x@) == dec_input(jview(*v)),
{
    if !v_is_object(v) {
        return Err(derr("input", "expected an object"));
    }
    let address_components = decode_address_components(get_req_elem(v, "address_components")?)?;
    let formatted_address = get_req_str(v, "formatted_address")?;
    Ok(Input { address_components, formatted_address })
}

/// Decodes an array of single-mode candidates, keeping length and order.
fn decode_address_vec(v: &serde_json::Value) -> (r: Result<Vec<Address>, DecodeError>)
    ensures
        r is Ok <==> dec_arr(jview(*v), |e: JsonView| dec_address(e)) is Some,
        r matches Ok(out) ==> Some(out@.map_values(|x: Address| x@)) == dec_arr(
            jview(*v),
            |e: JsonView| dec_address(e),
        ),
{
    let ghost f = |e: JsonView| dec_address(e);
    let arr = match v_as_array(v) {
        Some(a) => a,
        None => {
            return Err(derr("results", "expected an array"));
        },
    };
    let ghost jvs = jview(*v)->Arr_0;
    let mut out: Vec<Address> = Vec::new();
    let mut i: usize = 0;
    while i < arr.len()
        invariant
            0 <= i <= arr.len(),
            jview(*v) is Arr,
            jvs == jview(*v)->Arr_0,
            arr@.len() == jvs.len(),
            forall|k: int| 0 <= k < arr@.len() ==> jview(arr@[k]) == jvs[k],
            f == (|e: JsonView| dec_address(e)),
            dec_elems(jvs.subrange(0, i as int), f) == Some(out@.map_values(|x: Address| x@)),
        decreases arr.len() - i,
    {
        let x = match decode_address(&arr[i]) {
            Ok(x) => x,
            Err(e) => {
                proof {
                    lemma_dec_elems_none(jvs, f, i as int);
                }
                return Err(e);
            },
        };
        proof {
            let pre = jvs.subrange(0, i as int + 1);
            assert(pre.drop_last() =~= jvs.subrange(0, i as int));
            assert(pre.last() == jvs[i as int]);
            assert(f(jvs[i as int]) == Some(x@));
            assert(out@.push(x).map_values(|y: Address| y@) =~= out@.map_values(
                |y: Address| y@,
            ).push(x@));
        }
        out.push(x);
        i = i + 1;
    }
    proof {
        assert(jvs.subrange(0, jvs.len() as int) =~= jvs);
    }
    Ok(out)
}

/// Decodes an array of batch-mode candidates, keeping length and order.
fn decode_response_result_vec(v: &serde_json::Value) -> (r: Result<Vec<ResponseResult>, DecodeError>)
    ensures
        r is Ok <==> dec_arr(jview(*v), |e: JsonView| dec_response_result(e)) is Some,
        r matches Ok(out) ==> Some(out@.map_values(|x: ResponseResult| x@)) == dec_arr(
            jview(*v),
            |e: JsonView| dec_response_result(e),
        ),
{
    let ghost f = |e: JsonView| dec_response_result(e);
    let arr = match v_as_array(v) {
        Some(a) => a,
        None => {
            return Err(derr("results", "expected an array"));
        },
    };
    let ghost jvs = jview(*v)->Arr_0;
    let mut out: Vec<ResponseResult> = Vec::new();
    let mut i: usize = 0;
    while i < arr.len()
        invariant
            0 <= i <= arr.len(),
            jview(*v) is Arr,
            jvs == jview(*v)->Arr_0,
            arr@.len() == jvs.len(),
            forall|k: int| 0 <= k < arr@.len() ==> jview(arr@[k]) == jvs[k],
            f == (|e: JsonView| dec_response_result(e)),
            dec_elems(jvs.subrange(0, i as int), f) == Some(
                out@.map_values(|x: ResponseResult| x@),
            ),
        decreases arr.len() - i,
    {
        let x = match decode_response_result(&arr[i]) {
            Ok(x) => x,
            Err(e) => {
                proof {
                    lemma_dec_elems_none(jvs, f, i as int);
                }
                return Err(e);
            },
        };
        proof {
            let pre = jvs.subrange(0, i as int + 1);
            assert(pre.drop_last() =~= jvs.subrange(0, i as int));
            assert(pre.last() == jvs[i as int]);
            assert(f(jvs[i as int]) == Some(x@));
            assert(out@.push(x).map_values(|y: ResponseResult| y@) =~= out@.map_values(
                |y: ResponseResult| y@,
            ).push(x@));
        }
        out.push(x);
        i = i + 1;
    }
    proof {
        assert(jvs.subrange(0, jvs.len() as int) =~= jvs);
    }
    Ok(out)
}

/// Decodes one batch sub-response envelope.
pub fn decode_response(v: &serde_json::Value) -> (r: Result<Response, DecodeError>)
    ensures
        r is Ok <==> dec_response(jview(*v)) is Some,
        r matches Ok(x) ==> Some(x@) == dec_response(jview(*v)),
{
    if !v_is_object(v) {
        return Err(derr("response", "expected an object"));
    }
    let input = match get_opt_elem(v, "input") {
        None => None,
        Some(f) => Some(decode_input(f)?),
    };
    let results = match get_opt_elem(v, "results") {
        None => None,
        Some(f) => Some(decode_response_result_vec(f)?),
    };
    Ok(Response { input, results })
}

/// Decodes one entry of a batch response.
pub fn decode_batch_result(v: &serde_json::Value) -> (r: Result<BatchResult, DecodeError>)
    ensures
        r is Ok <==> dec_batch_result(jview(*v)) is Some,
        r matches Ok(x) ==> Some(x@) == dec_batch_result(jview(*v)),
{
    if !v_is_object(v) {
        return Err(derr("batch result", "expected an object"));
    }
    let query = get_opt_str(v, "query")?;
    let response = match get_opt_elem(v, "response") {
        None => None,
        Some(f) => Some(decode_response(f)?),
    };
    Ok(BatchResult { query, response })
}

/// Decodes an array of batch entries, keeping length and order.
fn decode_batch_result_vec(v: &serde_json::Value) -> (r: Result<Vec<BatchResult>, DecodeError>)
    ensures
        r is Ok <==> dec_arr(jview(*v), |e: JsonView| dec_batch_result(e)) is Some,
        r matches Ok(out) ==> Some(out@.map_values(|x: BatchResult| x@)) == dec_arr(
            jview(*v),
            |e: JsonView| dec_batch_result(e),
        ),
{
    let ghost f = |e: JsonView| dec_batch_result(e);
    let arr = match v_as_array(v) {
        Some(a) => a,
        None => {
            return Err(derr("results", "expected an array"));
        },
    };
    let ghost jvs = jview(*v)->Arr_0;
    let mut out: Vec<BatchResult> = Vec::new();
    let mut i: usize = 0;
    while i < arr.len()
        invariant
            0 <= i <= arr.len(),
            jview(*v) is Arr,
            jvs == jview(*v)->Arr_0,
            arr@.len() == jvs.len(),
            forall|k: int| 0 <= k < arr@.len() ==> jview(arr@[k]) == jvs[k],
            f == (|e: JsonView| dec_batch_result(e)),
            dec_elems(jvs.subrange(0, i as int), f) == Some(
                out@.map_values(|x: BatchResult| x@),
            ),
        decreases arr.len() - i,
    {
        let x = match decode_batch_result(&arr[i]) {
            Ok(x) => x,
            Err(e) => {
                proof {
                    lemma_dec_elems_none(jvs, f, i as int);
                }
                return Err(e);
            },
        };
        proof {
            let pre = jvs.subrange(0, i as int + 1);
            assert(pre.drop_last() =~= jvs.subrange(0, i as int));
            assert(pre.last() == jvs[i as int]);
            assert(f(jvs[i as int]) == Some(x@));
            assert(out@.push(x).map_values(|y: BatchResult| y@) =~= out@.map_values(
                |y: BatchResult| y@,
            ).push(x@));
        }
        out.push(x);
        i = i + 1;
    }
    proof {
        assert(jvs.subrange(0, jvs.len() as int) =~= jvs);
    }
    Ok(out)
}

/// Decodes a single-mode geocode response.
pub fn decode_geocode_response(v: &serde_json::Value) -> (r: Result<GeocodeResponse, DecodeError>)
    ensures
        r is Ok <==> dec_geocode_response(jview(*v)) is Some,
        r matches Ok(x) ==> Some(x@) == dec_geocode_response(jview(*v)),
{
    if !v_is_object(v) {
        return Err(derr("response", "expected an object"));
    }
    let input = decode_input(get_req_elem(v, "input")?)?;
    let results = decode_address_vec(get_req_elem(v, "results")?)?;
    Ok(GeocodeResponse { input, results })
}

/// Decodes a reverse-geocode response.
pub fn decode_reverse_response(v: &serde_json::Value) -> (r: Result<
    GeocodeReverseResponse,
    DecodeError,
>)
    ensures
        r is Ok <==> dec_reverse_response(jview(*v)) is Some,
        r matches Ok(x) ==> Some(x@) == dec_reverse_response(jview(*v)),
{
    if !v_is_object(v) {
        return Err(derr("response", "expected an object"));
    }
    let results = match get_opt_elem(v, "results") {
        None => None,
        Some(f) => Some(decode_address_vec(f)?),
    };
    Ok(GeocodeReverseResponse { results })
}

/// Decodes a batch response.
pub fn decode_batch_response(v: &serde_json::Value) -> (r: Result<
    GeocodeBatchResponse,
    DecodeError,
>)
    ensures
        r is Ok <==> dec_batch_response(jview(*v)) is Some,
        r matches Ok(x) ==> Some(x@) == dec_batch_response(jview(*v)),
{
    if !v_is_object(v) {
        return Err(derr("response", "expected an object"));
    }
    let results = match get_opt_elem(v, "results") {
        None => None,
        Some(f) => Some(decode_batch_result_vec(f)?),
    };
    Ok(GeocodeBatchResponse { results })
}

/// Decodes a single-mode geocode response straight from body text: the text
/// must be valid JSON and conform to the single-geocode shape.
pub fn decode_geocode_body(text: &str) -> (r: Result<GeocodeResponse, DecodeError>)
    ensures
        r is Ok <==> (json_doc(text@) matches Some(j) && dec_geocode_response(j) is Some),
        r matches Ok(x) ==> (json_doc(text@) matches Some(j) && Some(x@) == dec_geocode_response(
            j,
        )),
{
    let v = match parse_json(text) {
        Ok(v) => v,
        Err(e) => {
            return Err(DecodeError { detail: json_err_text(&e) });
        },
    };
    decode_geocode_response(&v)
}

/// Decodes a reverse-geocode response straight from body text.
pub fn decode_reverse_body(text: &str) -> (r: Result<GeocodeReverseResponse, DecodeError>)
    ensures
        r is Ok <==> (json_doc(text@) matches Some(j) && dec_reverse_response(j) is Some),
        r matches Ok(x) ==> (json_doc(text@) matches Some(j) && Some(x@) == dec_reverse_response(
            j,
        )),
{
    let v = match parse_json(text) {
        Ok(v) => v,
        Err(e) => {
            return Err(DecodeError { detail: json_err_text(&e) });
        },
    };
    decode_reverse_response(&v)
}

/// Decodes a batch response straight from body text.
pub fn decode_batch_body(text: &str) -> (r: Result<GeocodeBatchResponse, DecodeError>)
    ensures
        r is Ok <==> (json_doc(text@) matches Some(j) && dec_batch_response(j) is Some),
        r matches Ok(x) ==> (json_doc(text@) matches Some(j) && Some(x@) == dec_batch_response(
            j,
        )),
{
    let v = match parse_json(text) {
        Ok(v) => v,
        Err(e) => {
            return Err(DecodeError { detail: json_err_text(&e) });
        },
    };
    decode_batch_response(&v)
}

} // verus!
