//! Canonical encoding of the response model back into [`JsonView`], and the
//! round-trip laws: decoding the canonical encoding of any well-formed value
//! yields that value back, and every decoded value is well-formed — so
//! re-encoding and re-decoding is idempotent. Encoding is spec-level only; it
//! is the mathematical statement the decoder is held to, not a wire writer.

use vstd::prelude::*;
use vstd::seq_lib::*;

use crate::decode::{
    dec_address, dec_address_components, dec_arr, dec_batch_response, dec_batch_result,
    dec_carrier_route, dec_congressional_district, dec_facility_code, dec_fields,
    dec_geocode_response, dec_input, dec_location, dec_opt, dec_record_type, dec_req,
    dec_response, dec_response_result, dec_reverse_response, dec_school_district,
    dec_school_districts, dec_state_legislative_district, dec_state_legislative_districts,
    dec_str_elem, dec_timezone, dec_zip4,
};
use crate::json::{dec_elems, opt_elem, opt_num, opt_str, req_bool, req_elem, req_num, req_str,
    JsonView};
use crate::numtext::{dec_int, lemma_parse_dec_int};
use crate::response::{
    wf_spec_address, wf_spec_fields, wf_spec_geocode_response, wf_spec_reverse_response,
    wf_spec_timezone, SpecAddress, SpecAddressComponents, SpecBatchResult, SpecCarrierRoute,
    SpecCongressionalDistrict, SpecFacilityCode, SpecFields, SpecGeocodeBatchResponse,
    SpecGeocodeResponse, SpecGeocodeReverseResponse, SpecInput, SpecLocation, SpecRecordType,
    SpecResponse, SpecResponseResult, SpecSchoolDistrict, SpecSchoolDistricts,
    SpecStateLegislativeDistrict, SpecStateLegislativeDistricts, SpecTimezone, SpecZip4,
};

verus! {

// ---------------------------------------------------------------------------
// Map-building helpers: a member is written only when present
// ---------------------------------------------------------------------------

/// Writes an optional string member: absent fields leave no key behind.
pub open spec fn ins_opt_str(
    m: Map<Seq<char>, JsonView>,
    k: Seq<char>,
    v: Option<Seq<char>>,
) -> Map<Seq<char>, JsonView> {
    match v {
        Some(s) => m.insert(k, JsonView::Str(s)),
        None => m,
    }
}

/// Writes an optional number member from its decimal text.
pub open spec fn ins_opt_num(
    m: Map<Seq<char>, JsonView>,
    k: Seq<char>,
    v: Option<Seq<char>>,
) -> Map<Seq<char>, JsonView> {
    match v {
        Some(s) => m.insert(k, JsonView::Num(s)),
        None => m,
    }
}

/// Writes an optional structured member.
pub open spec fn ins_opt(
    m: Map<Seq<char>, JsonView>,
    k: Seq<char>,
    v: Option<JsonView>,
) -> Map<Seq<char>, JsonView> {
    match v {
        Some(j) => m.insert(k, j),
        None => m,
    }
}

/// Encodes an optional value through `f`.
pub open spec fn enc_opt<T>(o: Option<T>, f: spec_fn(T) -> JsonView) -> Option<JsonView> {
    match o {
        Some(t) => Some(f(t)),
        None => None,
    }
}

/// Encodes a sequence element-wise into a JSON array.
pub open spec fn enc_arr<T>(s: Seq<T>, f: spec_fn(T) -> JsonView) -> JsonView {
    JsonView::Arr(s.map_values(f))
}

// ---------------------------------------------------------------------------
// Canonical encoders, one per record
// ---------------------------------------------------------------------------

pub open spec fn enc_address_components(c: SpecAddressComponents) -> JsonView {
    let m = Map::<Seq<char>, JsonView>::empty();
    let m = ins_opt_str(m, "number"@, c.number);
    let m = ins_opt_str(m, "predirectional"@, c.predirectional);
    let m = ins_opt_str(m, "street"@, c.street);
    let m = ins_opt_str(m, "suffix"@, c.suffix);
    let m = ins_opt_str(m, "formatted_street"@, c.formatted_street);
    let m = ins_opt_str(m, "city"@, c.city);
    let m = ins_opt_str(m, "county"@, c.county);
    let m = ins_opt_str(m, "state"@, c.state);
    let m = ins_opt_str(m, "zip"@, c.zip);
    let m = ins_opt_str(m, "country"@, c.country);
    JsonView::Obj(m)
}

pub open spec fn enc_location(l: SpecLocation) -> JsonView {
    let m = Map::<Seq<char>, JsonView>::empty();
    let m = ins_opt_num(m, "lat"@, l.lat);
    let m = ins_opt_num(m, "lng"@, l.lng);
    JsonView::Obj(m)
}

pub open spec fn enc_school_district(d: SpecSchoolDistrict) -> JsonView {
    let m = Map::<Seq<char>, JsonView>::empty();
    let m = m.insert("name"@, JsonView::Str(d.name));
    let m = m.insert("lea_code"@, JsonView::Str(d.lea_code));
    let m = m.insert("grade_low"@, JsonView::Str(d.grade_low));
    let m = m.insert("grade_high"@, JsonView::Str(d.grade_high));
    JsonView::Obj(m)
}

pub open spec fn enc_school_districts(d: SpecSchoolDistricts) -> JsonView {
    let m = Map::<Seq<char>, JsonView>::empty();
    let m = ins_opt(m, "unified"@, enc_opt(d.unified, |x: SpecSchoolDistrict| enc_school_district(x)));
    let m = ins_opt(
        m,
        "elementary"@,
        enc_opt(d.elementary, |x: SpecSchoolDistrict| enc_school_district(x)),
    );
    let m = ins_opt(
        m,
        "secondary"@,
        enc_opt(d.secondary, |x: SpecSchoolDistrict| enc_school_district(x)),
    );
    JsonView::Obj(m)
}

pub open spec fn enc_timezone(t: SpecTimezone) -> JsonView {
    let m = Map::<Seq<char>, JsonView>::empty();
    let m = m.insert("name"@, JsonView::Str(t.name));
    let m = m.insert("abbreviation"@, JsonView::Str(t.abbreviation));
    let m = m.insert("utc_offset"@, JsonView::Num(dec_int(t.utc_offset)));
    let m = m.insert("observes_dst"@, JsonView::Bool(t.observes_dst));
    let m = m.insert("source"@, JsonView::Str(t.source));
    JsonView::Obj(m)
}

pub open spec fn enc_record_type(x: SpecRecordType) -> JsonView {
    let m = Map::<Seq<char>, JsonView>::empty();
    let m = m.insert("code"@, JsonView::Str(x.code));
    let m = m.insert("description"@, JsonView::Str(x.description));
    JsonView::Obj(m)
}

pub open spec fn enc_carrier_route(x: SpecCarrierRoute) -> JsonView {
    let m = Map::<Seq<char>, JsonView>::empty();
    let m = m.insert("id"@, JsonView::Str(x.id));
    let m = m.insert("description"@, JsonView::Str(x.description));
    JsonView::Obj(m)
}

pub open spec fn enc_facility_code(x: SpecFacilityCode) -> JsonView {
    let m = Map::<Seq<char>, JsonView>::empty();
    let m = m.insert("code"@, JsonView::Str(x.code));
    let m = m.insert("description"@, JsonView::Str(x.description));
    JsonView::Obj(m)
}

pub open spec fn enc_str_arr(s: Seq<Seq<char>>) -> JsonView {
    enc_arr(s, |t: Seq<char>| JsonView::Str(t))
}

pub open spec fn enc_zip4(z: SpecZip4) -> JsonView {
    let m = Map::<Seq<char>, JsonView>::empty();
    let m = m.insert("record_type"@, enc_record_type(z.record_type));
    let m = m.insert("carrier_route"@, enc_carrier_route(z.carrier_route));
    let m = ins_opt_str(m, "building_or_firm_name"@, z.building_or_firm_name);
    let m = m.insert("plus4"@, enc_str_arr(z.plus4));
    let m = m.insert("zip9"@, enc_str_arr(z.zip9));
    let m = ins_opt_str(m, "government_building"@, z.government_building);
    let m = m.insert("facility_code"@, enc_facility_code(z.facility_code));
    let m = m.insert("city_delivery"@, JsonView::Bool(z.city_delivery));
    let m = m.insert("valid_delivery_area"@, JsonView::Bool(z.valid_delivery_area));
    let m = m.insert("exact_match"@, JsonView::Bool(z.exact_match));
    JsonView::Obj(m)
}

pub open spec fn enc_congressional_district(c: SpecCongressionalDistrict) -> JsonView {
    let m = Map::<Seq<char>, JsonView>::empty();
    let m = ins_opt_str(m, "name"@, c.name);
    let m = ins_opt_num(m, "district_number"@, c.district_number);
    let m = ins_opt_num(m, "congress_number"@, c.congress_number);
    JsonView::Obj(m)
}

pub open spec fn enc_state_legislative_district(d: SpecStateLegislativeDistrict) -> JsonView {
    let m = Map::<Seq<char>, JsonView>::empty();
    let m = ins_opt_str(m, "name"@, d.name);
    let m = ins_opt_num(m, "district_number"@, d.district_number);
    JsonView::Obj(m)
}

pub open spec fn enc_state_legislative_districts(d: SpecStateLegislativeDistricts) -> JsonView {
    let m = Map::<Seq<char>, JsonView>::empty();
    let m = ins_opt(
        m,
        "house"@,
        enc_opt(d.house, |x: SpecStateLegislativeDistrict| enc_state_legislative_district(x)),
    );
    let m = ins_opt(
        m,
        "senate"@,
        enc_opt(d.senate, |x: SpecStateLegislativeDistrict| enc_state_legislative_district(x)),
    );
    JsonView::Obj(m)
}

pub open spec fn enc_fields(f: SpecFields) -> JsonView {
    let m = Map::<Seq<char>, JsonView>::empty();
    let m = ins_opt(m, "timezone"@, enc_opt(f.timezone, |x: SpecTimezone| enc_timezone(x)));
    let m = ins_opt(m, "zip4"@, enc_opt(f.zip4, |x: SpecZip4| enc_zip4(x)));
    let m = ins_opt(
        m,
        "congressional_district"@,
        enc_opt(f.congressional_district, |x: SpecCongressionalDistrict| enc_congressional_district(x)),
    );
    let m = ins_opt(
        m,
        "congressional_districts"@,
        enc_opt(
            f.congressional_districts,
            |s: Seq<SpecCongressionalDistrict>| enc_arr(
                s,
                |x: SpecCongressionalDistrict| enc_congressional_district(x),
            ),
        ),
    );
    let m = ins_opt(
        m,
        "state_legislative_districts"@,
        enc_opt(
            f.state_legislative_districts,
            |x: SpecStateLegislativeDistricts| enc_state_legislative_districts(x),
        ),
    );
    let m = ins_opt(
        m,
        "school_districts"@,
        enc_opt(f.school_districts, |x: SpecSchoolDistricts| enc_school_districts(x)),
    );
    let m = ins_opt(m, "census"@, f.census);
    let m = ins_opt(m, "acs"@, f.acs);
    JsonView::Obj(m)
}

pub open spec fn enc_address(a: SpecAddress) -> JsonView {
    let m = Map::<Seq<char>, JsonView>::empty();
    let m = ins_opt(
        m,
        "address_components"@,
        enc_opt(a.address_components, |c: SpecAddressComponents| enc_address_components(c)),
    );
    let m = ins_opt_str(m, "formatted_address"@, a.formatted_address);
    let m = ins_opt(m, "location"@, enc_opt(a.location, |l: SpecLocation| enc_location(l)));
    let m = ins_opt_num(m, "accuracy"@, a.accuracy);
    let m = ins_opt_str(m, "accuracy_type"@, a.accuracy_type);
    let m = ins_opt_str(m, "source"@, a.source);
    let m = ins_opt(m, "fields"@, enc_opt(a.fields, |f: SpecFields| enc_fields(f)));
    JsonView::Obj(m)
}

pub open spec fn enc_response_result(a: SpecResponseResult) -> JsonView {
    let m = Map::<Seq<char>, JsonView>::empty();
    let m = ins_opt(
        m,
        "address_components"@,
        enc_opt(a.address_components, |c: SpecAddressComponents| enc_address_components(c)),
    );
    let m = ins_opt_str(m, "formatted_address"@, a.formatted_address);
    let m = ins_opt(m, "location"@, enc_opt(a.location, |l: SpecLocation| enc_location(l)));
    let m = ins_opt_num(m, "accuracy"@, a.accuracy);
    let m = ins_opt_str(m, "accuracy_type"@, a.accuracy_type);
    let m = ins_opt_str(m, "source"@, a.source);
    JsonView::Obj(m)
}

pub open spec fn enc_input(x: SpecInput) -> JsonView {
    let m = Map::<Seq<char>, JsonView>::empty();
    let m = m.insert("address_components"@, enc_address_components(x.address_components));
    let m = m.insert("formatted_address"@, JsonView::Str(x.formatted_address));
    JsonView::Obj(m)
}

pub open spec fn enc_geocode_response(r: SpecGeocodeResponse) -> JsonView {
    let m = Map::<Seq<char>, JsonView>::empty();
    let m = m.insert("input"@, enc_input(r.input));
    let m = m.insert("results"@, enc_arr(r.results, |a: SpecAddress| enc_address(a)));
    JsonView::Obj(m)
}

pub open spec fn enc_reverse_response(r: SpecGeocodeReverseResponse) -> JsonView {
    let m = Map::<Seq<char>, JsonView>::empty();
    let m = ins_opt(
        m,
        "results"@,
        enc_opt(r.results, |s: Seq<SpecAddress>| enc_arr(s, |a: SpecAddress| enc_address(a))),
    );
    JsonView::Obj(m)
}

pub open spec fn enc_response(r: SpecResponse) -> JsonView {
    let m = Map::<Seq<char>, JsonView>::empty();
    let m = ins_opt(m, "input"@, enc_opt(r.input, |x: SpecInput| enc_input(x)));
    let m = ins_opt(
        m,
        "results"@,
        enc_opt(
            r.results,
            |s: Seq<SpecResponseResult>| enc_arr(s, |a: SpecResponseResult| enc_response_result(a)),
        ),
    );
    JsonView::Obj(m)
}

pub open spec fn enc_batch_result(b: SpecBatchResult) -> JsonView {
    let m = Map::<Seq<char>, JsonView>::empty();
    let m = ins_opt_str(m, "query"@, b.query);
    let m = ins_opt(m, "response"@, enc_opt(b.response, |x: SpecResponse| enc_response(x)));
    JsonView::Obj(m)
}

pub open spec fn enc_batch_response(r: SpecGeocodeBatchResponse) -> JsonView {
    let m = Map::<Seq<char>, JsonView>::empty();
    let m = ins_opt(
        m,
        "results"@,
        enc_opt(
            r.results,
            |s: Seq<SpecBatchResult>| enc_arr(s, |b: SpecBatchResult| enc_batch_result(b)),
        ),
    );
    JsonView::Obj(m)
}

// ---------------------------------------------------------------------------
// Round-trip laws
// ---------------------------------------------------------------------------

/// Element-wise round trip: if decoding inverts encoding on every element,
/// it inverts it on the whole array.
pub proof fn lemma_roundtrip_elems<T>(
    s: Seq<T>,
    ef: spec_fn(T) -> JsonView,
    df: spec_fn(JsonView) -> Option<T>,
)
    requires
        forall|i: int| 0 <= i < s.len() ==> df(ef(#[trigger] s[i])) == Some(s[i]),
    ensures
        dec_elems(s.map_values(ef), df) == Some(s),
    decreases s.len(),
{
    if s.len() > 0 {
        lemma_roundtrip_elems(s.drop_last(), ef, df);
        assert(s.map_values(ef).drop_last() =~= s.drop_last().map_values(ef));
        assert(s.map_values(ef).last() == ef(s.last()));
        assert(s.drop_last().push(s.last()) =~= s);
    }
}

/// Round trip of the address components record.
pub proof fn lemma_roundtrip_address_components(c: SpecAddressComponents)
    ensures
        dec_address_components(enc_address_components(c)) == Some(c),
{
    reveal_strlit("number");
    reveal_strlit("predirectional");
    reveal_strlit("street");
    reveal_strlit("suffix");
    reveal_strlit("formatted_street");
    reveal_strlit("city");
    reveal_strlit("county");
    reveal_strlit("state");
    reveal_strlit("zip");
    reveal_strlit("country");
    assert("number"@.len() == 6);
    assert("predirectional"@.len() == 14);
    assert("street"@.len() == 6);
    assert("suffix"@.len() == 6);
    assert("formatted_street"@.len() == 16);
    assert("city"@.len() == 4);
    assert("county"@.len() == 6);
    assert("state"@.len() == 5);
    assert("zip"@.len() == 3);
    assert("country"@.len() == 7);
    // the keys of equal length differ in their third character
    assert("number"@[2] == 'm');
    assert("street"@[2] == 'r');
    assert("suffix"@[2] == 'f');
    assert("county"@[2] == 'u');
}

/// Round trip of a resolved point.
pub proof fn lemma_roundtrip_location(l: SpecLocation)
    ensures
        dec_location(enc_location(l)) == Some(l),
{
    reveal_strlit("lat");
    reveal_strlit("lng");
    assert("lat"@.len() == 3);
    assert("lng"@.len() == 3);
    // the two keys differ in their second character
    assert("lat"@[1] == 'a');
    assert("lng"@[1] == 'n');
}

/// Round trip of one school district.
pub proof fn lemma_roundtrip_school_district(d: SpecSchoolDistrict)
    ensures
        dec_school_district(enc_school_district(d)) == Some(d),
{
    reveal_strlit("name");
    reveal_strlit("lea_code");
    reveal_strlit("grade_low");
    reveal_strlit("grade_high");
    assert("name"@.len() == 4);
    assert("lea_code"@.len() == 8);
    assert("grade_low"@.len() == 9);
    assert("grade_high"@.len() == 10);
}

/// Round trip of the school-district container.
pub proof fn lemma_roundtrip_school_districts(d: SpecSchoolDistricts)
    ensures
        dec_school_districts(enc_school_districts(d)) == Some(d),
{
    reveal_strlit("unified");
    reveal_strlit("elementary");
    reveal_strlit("secondary");
    assert("unified"@.len() == 7);
    assert("elementary"@.len() == 10);
    assert("secondary"@.len() == 9);
    if let Some(x) = d.unified {
        lemma_roundtrip_school_district(x);
    }
    if let Some(x) = d.elementary {
        lemma_roundtrip_school_district(x);
    }
    if let Some(x) = d.secondary {
        lemma_roundtrip_school_district(x);
    }
}

/// Round trip of the time zone record.
pub proof fn lemma_roundtrip_timezone(t: SpecTimezone)
    requires
        wf_spec_timezone(t),
    ensures
        dec_timezone(enc_timezone(t)) == Some(t),
{
    reveal_strlit("name");
    reveal_strlit("abbreviation");
    reveal_strlit("utc_offset");
    reveal_strlit("observes_dst");
    reveal_strlit("source");
    assert("name"@.len() == 4);
    assert("abbreviation"@.len() == 12);
    assert("utc_offset"@.len() == 10);
    assert("observes_dst"@.len() == 12);
    assert("source"@.len() == 6);
    // the keys of equal length differ in their first character
    assert("abbreviation"@[0] == 'a');
    assert("observes_dst"@[0] == 'o');
    lemma_parse_dec_int(t.utc_offset);
}

/// Round trip of a postal record type.
pub proof fn lemma_roundtrip_record_type(x: SpecRecordType)
    ensures
        dec_record_type(enc_record_type(x)) == Some(x),
{
    reveal_strlit("code");
    reveal_strlit("description");
    assert("code"@.len() == 4);
    assert("description"@.len() == 11);
}

/// Round trip of a postal carrier route.
pub proof fn lemma_roundtrip_carrier_route(x: SpecCarrierRoute)
    ensures
        dec_carrier_route(enc_carrier_route(x)) == Some(x),
{
    reveal_strlit("id");
    reveal_strlit("description");
    assert("id"@.len() == 2);
    assert("description"@.len() == 11);
}

/// Round trip of a postal facility code.
pub proof fn lemma_roundtrip_facility_code(x: SpecFacilityCode)
    ensures
        dec_facility_code(enc_facility_code(x)) == Some(x),
{
    reveal_strlit("code");
    reveal_strlit("description");
    assert("code"@.len() == 4);
    assert("description"@.len() == 11);
}

/// Round trip of a string array.
pub proof fn lemma_roundtrip_str_arr(s: Seq<Seq<char>>)
    ensures
        dec_arr(enc_str_arr(s), |e: JsonView| dec_str_elem(e)) == Some(s),
{
    lemma_roundtrip_elems(s, |t: Seq<char>| JsonView::Str(t), |e: JsonView| dec_str_elem(e));
}

/// Round trip of ZIP+4 postal routing detail.
pub proof fn lemma_roundtrip_zip4(z: SpecZip4)
    ensures
        dec_zip4(enc_zip4(z)) == Some(z),
{
    reveal_strlit("record_type");
    reveal_strlit("carrier_route");
    reveal_strlit("building_or_firm_name");
    reveal_strlit("plus4");
    reveal_strlit("zip9");
    reveal_strlit("government_building");
    reveal_strlit("facility_code");
    reveal_strlit("city_delivery");
    reveal_strlit("valid_delivery_area");
    reveal_strlit("exact_match");
    assert("record_type"@.len() == 11);
    assert("carrier_route"@.len() == 13);
    assert("building_or_firm_name"@.len() == 21);
    assert("plus4"@.len() == 5);
    assert("zip9"@.len() == 4);
    assert("government_building"@.len() == 19);
    assert("facility_code"@.len() == 13);
    assert("city_delivery"@.len() == 13);
    assert("valid_delivery_area"@.len() == 19);
    assert("exact_match"@.len() == 11);
    // keys of equal length differ in an early character
    assert("record_type"@[0] == 'r');
    assert("exact_match"@[0] == 'e');
    assert("carrier_route"@[2] == 'r');
    assert("facility_code"@[2] == 'c');
    assert("city_delivery"@[2] == 't');
    assert("government_building"@[0] == 'g');
    assert("valid_delivery_area"@[0] == 'v');
    lemma_roundtrip_record_type(z.record_type);
    lemma_roundtrip_carrier_route(z.carrier_route);
    lemma_roundtrip_facility_code(z.facility_code);
    lemma_roundtrip_str_arr(z.plus4);
    lemma_roundtrip_str_arr(z.zip9);
}

/// Round trip of one congressional district.
pub proof fn lemma_roundtrip_congressional_district(c: SpecCongressionalDistrict)
    ensures
        dec_congressional_district(enc_congressional_district(c)) == Some(c),
{
    reveal_strlit("name");
    reveal_strlit("district_number");
    reveal_strlit("congress_number");
    assert("name"@.len() == 4);
    assert("district_number"@.len() == 15);
    assert("congress_number"@.len() == 15);
    // the two number keys differ in their first character
    assert("district_number"@[0] == 'd');
    assert("congress_number"@[0] == 'c');
}

/// Round trip of one state legislative district.
pub proof fn lemma_roundtrip_state_legislative_district(d: SpecStateLegislativeDistrict)
    ensures
        dec_state_legislative_district(enc_state_legislative_district(d)) == Some(d),
{
    reveal_strlit("name");
    reveal_strlit("district_number");
    assert("name"@.len() == 4);
    assert("district_number"@.len() == 15);
}

/// Round trip of the state-legislative-district container.
pub proof fn lemma_roundtrip_state_legislative_districts(d: SpecStateLegislativeDistricts)
    ensures
        dec_state_legislative_districts(enc_state_legislative_districts(d)) == Some(d),
{
    reveal_strlit("house");
    reveal_strlit("senate");
    assert("house"@.len() == 5);
    assert("senate"@.len() == 6);
    if let Some(x) = d.house {
        lemma_roundtrip_state_legislative_district(x);
    }
    if let Some(x) = d.senate {
        lemma_roundtrip_state_legislative_district(x);
    }
}

/// Round trip of the extended-fields container.
pub proof fn lemma_roundtrip_fields(f: SpecFields)
    requires
        wf_spec_fields(f),
    ensures
        dec_fields(enc_fields(f)) == Some(f),
{
    reveal_strlit("timezone");
    reveal_strlit("zip4");
    reveal_strlit("congressional_district");
    reveal_strlit("congressional_districts");
    reveal_strlit("state_legislative_districts");
    reveal_strlit("school_districts");
    reveal_strlit("census");
    reveal_strlit("acs");
    assert("timezone"@.len() == 8);
    assert("zip4"@.len() == 4);
    assert("congressional_district"@.len() == 22);
    assert("congressional_districts"@.len() == 23);
    assert("state_legislative_districts"@.len() == 27);
    assert("school_districts"@.len() == 16);
    assert("census"@.len() == 6);
    assert("acs"@.len() == 3);
    if let Some(x) = f.timezone {
        lemma_roundtrip_timezone(x);
    }
    if let Some(x) = f.zip4 {
        lemma_roundtrip_zip4(x);
    }
    if let Some(x) = f.congressional_district {
        lemma_roundtrip_congressional_district(x);
    }
    if let Some(s) = f.congressional_districts {
        assert forall|i: int| 0 <= i < s.len() implies dec_congressional_district(
            enc_congressional_district(#[trigger] s[i]),
        ) == Some(s[i]) by {
            lemma_roundtrip_congressional_district(s[i]);
        }
        lemma_roundtrip_elems(
            s,
            |x: SpecCongressionalDistrict| enc_congressional_district(x),
            |e: JsonView| dec_congressional_district(e),
        );
    }
    if let Some(x) = f.state_legislative_districts {
        lemma_roundtrip_state_legislative_districts(x);
    }
    if let Some(x) = f.school_districts {
        lemma_roundtrip_school_districts(x);
    }
}

/// Round trip of one single-mode candidate.
pub proof fn lemma_roundtrip_address(a: SpecAddress)
    requires
        wf_spec_address(a),
    ensures
        dec_address(enc_address(a)) == Some(a),
{
    reveal_strlit("address_components");
    reveal_strlit("formatted_address");
    reveal_strlit("location");
    reveal_strlit("accuracy");
    reveal_strlit("accuracy_type");
    reveal_strlit("source");
    reveal_strlit("fields");
    assert("address_components"@.len() == 18);
    assert("formatted_address"@.len() == 17);
    assert("location"@.len() == 8);
    assert("accuracy"@.len() == 8);
    assert("accuracy_type"@.len() == 13);
    assert("source"@.len() == 6);
    assert("fields"@.len() == 6);
    // keys of equal length differ in their first character
    assert("location"@[0] == 'l');
    assert("accuracy"@[0] == 'a');
    assert("source"@[0] == 's');
    assert("fields"@[0] == 'f');
    if let Some(c) = a.address_components {
        lemma_roundtrip_address_components(c);
    }
    if let Some(l) = a.location {
        lemma_roundtrip_location(l);
    }
    if let Some(f) = a.fields {
        lemma_roundtrip_fields(f);
    }
}

/// Round trip of one batch-mode candidate.
pub proof fn lemma_roundtrip_response_result(a: SpecResponseResult)
    ensures
        dec_response_result(enc_response_result(a)) == Some(a),
{
    reveal_strlit("address_components");
    reveal_strlit("formatted_address");
    reveal_strlit("location");
    reveal_strlit("accuracy");
    reveal_strlit("accuracy_type");
    reveal_strlit("source");
    assert("address_components"@.len() == 18);
    assert("formatted_address"@.len() == 17);
    assert("location"@.len() == 8);
    assert("accuracy"@.len() == 8);
    assert("accuracy_type"@.len() == 13);
    assert("source"@.len() == 6);
    // the two keys of equal length differ in their first character
    assert("location"@[0] == 'l');
    assert("accuracy"@[0] == 'a');
    if let Some(c) = a.address_components {
        lemma_roundtrip_address_components(c);
    }
    if let Some(l) = a.location {
        lemma_roundtrip_location(l);
    }
}

/// Round trip of the input echo.
pub proof fn lemma_roundtrip_input(x: SpecInput)
    ensures
        dec_input(enc_input(x)) == Some(x),
{
    reveal_strlit("address_components");
    reveal_strlit("formatted_address");
    assert("address_components"@.len() == 18);
    assert("formatted_address"@.len() == 17);
    lemma_roundtrip_address_components(x.address_components);
}

/// Law: decoding the canonical encoding of a well-formed single-mode geocode
/// response yields it back unchanged.
pub proof fn lemma_roundtrip_geocode_response(r: SpecGeocodeResponse)
    requires
        wf_spec_geocode_response(r),
    ensures
        dec_geocode_response(enc_geocode_response(r)) == Some(r),
{
    reveal_strlit("input");
    reveal_strlit("results");
    assert("input"@.len() == 5);
    assert("results"@.len() == 7);
    lemma_roundtrip_input(r.input);
    assert forall|i: int| 0 <= i < r.results.len() implies dec_address(
        enc_address(#[trigger] r.results[i]),
    ) == Some(r.results[i]) by {
        lemma_roundtrip_address(r.results[i]);
    }
    lemma_roundtrip_elems(
        r.results,
        |a: SpecAddress| enc_address(a),
        |e: JsonView| dec_address(e),
    );
}

/// Law: decoding the canonical encoding of a well-formed reverse-geocode
/// response yields it back unchanged.
pub proof fn lemma_roundtrip_reverse_response(r: SpecGeocodeReverseResponse)
    requires
        wf_spec_reverse_response(r),
    ensures
        dec_reverse_response(enc_reverse_response(r)) == Some(r),
{
    reveal_strlit("results");
    if let Some(s) = r.results {
        assert forall|i: int| 0 <= i < s.len() implies dec_address(
            enc_address(#[trigger] s[i]),
        ) == Some(s[i]) by {
            lemma_roundtrip_address(s[i]);
        }
        lemma_roundtrip_elems(s, |a: SpecAddress| enc_address(a), |e: JsonView| dec_address(e));
    }
}

/// Round trip of one batch sub-response envelope.
pub proof fn lemma_roundtrip_response(r: SpecResponse)
    ensures
        dec_response(enc_response(r)) == Some(r),
{
    reveal_strlit("input");
    reveal_strlit("results");
    assert("input"@.len() == 5);
    assert("results"@.len() == 7);
    if let Some(x) = r.input {
        lemma_roundtrip_input(x);
    }
    if let Some(s) = r.results {
        assert forall|i: int| 0 <= i < s.len() implies dec_response_result(
            enc_response_result(#[trigger] s[i]),
        ) == Some(s[i]) by {
            lemma_roundtrip_response_result(s[i]);
        }
        lemma_roundtrip_elems(
            s,
            |a: SpecResponseResult| enc_response_result(a),
            |e: JsonView| dec_response_result(e),
        );
    }
}

/// Round trip of one batch entry.
pub proof fn lemma_roundtrip_batch_result(b: SpecBatchResult)
    ensures
        dec_batch_result(enc_batch_result(b)) == Some(b),
{
    reveal_strlit("query");
    reveal_strlit("response");
    assert("query"@.len() == 5);
    assert("response"@.len() == 8);
    if let Some(x) = b.response {
        lemma_roundtrip_response(x);
    }
}

/// Element-wise decoding keeps the array's length and positional
/// correspondence: element `i` of the output decodes element `i` of the
/// input, for every `i`.
pub proof fn lemma_dec_elems_props<T>(s: Seq<JsonView>, f: spec_fn(JsonView) -> Option<T>)
    requires
        dec_elems(s, f) is Some,
    ensures
        dec_elems(s, f)->Some_0.len() == s.len(),
        forall|i: int|
            0 <= i < s.len() ==> f(#[trigger] s[i]) is Some && dec_elems(s, f)->Some_0[i] == f(
                s[i],
            )->Some_0,
    decreases s.len(),
{
    if s.len() > 0 {
        lemma_dec_elems_props(s.drop_last(), f);
        assert(forall|i: int| 0 <= i < s.len() - 1 ==> s.drop_last()[i] == #[trigger] s[i]);
    }
}

/// Every decoded time zone is well-formed.
pub proof fn lemma_dec_timezone_wf(j: JsonView)
    ensures
        dec_timezone(j) matches Some(t) ==> wf_spec_timezone(t),
{
}

/// Every decoded extended-fields container is well-formed.
pub proof fn lemma_dec_fields_wf(j: JsonView)
    ensures
        dec_fields(j) matches Some(f) ==> wf_spec_fields(f),
{
    if dec_fields(j) is Some {
        let m = j->Obj_0;
        let f = dec_fields(j)->Some_0;
        if f.timezone is Some {
            lemma_dec_timezone_wf(opt_elem(m, "timezone"@)->Some_0);
        }
    }
}

/// Every decoded candidate is well-formed.
pub proof fn lemma_dec_address_wf(j: JsonView)
    ensures
        dec_address(j) matches Some(a) ==> wf_spec_address(a),
{
    if dec_address(j) is Some {
        let m = j->Obj_0;
        let a = dec_address(j)->Some_0;
        if a.fields is Some {
            lemma_dec_fields_wf(opt_elem(m, "fields"@)->Some_0);
        }
    }
}

/// Every decoded single-mode geocode response is well-formed.
pub proof fn lemma_dec_geocode_response_wf(j: JsonView)
    ensures
        dec_geocode_response(j) matches Some(r) ==> wf_spec_geocode_response(r),
{
    if dec_geocode_response(j) is Some {
        let m = j->Obj_0;
        let r = dec_geocode_response(j)->Some_0;
        let arr = req_elem(m, "results"@)->Some_0->Arr_0;
        let f = |e: JsonView| dec_address(e);
        lemma_dec_elems_props(arr, f);
        assert forall|i: int| 0 <= i < r.results.len() implies wf_spec_address(
            #[trigger] r.results[i],
        ) by {
            lemma_dec_address_wf(arr[i]);
        }
    }
}

/// Every decoded reverse-geocode response is well-formed.
pub proof fn lemma_dec_reverse_response_wf(j: JsonView)
    ensures
        dec_reverse_response(j) matches Some(r) ==> wf_spec_reverse_response(r),
{
    if dec_reverse_response(j) is Some {
        let m = j->Obj_0;
        let r = dec_reverse_response(j)->Some_0;
        if let Some(s) = r.results {
            let arr = opt_elem(m, "results"@)->Some_0->Arr_0;
            let f = |e: JsonView| dec_address(e);
            lemma_dec_elems_props(arr, f);
            assert forall|i: int| 0 <= i < s.len() implies wf_spec_address(#[trigger] s[i]) by {
                lemma_dec_address_wf(arr[i]);
            }
        }
    }
}

/// Law: re-encoding a decoded single-mode response and decoding it again
/// yields the same value, for every document that decodes at all.
pub proof fn lemma_geocode_reencode_idempotent(j: JsonView)
    ensures
        dec_geocode_response(j) matches Some(r) ==> dec_geocode_response(enc_geocode_response(r))
            == Some(r),
{
    if let Some(r) = dec_geocode_response(j) {
        lemma_dec_geocode_response_wf(j);
        lemma_roundtrip_geocode_response(r);
    }
}

/// Law: re-encoding a decoded reverse-geocode response and decoding it again
/// yields the same value.
pub proof fn lemma_reverse_reencode_idempotent(j: JsonView)
    ensures
        dec_reverse_response(j) matches Some(r) ==> dec_reverse_response(enc_reverse_response(r))
            == Some(r),
{
    if let Some(r) = dec_reverse_response(j) {
        lemma_dec_reverse_response_wf(j);
        lemma_roundtrip_reverse_response(r);
    }
}

/// Law: re-encoding a decoded batch response and decoding it again yields
/// the same value.
pub proof fn lemma_batch_reencode_idempotent(j: JsonView)
    ensures
        dec_batch_response(j) matches Some(r) ==> dec_batch_response(enc_batch_response(r))
            == Some(r),
{
    if let Some(r) = dec_batch_response(j) {
        lemma_roundtrip_batch_response(r);
    }
}

/// Law: decoding the canonical encoding of a batch response yields it back
/// unchanged.
pub proof fn lemma_roundtrip_batch_response(r: SpecGeocodeBatchResponse)
    ensures
        dec_batch_response(enc_batch_response(r)) == Some(r),
{
    reveal_strlit("results");
    if let Some(s) = r.results {
        assert forall|i: int| 0 <= i < s.len() implies dec_batch_result(
            enc_batch_result(#[trigger] s[i]),
        ) == Some(s[i]) by {
            lemma_roundtrip_batch_result(s[i]);
        }
        lemma_roundtrip_elems(
            s,
            |b: SpecBatchResult| enc_batch_result(b),
            |e: JsonView| dec_batch_result(e),
        );
    }
}

} // verus!
