//! Client core for the Geocodio geocoding web service: renders address and
//! coordinate inputs into wire parameters, plans the outbound HTTP requests,
//! and decodes the service's JSON responses into typed result structures.
//!
//! The core is transport-free: [`GeocodioProxy`] plans each request as a
//! [`plan::RequestPlan`] value, and the [`decode`] module turns a response
//! body into a typed value. A caller performs the HTTP exchange itself with
//! whatever client it prefers and hands the body text back.

use vstd::prelude::*;

pub mod address;
pub mod decode;
pub mod encode;
mod errors;
pub mod json;
pub mod numtext;
pub mod plan;
pub mod response;

pub use address::{AddressInput, AddressParams, Coordinates};
pub use errors::{DecodeError, GeocodioError};
pub use plan::{HttpMethod, RequestPlan};

use address::{spec_coords_rendered, spec_rendered};
use plan::{base_url, join_with, spec_base_url, spec_batch_url, spec_fields_csv, spec_single_url};

verus! {

/// The view of the optional extended-field list: each name as its characters.
pub open spec fn spec_fields_view(fields: Option<&Vec<String>>) -> Option<Seq<Seq<char>>> {
    match fields {
        Some(v) => Some(v@.map_values(|s: String| s@)),
        None => None,
    }
}

/// The stateless entry point: holds the API key and the base endpoint, and
/// plans one request per call. No call result is cached; every plan is built
/// afresh from the inputs alone.
#[derive(Debug, Clone, PartialEq, Eq)]
pub struct GeocodioProxy {
    pub api_key: String,
    pub base_url: String,
}

impl GeocodioProxy {
    /// Creates a client core from a caller-supplied API key. The key is
    /// stored as given; the service itself judges its validity.
    pub fn new_from_key(api_key: String) -> (r: Result<GeocodioProxy, GeocodioError>)
        ensures
            r matches Ok(p) && p.api_key@ == api_key@ && p.base_url@ == spec_base_url(),
    {
        Ok(GeocodioProxy { api_key, base_url: base_url() })
    }

    /// Plans a single geocode lookup: a GET on the `geocode` endpoint whose
    /// query carries the rendered address, the optional extended-field list,
    /// and the API key last.
    pub fn plan_geocode(&self, address: &AddressParams, fields: Option<&Vec<String>>) -> (r:
        RequestPlan)
        ensures
            r.method is Get,
            r.body is None,
            r.url@ == spec_single_url(
                "geocode"@,
                spec_rendered(*address),
                spec_fields_csv(spec_fields_view(fields)),
                self.api_key@,
            ),
    {
        self.plan_single("geocode", address.render(), fields)
    }

    /// Plans a single reverse-geocode lookup: a GET on the `reverse`
    /// endpoint whose query carries `"{lat},{lng}"` and the API key.
    pub fn plan_reverse_geocode(&self, coordinates: &Coordinates) -> (r: RequestPlan)
        ensures
            r.method is Get,
            r.body is None,
            r.url@ == spec_single_url(
                "reverse"@,
                spec_coords_rendered(*coordinates),
                None,
                self.api_key@,
            ),
    {
        self.plan_single("reverse", coordinates.fmt_string(), None)
    }

    /// Plans a batch geocode lookup: a POST on the `geocode` endpoint with
    /// the API key in the URL and one rendered address per body element, in
    /// request order.
    pub fn plan_geocode_batch(&self, addresses: &Vec<AddressParams>) -> (r: RequestPlan)
        ensures
            r.method is Post,
            r.url@ == spec_batch_url("geocode"@, self.api_key@),
            r.body matches Some(b) && b@.len() == addresses@.len() && (forall|i: int|
                0 <= i < addresses@.len() ==> b@[i]@ == spec_rendered(#[trigger] addresses@[i])),
    {
        let mut body: Vec<String> = Vec::new();
        let mut i: usize = 0;
        while i < addresses.len()
            invariant
                0 <= i <= addresses.len(),
                body@.len() == i,
                forall|k: int|
                    0 <= k < i ==> body@[k]@ == spec_rendered(#[trigger] addresses@[k]),
            decreases addresses.len() - i,
        {
            body.push(addresses[i].render());
            i = i + 1;
        }
        RequestPlan { method: HttpMethod::Post, url: self.batch_url("geocode"), body: Some(body) }
    }

    /// Plans a batch reverse-geocode lookup: a POST on the `reverse`
    /// endpoint with one rendered coordinate pair per body element, in
    /// request order.
    pub fn plan_reverse_geocode_batch(&self, coordinates: &Vec<Coordinates>) -> (r: RequestPlan)
        ensures
            r.method is Post,
            r.url@ == spec_batch_url("reverse"@, self.api_key@),
            r.body matches Some(b) && b@.len() == coordinates@.len() && (forall|i: int|
                0 <= i < coordinates@.len() ==> b@[i]@ == spec_coords_rendered(
                    #[trigger] coordinates@[i],
                )),
    {
        let mut body: Vec<String> = Vec::new();
        let mut i: usize = 0;
        while i < coordinates.len()
            invariant
                0 <= i <= coordinates.len(),
                body@.len() == i,
                forall|k: int|
                    0 <= k < i ==> body@[k]@ == spec_coords_rendered(#[trigger] coordinates@[k]),
            decreases coordinates.len() - i,
        {
            body.push(coordinates[i].fmt_string());
            i = i + 1;
        }
        RequestPlan { method: HttpMethod::Post, url: self.batch_url("reverse"), body: Some(body) }
    }

    /// Builds the URL of one single lookup.
    fn plan_single(&self, endpoint: &str, q: String, fields: Option<&Vec<String>>) -> (r:
        RequestPlan)
        ensures
            r.method is Get,
            r.body is None,
            r.url@ == spec_single_url(
                endpoint@,
                q@,
                spec_fields_csv(spec_fields_view(fields)),
                self.api_key@,
            ),
    {
        let mut url = base_url();
        url.append(endpoint);
        url.append("?q=");
        url.append(q.as_str());
        if let Some(names) = fields {
            url.append("&fields=");
            let csv = join_with(names, ",");
            url.append(csv.as_str());
        }
        url.append("&api_key=");
        url.append(self.api_key.as_str());
        RequestPlan { method: HttpMethod::Get, url, body: None }
    }

    /// Builds the URL of one batch lookup.
    fn batch_url(&self, endpoint: &str) -> (r: String)
        ensures
            r@ == spec_batch_url(endpoint@, self.api_key@),
    {
        let mut url = base_url();
        url.append(endpoint);
        url.append("?api_key=");
        url.append(self.api_key.as_str());
        url
    }
}

} // verus!
