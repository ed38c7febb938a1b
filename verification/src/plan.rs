//! Request builder: turns rendered inputs into the outbound request shape.
//! Single lookups are a GET whose query carries the rendered input, the
//! optional extended-field list, and the API key last; batch lookups are a
//! POST to a URL carrying only the API key, with one rendered input per body
//! element, in request order. The key always travels as a query parameter,
//! never in a header or body field.

use vstd::prelude::*;
use vstd::seq_lib::*;

use crate::address::{join_parts, lemma_join_push};

verus! {

/// The HTTP method of one planned request.
#[derive(Debug, Clone, Copy, PartialEq, Eq)]
pub enum HttpMethod {
    Get,
    Post,
}

/// One fully planned outbound request: the URL to call, the method, and for
/// batch lookups the JSON-array body elements, in request order.
#[derive(Debug, Clone, PartialEq, Eq)]
pub struct RequestPlan {
    pub method: HttpMethod,
    pub url: String,
    pub body: Option<Vec<String>>,
}

/// The fixed base endpoint every request is built on.
pub open spec fn spec_base_url() -> Seq<char> {
    "https://api.geocod.io/v1.7/"@
}

/// The URL of a single lookup: endpoint, rendered query, the optional
/// comma-joined extended-field list, and the API key last.
pub open spec fn spec_single_url(
    endpoint: Seq<char>,
    q: Seq<char>,
    fields_csv: Option<Seq<char>>,
    api_key: Seq<char>,
) -> Seq<char> {
    spec_base_url() + endpoint + "?q="@ + q + (match fields_csv {
        Some(csv) => "&fields="@ + csv,
        None => Seq::empty(),
    }) + "&api_key="@ + api_key
}

/// The URL of a batch lookup: endpoint and the API key alone.
pub open spec fn spec_batch_url(endpoint: Seq<char>, api_key: Seq<char>) -> Seq<char> {
    spec_base_url() + endpoint + "?api_key="@ + api_key
}

/// The comma-joined extended-field list, when one was requested.
pub open spec fn spec_fields_csv(fields: Option<Seq<Seq<char>>>) -> Option<Seq<char>> {
    match fields {
        Some(names) => Some(join_parts(names, ","@)),
        None => None,
    }
}

/// The base endpoint as a string value.
pub fn base_url() -> (r: String)
    ensures
        r@ == spec_base_url(),
{
    String::from_str("https://api.geocod.io/v1.7/")
}

/// Joins the parts with the separator: no leading or trailing separator,
/// exactly one between adjacent parts.
pub fn join_with(parts: &Vec<String>, sep: &str) -> (r: String)
    ensures
        r@ == join_parts(parts@.map_values(|s: String| s@), sep@),
{
    let mut out = String::new();
    let mut i: usize = 0;
    while i < parts.len()
        invariant
            0 <= i <= parts.len(),
            out@ == join_parts(parts@.map_values(|s: String| s@).subrange(0, i as int), sep@),
        decreases parts.len() - i,
    {
        if i > 0 {
            out.append(sep);
        }
        out.append(parts[i].as_str());
        proof {
            let all = parts@.map_values(|s: String| s@);
            assert(all.subrange(0, i as int + 1) =~= all.subrange(0, i as int).push(
                all[i as int],
            ));
            lemma_join_push(all.subrange(0, i as int), sep@, all[i as int]);
        }
        i = i + 1;
    }
    proof {
        let all = parts@.map_values(|s: String| s@);
        assert(all.subrange(0, all.len() as int) =~= all);
    }
    out
}

} // verus!
