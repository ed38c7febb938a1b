//! Typed failures surfaced by the client: configuration problems, transport
//! failures, and responses whose JSON does not match the expected schema.

use vstd::prelude::*;

verus! {

/// A response body did not match the expected schema (or was not valid
/// JSON at all). `detail` names the offending field or the syntax problem;
/// it is diagnostic text, not part of any contract.
#[derive(Debug, Clone, PartialEq, Eq)]
pub struct DecodeError {
    pub detail: String,
}

impl DecodeError {
    /// Human-readable description of the decoding failure.
    pub fn message(&self) -> (r: String)
        ensures
            r@ == self.detail@,
    {
        self.detail.clone()
    }
}

/// Every failure a client operation can surface. A per-item failure inside a
/// batch response is data, not a `GeocodioError`: the whole exchange succeeded.
#[derive(Debug, Clone, PartialEq, Eq)]
pub enum GeocodioError {
    /// The API key was missing or could not be obtained.
    Config(String),
    /// The HTTP exchange itself failed (connection failure or non-success status).
    Transport(String),
    /// The response body could not be decoded into the requested shape.
    Decode(DecodeError),
}

impl GeocodioError {
    /// Human-readable description: the failure kind and its detail.
    pub fn message(&self) -> (r: String)
        ensures
            r@ == (match self {
                GeocodioError::Config(s) => "configuration error: "@ + s@,
                GeocodioError::Transport(s) => "transport error: "@ + s@,
                GeocodioError::Decode(d) => "decode error: "@ + d.detail@,
            }),
    {
        match self {
            GeocodioError::Config(s) => String::from_str("configuration error: ").concat(
                s.as_str(),
            ),
            GeocodioError::Transport(s) => String::from_str("transport error: ").concat(
                s.as_str(),
            ),
            GeocodioError::Decode(d) => String::from_str("decode error: ").concat(
                d.detail.as_str(),
            ),
        }
    }
}

} // verus!
