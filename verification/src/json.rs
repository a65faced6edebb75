//! The trusted boundary to the JSON library: parsing request bodies. The
//! parsed document type is opaque here; the gateway only decides on whether
//! parsing succeeded and carries the document through.

use vstd::prelude::*;

verus! {

/// An external type: one parsed JSON document.
#[verifier::external_type_specification]
#[verifier::external_body]
pub struct ExJsonValue(serde_json::Value);

/// An external type: a JSON parse failure.
#[verifier::external_type_specification]
#[verifier::external_body]
pub struct ExJsonError(serde_json::Error);

/// Whether a byte sequence is one well-formed JSON document.
pub uninterp spec fn json_ok(b: Seq<u8>) -> bool;

/// Relies on `serde_json::from_slice::<Value>`: whether a byte slice parses
/// as a JSON document is a function of the bytes alone.
#[verifier::external_body]
pub fn parse_json(b: &Vec<u8>) -> (r: Result<serde_json::Value, serde_json::Error>)
    ensures
        r is Ok <==> json_ok(b@),
{
    serde_json::from_slice::<serde_json::Value>(b.as_slice())
}

/// Relies on `serde_json::Error`'s `Display` implementation for the parse
/// diagnostic (what went wrong, with line and column).
#[verifier::external_body]
pub fn json_error_detail(e: &serde_json::Error) -> String {
    e.to_string()
}

} // verus!
