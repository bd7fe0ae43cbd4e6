//! The one place where raw JSON text is interpreted: several fields of the
//! remote API's market payload are string-encoded JSON arrays of strings
//! ("JSON-in-JSON"), and the standardizer has to decode them before it can
//! validate anything.

use vstd::prelude::*;

verus! {

/// What a JSON text denotes when read as an array of strings: `Some` of the
/// decoded elements when the text is exactly a JSON array whose elements are
/// all strings, `None` otherwise. Decoding a text depends on the text alone.
pub uninterp spec fn json_string_array(s: Seq<char>) -> Option<Seq<Seq<char>>>;

/// Relies on `serde_json::from_str::<Vec<String>>`: it decodes a JSON text
/// into the array of strings the text denotes, failing exactly when the text
/// does not have that shape; the result depends on the text alone. On failure
/// the `Display` rendering of `serde_json::Error` supplies the reason text,
/// of which nothing is claimed.
#[verifier::external_body]
pub fn parse_string_array(s: &str) -> (r: Result<Vec<String>, String>)
    ensures
        r is Ok <==> json_string_array(s@) is Some,
        r matches Ok(v) ==> Some(v.deep_view()) == json_string_array(s@),
{
    serde_json::from_str::<Vec<String>>(s).map_err(|e| e.to_string())
}

} // verus!
