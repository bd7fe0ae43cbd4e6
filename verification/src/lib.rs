//! Prediction-market data normalization: standardized entities (Market,
//! Trader, Position, Transaction), standardizers that validate raw source
//! payloads into those entities, and a layered error taxonomy.

pub mod cli;
pub mod errors;
pub mod json;
pub mod messages;
pub mod models;
pub mod polymarket;
pub mod queries;
pub mod render;
pub mod tables;
pub mod transport;

use vstd::prelude::*;

verus! {

/// Truncate a string for display in error messages: strings of at most
/// `max_len` characters pass through unchanged, longer ones keep their first
/// `max_len` characters followed by a truncation marker.
pub fn truncate_for_display(s: &str, max_len: usize) -> (r: String)
    ensures
        s@.len() <= max_len ==> r@ == s@,
        s@.len() > max_len ==> r@ == s@.subrange(0, max_len as int) + "... (truncated)"@,
{
    let n = s.unicode_len();
    if n <= max_len {
        s.to_owned()
    } else {
        let head = s.substring_char(0, max_len);
        let out = head.to_owned();
        out.concat("... (truncated)")
    }
}

/// Extract a snippet of raw JSON fit for quoting inside an error message:
/// the text is truncated to `max_len` characters, then each of its lines is
/// trimmed of outer whitespace and the lines are joined with single spaces.
pub fn json_error_snippet(json: &str, max_len: usize) -> (r: String)
    ensures
        json@.len() <= max_len ==> r@ == crate::render::snippet_spec(json@),
        json@.len() > max_len ==> r@ == crate::render::snippet_spec(
            json@.subrange(0, max_len as int) + "... (truncated)"@,
        ),
{
    let snippet = truncate_for_display(json, max_len);
    crate::render::normalize_snippet(snippet.as_str())
}

} // verus!
