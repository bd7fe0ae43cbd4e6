//! Classification of transport outcomes into the HTTP error taxonomy.
//!
//! The network adapter at the I/O edge performs the request and hands the
//! observable outcome over as plain values; the rules that decide which
//! error a failed request surfaces live here, where they are verified.

use vstd::prelude::*;

use crate::errors::{AppError, HttpError};

verus! {

/// The per-request timeout the transport runs with, in seconds; a timed-out
/// request reports this duration.
pub const DEFAULT_TIMEOUT_SECS: u64 = 30;

/// Classify a request that failed before yielding a status line. Timeouts
/// take precedence, then connection failures; anything else is reported as
/// a failed request with the status the transport saw, or 0 when it saw
/// none.
pub fn classify_send_failure(
    timed_out: bool,
    connect_failed: bool,
    status: Option<u16>,
    url: &str,
    detail: &str,
) -> (e: HttpError)
    ensures
        timed_out ==> (e matches HttpError::Timeout { url: u, duration_secs }
            && u@ == url@ && duration_secs == DEFAULT_TIMEOUT_SECS),
        !timed_out && connect_failed ==> (e matches HttpError::ConnectionFailed { url: u, reason }
            && u@ == url@ && reason@ == detail@),
        !timed_out && !connect_failed ==> (e matches HttpError::RequestFailed {
            status: s,
            url: u,
            body,
        } && s == (match status {
            Some(v) => v,
            None => 0u16,
        }) && u@ == url@ && body@ == detail@),
{
    if timed_out {
        HttpError::Timeout { url: url.to_owned(), duration_secs: DEFAULT_TIMEOUT_SECS }
    } else if connect_failed {
        HttpError::ConnectionFailed { url: url.to_owned(), reason: detail.to_owned() }
    } else {
        let s = match status {
            Some(v) => v,
            None => 0,
        };
        HttpError::RequestFailed { status: s, url: url.to_owned(), body: detail.to_owned() }
    }
}

/// Check the status line of a response that did arrive: a success status
/// (2xx) passes, anything else is a failed request carrying the status, the
/// requested URL, and the response body text.
pub fn check_response_status(status: u16, url: &str, body: String) -> (r: Result<(), AppError>)
    ensures
        r is Ok <==> 200 <= status < 300,
        r matches Err(e) ==> (e matches AppError::Http(HttpError::RequestFailed {
            status: s,
            url: u,
            body: b,
        }) && s == status && u@ == url@ && b == body),
{
    if 200 <= status && status < 300 {
        Ok(())
    } else {
        Err(
            AppError::Http(
                HttpError::RequestFailed { status, url: url.to_owned(), body },
            ),
        )
    }
}

/// The remote API's endpoint for one market group, addressed by slug.
pub fn gamma_event_url(slug: &str) -> (r: String)
    ensures
        r@ == "https://gamma-api.polymarket.com/events/slug/"@ + slug@,
{
    "https://gamma-api.polymarket.com/events/slug/".to_owned().concat(slug)
}

} // verus!
