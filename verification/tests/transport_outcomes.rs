use polymarket_explorer::errors::{AppError, HttpError};
use polymarket_explorer::transport::{
    check_response_status, classify_send_failure, gamma_event_url, DEFAULT_TIMEOUT_SECS,
};

#[test]
fn timed_out_request_surfaces_timeout_with_url() {
    let e = classify_send_failure(true, false, None, "http://api.example/events", "whatever");
    match e {
        HttpError::Timeout { url, duration_secs } => {
            assert_eq!(url, "http://api.example/events");
            assert_eq!(duration_secs, DEFAULT_TIMEOUT_SECS);
        }
        other => panic!("unexpected error: {:?}", other),
    }
}

#[test]
fn connection_failure_surfaces_url_and_reason() {
    let e = classify_send_failure(false, true, None, "http://api.example", "refused");
    match e {
        HttpError::ConnectionFailed { url, reason } => {
            assert_eq!(url, "http://api.example");
            assert_eq!(reason, "refused");
        }
        other => panic!("unexpected error: {:?}", other),
    }
}

#[test]
fn other_send_failure_surfaces_status_or_zero() {
    let with_status = classify_send_failure(false, false, Some(500), "http://x", "boom");
    match with_status {
        HttpError::RequestFailed { status, .. } => assert_eq!(status, 500),
        other => panic!("unexpected error: {:?}", other),
    }
    let without_status = classify_send_failure(false, false, None, "http://x", "boom");
    match without_status {
        HttpError::RequestFailed { status, .. } => assert_eq!(status, 0),
        other => panic!("unexpected error: {:?}", other),
    }
}

#[test]
fn not_found_status_surfaces_request_failed_with_body() {
    let e = check_response_status(404, "http://api.example/events/slug/x", "no such market".to_string())
        .unwrap_err();
    match e {
        AppError::Http(HttpError::RequestFailed { status, url, body }) => {
            assert_eq!(status, 404);
            assert_eq!(url, "http://api.example/events/slug/x");
            assert_eq!(body, "no such market");
        }
        other => panic!("unexpected error: {:?}", other),
    }
}

#[test]
fn success_statuses_pass() {
    assert!(check_response_status(200, "http://x", String::new()).is_ok());
    assert!(check_response_status(299, "http://x", String::new()).is_ok());
    assert!(check_response_status(199, "http://x", String::new()).is_err());
    assert!(check_response_status(300, "http://x", String::new()).is_err());
}

#[test]
fn gamma_url_addresses_the_slug() {
    assert_eq!(
        gamma_event_url("will-it-happen"),
        "https://gamma-api.polymarket.com/events/slug/will-it-happen"
    );
}
