use polymarket_explorer::errors::{
    AnalysisError, AppError, DataSourceError, HttpError, NormalizationError, OutputError,
    ParseError,
};
use polymarket_explorer::{json_error_snippet, truncate_for_display};

#[test]
fn layer_errors_convert_into_the_top_level_sum() {
    let e: AppError = HttpError::Timeout { url: "http://x".to_string(), duration_secs: 30 }.into();
    assert!(matches!(e, AppError::Http(_)));
    let e: AppError = DataSourceError::MarketGroupNotFound { slug: "s".to_string() }.into();
    assert!(matches!(e, AppError::DataSource(_)));
    let e: AppError = ParseError::MissingField {
        field_name: "f".to_string(),
        parent_type: "p".to_string(),
    }
    .into();
    assert!(matches!(e, AppError::Parse(_)));
    let e: AppError = NormalizationError::EmptyRequiredField {
        field_name: "f".to_string(),
        entity_type: "t".to_string(),
    }
    .into();
    assert!(matches!(e, AppError::Normalization(_)));
    let e: AppError = AnalysisError::InsufficientData {
        analysis_type: "a".to_string(),
        reason: "r".to_string(),
    }
    .into();
    assert!(matches!(e, AppError::Analysis(_)));
    let e: AppError = OutputError::WriteFailed {
        destination: "d".to_string(),
        reason: "r".to_string(),
    }
    .into();
    assert!(matches!(e, AppError::Output(_)));
}

#[test]
fn request_failed_message_carries_status_url_and_body() {
    let e = HttpError::RequestFailed {
        status: 404,
        url: "http://api.example/events".to_string(),
        body: "not found".to_string(),
    };
    assert_eq!(
        e.message(),
        "HTTP request failed with status 404: http://api.example/events\nResponse: not found"
    );
}

#[test]
fn timeout_message_carries_url_and_duration() {
    let e = HttpError::Timeout { url: "http://api.example".to_string(), duration_secs: 30 };
    assert_eq!(
        e.message(),
        "Request to http://api.example timed out after 30 seconds"
    );
}

#[test]
fn top_level_message_prefixes_the_layer_name() {
    let e = AppError::Http(HttpError::ConnectionFailed {
        url: "http://x".to_string(),
        reason: "refused".to_string(),
    });
    assert_eq!(e.message(), "HTTP Error: Failed to connect to http://x: refused");
}

#[test]
fn rate_limit_message_with_and_without_retry() {
    let with = DataSourceError::RateLimitExceeded { retry_after_secs: Some(12) };
    assert_eq!(with.message(), "API rate limit exceeded. Retry after 12 seconds");
    let without = DataSourceError::RateLimitExceeded { retry_after_secs: None };
    assert_eq!(without.message(), "API rate limit exceeded");
}

#[test]
fn array_length_message_renders_both_counts() {
    let e = ParseError::InvalidArrayLength {
        field_name: "outcomes".to_string(),
        expected: 2,
        actual: 17,
    };
    assert_eq!(
        e.message(),
        "Array 'outcomes' has invalid length. Expected: 2, Got: 17"
    );
}

#[test]
fn json_failure_message_with_and_without_field() {
    let with = ParseError::JsonDeserializationFailed {
        field_name: Some("outcomes".to_string()),
        expected_type: "Vec<String>".to_string(),
        json_snippet: "[1]".to_string(),
        reason: "boom".to_string(),
    };
    assert_eq!(
        with.message(),
        "Failed to deserialize JSON for field 'outcomes': Expected type 'Vec<String>'\nReason: boom\nJSON: [1]"
    );
    let without = ParseError::JsonDeserializationFailed {
        field_name: None,
        expected_type: "JSON".to_string(),
        json_snippet: "{".to_string(),
        reason: "eof".to_string(),
    };
    assert_eq!(
        without.message(),
        "Failed to deserialize JSON: Expected type 'JSON'\nReason: eof\nJSON: {"
    );
}

#[test]
fn outcome_mapping_message_quotes_the_outcomes() {
    let e = NormalizationError::OutcomeMappingFailed {
        market_slug: "slug".to_string(),
        outcomes: vec!["Yes".to_string(), "No".to_string(), "Maybe".to_string()],
        reason: "too many".to_string(),
    };
    assert_eq!(
        e.message(),
        "Failed to map outcomes for market 'slug' (outcomes: [\"Yes\", \"No\", \"Maybe\"]): too many"
    );
}

#[test]
fn analysis_and_output_messages_render() {
    let e = AnalysisError::StaleData {
        market_slug: "slug".to_string(),
        last_update: "yesterday".to_string(),
    };
    assert_eq!(e.message(), "Market 'slug' data is stale (last update: yesterday)");
    let e = OutputError::FormattingFailed {
        data_type: "Market".to_string(),
        reason: "width".to_string(),
    };
    assert_eq!(e.message(), "Failed to format Market for output: width");
}

#[test]
fn hints_follow_the_error_layer() {
    let http = AppError::Http(HttpError::Timeout { url: "u".to_string(), duration_secs: 1 });
    assert_eq!(
        http.user_hint(),
        "Check your internet connection and verify the URL is correct."
    );
    let parse = AppError::Parse(ParseError::MissingField {
        field_name: "f".to_string(),
        parent_type: "p".to_string(),
    });
    let norm = AppError::Normalization(NormalizationError::EmptyRequiredField {
        field_name: "f".to_string(),
        entity_type: "t".to_string(),
    });
    assert_eq!(parse.user_hint(), norm.user_hint());
    let ds = AppError::DataSource(DataSourceError::MarketGroupNotFound { slug: "s".to_string() });
    assert_eq!(ds.user_hint(), "Verify the market slug exists on Polymarket.");
}

#[test]
fn truncate_keeps_short_strings_verbatim() {
    assert_eq!(truncate_for_display("hello", 10), "hello");
    assert_eq!(truncate_for_display("hello", 5), "hello");
}

#[test]
fn truncate_cuts_long_strings_and_marks_them() {
    assert_eq!(truncate_for_display("abcdefghijk", 5), "abcde... (truncated)");
}

#[test]
fn snippet_collapses_lines_and_trims_whitespace() {
    assert_eq!(json_error_snippet("{\n  \"a\": 1\n}", 500), "{ \"a\": 1 }");
}

#[test]
fn snippet_truncates_before_collapsing() {
    let long = format!("{{\n  \"key\": \"{}\"\n}}", "x".repeat(600));
    let s = json_error_snippet(&long, 20);
    assert!(s.contains("... (truncated)"));
    assert!(s.len() < 60);
}
