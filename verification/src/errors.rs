//! Layered error taxonomy for the data pipeline.
//!
//! Each pipeline layer has a closed set of named error variants carrying
//! structured context (field name, expected vs. actual, source identifier),
//! composed into the one top-level [`AppError`] that callers pattern-match on.

use vstd::prelude::*;

verus! {

/// Top-level application error: a closed sum over the six layer kinds.
#[derive(Debug, Clone, PartialEq, Eq)]
pub enum AppError {
    /// HTTP/network transport layer errors.
    Http(HttpError),
    /// Data source/API layer errors.
    DataSource(DataSourceError),
    /// JSON parsing layer errors.
    Parse(ParseError),
    /// Data normalization layer errors.
    Normalization(NormalizationError),
    /// Analytical engine layer errors.
    Analysis(AnalysisError),
    /// Output/display layer errors.
    Output(OutputError),
}

/// Errors that occur during HTTP requests and network communication.
#[derive(Debug, Clone, PartialEq, Eq)]
pub enum HttpError {
    /// HTTP request failed with a non-success status code.
    RequestFailed { status: u16, url: String, body: String },
    /// Network connection error.
    ConnectionFailed { url: String, reason: String },
    /// Request timeout.
    Timeout { url: String, duration_secs: u64 },
    /// Invalid URL format.
    InvalidUrl { url: String, reason: String },
    /// Response body could not be read.
    ResponseReadError { url: String, reason: String },
}

/// Errors that occur when interacting with external data sources.
#[derive(Debug, Clone, PartialEq, Eq)]
pub enum DataSourceError {
    /// Market group not found.
    MarketGroupNotFound { slug: String },
    /// Market not found within a group.
    MarketNotFound { identifier: String, group_slug: String },
    /// API returned an invalid or unexpected data structure.
    InvalidApiResponse { endpoint: String, reason: String },
    /// API rate limit exceeded.
    RateLimitExceeded { retry_after_secs: Option<u64> },
    /// API authentication failed.
    AuthenticationFailed { reason: String },
    /// API is unavailable or down.
    ApiUnavailable { service_name: String, reason: String },
}

/// Errors that occur when parsing JSON or other data formats.
#[derive(Debug, Clone, PartialEq, Eq)]
pub enum ParseError {
    /// JSON deserialization failed.
    JsonDeserializationFailed {
        field_name: Option<String>,
        expected_type: String,
        json_snippet: String,
        reason: String,
    },
    /// A required field is missing.
    MissingField { field_name: String, parent_type: String },
    /// A field has an invalid format.
    InvalidFieldFormat { field_name: String, expected_format: String, actual_value: String },
    /// An array has an unexpected length.
    InvalidArrayLength { field_name: String, expected: usize, actual: usize },
    /// Numeric parsing error.
    InvalidNumber { field_name: String, value: String, reason: String },
}

/// Errors that occur when standardizing data from different sources.
#[derive(Debug, Clone, PartialEq, Eq)]
pub enum NormalizationError {
    /// Token ID extraction failed.
    TokenIdExtractionFailed { market_slug: String, reason: String },
    /// Outcome mapping failed.
    OutcomeMappingFailed { market_slug: String, outcomes: Vec<String>, reason: String },
    /// Price data is invalid or inconsistent.
    InvalidPriceData { market_slug: String, field_name: String, reason: String },
    /// Volume data is invalid or inconsistent.
    InvalidVolumeData { market_slug: String, field_name: String, reason: String },
    /// Data validation failed.
    ValidationFailed { entity_type: String, entity_id: String, reason: String },
    /// A required field is empty after normalization.
    EmptyRequiredField { field_name: String, entity_type: String },
}

/// Errors that occur in the analytical engine.
#[derive(Debug, Clone, PartialEq, Eq)]
pub enum AnalysisError {
    /// Insufficient data to perform the analysis.
    InsufficientData { analysis_type: String, reason: String },
    /// Calculation error.
    CalculationFailed { calculation_type: String, reason: String },
    /// Position data is invalid.
    InvalidPosition { position_id: String, reason: String },
    /// Statistical analysis failed.
    StatisticalError { metric_name: String, reason: String },
    /// Market data is stale or outdated.
    StaleData { market_slug: String, last_update: String },
}

/// Errors that occur when formatting or displaying output.
#[derive(Debug, Clone, PartialEq, Eq)]
pub enum OutputError {
    /// Failed to format data for display.
    FormattingFailed { data_type: String, reason: String },
    /// Failed to write output.
    WriteFailed { destination: String, reason: String },
}

impl From<HttpError> for AppError {
    fn from(error: HttpError) -> (r: Self) {
        AppError::Http(error)
    }
}

impl vstd::std_specs::convert::FromSpecImpl<HttpError> for AppError {
    open spec fn obeys_from_spec() -> bool {
        true
    }

    open spec fn from_spec(error: HttpError) -> Self {
        AppError::Http(error)
    }
}

impl From<DataSourceError> for AppError {
    fn from(error: DataSourceError) -> (r: Self) {
        AppError::DataSource(error)
    }
}

impl vstd::std_specs::convert::FromSpecImpl<DataSourceError> for AppError {
    open spec fn obeys_from_spec() -> bool {
        true
    }

    open spec fn from_spec(error: DataSourceError) -> Self {
        AppError::DataSource(error)
    }
}

impl From<ParseError> for AppError {
    fn from(error: ParseError) -> (r: Self) {
        AppError::Parse(error)
    }
}

impl vstd::std_specs::convert::FromSpecImpl<ParseError> for AppError {
    open spec fn obeys_from_spec() -> bool {
        true
    }

    open spec fn from_spec(error: ParseError) -> Self {
        AppError::Parse(error)
    }
}

impl From<NormalizationError> for AppError {
    fn from(error: NormalizationError) -> (r: Self) {
        AppError::Normalization(error)
    }
}

impl vstd::std_specs::convert::FromSpecImpl<NormalizationError> for AppError {
    open spec fn obeys_from_spec() -> bool {
        true
    }

    open spec fn from_spec(error: NormalizationError) -> Self {
        AppError::Normalization(error)
    }
}

impl From<AnalysisError> for AppError {
    fn from(error: AnalysisError) -> (r: Self) {
        AppError::Analysis(error)
    }
}

impl vstd::std_specs::convert::FromSpecImpl<AnalysisError> for AppError {
    open spec fn obeys_from_spec() -> bool {
        true
    }

    open spec fn from_spec(error: AnalysisError) -> Self {
        AppError::Analysis(error)
    }
}

impl From<OutputError> for AppError {
    fn from(error: OutputError) -> (r: Self) {
        AppError::Output(error)
    }
}

impl vstd::std_specs::convert::FromSpecImpl<OutputError> for AppError {
    open spec fn obeys_from_spec() -> bool {
        true
    }

    open spec fn from_spec(error: OutputError) -> Self {
        AppError::Output(error)
    }
}

} // verus!
