//! Human-readable rendering of the error taxonomy.
//!
//! Every error value renders to one message that names the offending field,
//! market, or endpoint; the exact text of each variant is pinned down by a
//! spec function beside the rendering code. The top-level error additionally
//! offers a layer-appropriate hint for the command-line surface.

use vstd::prelude::*;

use crate::errors::{
    AnalysisError, AppError, DataSourceError, HttpError, NormalizationError, OutputError,
    ParseError,
};
use crate::render::{dec_spec, u64_to_string};

verus! {

/// One string-array item wrapped in double quotes.
pub open spec fn quoted_spec(x: Seq<char>) -> Seq<char> {
    "\""@ + x + "\""@
}

/// The items of a string array, each double-quoted, joined with commas.
pub open spec fn quoted_items_spec(items: Seq<Seq<char>>) -> Seq<char>
    decreases items.len(),
{
    if items.len() == 0 {
        Seq::empty()
    } else if items.len() == 1 {
        quoted_spec(items[0])
    } else {
        quoted_spec(items[0]) + ", "@ + quoted_items_spec(items.drop_first())
    }
}

fn quoted_items_from(items: &Vec<String>, i: usize) -> (r: String)
    requires
        i <= items@.len(),
    ensures
        r@ == quoted_items_spec(items.deep_view().subrange(i as int, items@.len() as int)),
    decreases items@.len() - i,
{
    if i == items.len() {
        String::new()
    } else if i + 1 == items.len() {
        let r = "\"".to_owned().concat(items[i].as_str()).concat("\"");
        proof {
            assert(items.deep_view().subrange(i as int, items@.len() as int) =~= seq![
                items.deep_view()[i as int],
            ]);
            assert(r@ =~= quoted_spec(items.deep_view()[i as int]));
        }
        r
    } else {
        let rest = quoted_items_from(items, i + 1);
        let r = "\"".to_owned().concat(items[i].as_str()).concat("\"").concat(", ").concat(
            rest.as_str(),
        );
        proof {
            let tail = items.deep_view().subrange(i as int, items@.len() as int);
            assert(tail.drop_first() =~= items.deep_view().subrange(
                i + 1,
                items@.len() as int,
            ));
            assert(tail[0] == items.deep_view()[i as int]);
            assert(r@ =~= quoted_items_spec(tail));
        }
        r
    }
}

/// A whole string array rendered in brackets, items double-quoted.
pub open spec fn quoted_list_spec(items: Seq<Seq<char>>) -> Seq<char> {
    "["@ + quoted_items_spec(items) + "]"@
}

fn quoted_list(items: &Vec<String>) -> (r: String)
    ensures
        r@ == quoted_list_spec(items.deep_view()),
{
    let inner = quoted_items_from(items, 0);
    let r = "[".to_owned().concat(inner.as_str()).concat("]");
    proof {
        assert(items.deep_view().subrange(0, items@.len() as int) =~= items.deep_view());
        assert(r@ =~= quoted_list_spec(items.deep_view()));
    }
    r
}

impl HttpError {
    /// The exact message this error renders to.
    pub open spec fn message_spec(self) -> Seq<char> {
        match self {
            HttpError::RequestFailed { status, url, body } => "HTTP request failed with status "@
                + dec_spec(status as nat) + ": "@ + url@ + "\nResponse: "@ + body@,
            HttpError::ConnectionFailed { url, reason } => "Failed to connect to "@ + url@ + ": "@
                + reason@,
            HttpError::Timeout { url, duration_secs } => "Request to "@ + url@
                + " timed out after "@ + dec_spec(duration_secs as nat) + " seconds"@,
            HttpError::InvalidUrl { url, reason } => "Invalid URL '"@ + url@ + "': "@ + reason@,
            HttpError::ResponseReadError { url, reason } => "Failed to read response from "@ + url@
                + ": "@ + reason@,
        }
    }

    /// Render the message.
    pub fn message(&self) -> (r: String)
        ensures
            r@ == self.message_spec(),
    {
        match self {
            HttpError::RequestFailed { status, url, body } => "HTTP request failed with status "
                .to_owned()
                .concat(u64_to_string(*status as u64).as_str())
                .concat(": ")
                .concat(url.as_str())
                .concat("\nResponse: ")
                .concat(body.as_str()),
            HttpError::ConnectionFailed { url, reason } => "Failed to connect to ".to_owned()
                .concat(url.as_str())
                .concat(": ")
                .concat(reason.as_str()),
            HttpError::Timeout { url, duration_secs } => "Request to ".to_owned()
                .concat(url.as_str())
                .concat(" timed out after ")
                .concat(u64_to_string(*duration_secs).as_str())
                .concat(" seconds"),
            HttpError::InvalidUrl { url, reason } => "Invalid URL '".to_owned()
                .concat(url.as_str())
                .concat("': ")
                .concat(reason.as_str()),
            HttpError::ResponseReadError { url, reason } => "Failed to read response from "
                .to_owned()
                .concat(url.as_str())
                .concat(": ")
                .concat(reason.as_str()),
        }
    }
}

impl DataSourceError {
    /// The exact message this error renders to.
    pub open spec fn message_spec(self) -> Seq<char> {
        match self {
            DataSourceError::MarketGroupNotFound { slug } => "Market group '"@ + slug@
                + "' not found"@,
            DataSourceError::MarketNotFound { identifier, group_slug } => "Market '"@ + identifier@
                + "' not found in group '"@ + group_slug@ + "'"@,
            DataSourceError::InvalidApiResponse { endpoint, reason } => "API endpoint '"@
                + endpoint@ + "' returned invalid response: "@ + reason@,
            DataSourceError::RateLimitExceeded { retry_after_secs } => match retry_after_secs {
                Some(secs) => "API rate limit exceeded. Retry after "@ + dec_spec(secs as nat)
                    + " seconds"@,
                None => "API rate limit exceeded"@,
            },
            DataSourceError::AuthenticationFailed { reason } => "API authentication failed: "@
                + reason@,
            DataSourceError::ApiUnavailable { service_name, reason } => service_name@
                + " API is unavailable: "@ + reason@,
        }
    }

    /// Render the message.
    pub fn message(&self) -> (r: String)
        ensures
            r@ == self.message_spec(),
    {
        match self {
            DataSourceError::MarketGroupNotFound { slug } => "Market group '".to_owned()
                .concat(slug.as_str())
                .concat("' not found"),
            DataSourceError::MarketNotFound { identifier, group_slug } => "Market '".to_owned()
                .concat(identifier.as_str())
                .concat("' not found in group '")
                .concat(group_slug.as_str())
                .concat("'"),
            DataSourceError::InvalidApiResponse { endpoint, reason } => "API endpoint '".to_owned()
                .concat(endpoint.as_str())
                .concat("' returned invalid response: ")
                .concat(reason.as_str()),
            DataSourceError::RateLimitExceeded { retry_after_secs } => match retry_after_secs {
                Some(secs) => "API rate limit exceeded. Retry after ".to_owned()
                    .concat(u64_to_string(*secs).as_str())
                    .concat(" seconds"),
                None => "API rate limit exceeded".to_owned(),
            },
            DataSourceError::AuthenticationFailed { reason } => "API authentication failed: "
                .to_owned()
                .concat(reason.as_str()),
            DataSourceError::ApiUnavailable { service_name, reason } => service_name.clone()
                .concat(" API is unavailable: ")
                .concat(reason.as_str()),
        }
    }
}

impl ParseError {
    /// The exact message this error renders to.
    pub open spec fn message_spec(self) -> Seq<char> {
        match self {
            ParseError::JsonDeserializationFailed {
                field_name,
                expected_type,
                json_snippet,
                reason,
            } => "Failed to deserialize JSON"@ + (match field_name {
                Some(f) => " for field '"@ + f@ + "'"@,
                None => Seq::empty(),
            }) + ": Expected type '"@ + expected_type@ + "'\nReason: "@ + reason@ + "\nJSON: "@
                + json_snippet@,
            ParseError::MissingField { field_name, parent_type } => "Required field '"@
                + field_name@ + "' is missing from "@ + parent_type@,
            ParseError::InvalidFieldFormat { field_name, expected_format, actual_value } => "Field '"@
                + field_name@ + "' has invalid format. Expected: "@ + expected_format@ + ", Got: "@
                + actual_value@,
            ParseError::InvalidArrayLength { field_name, expected, actual } => "Array '"@
                + field_name@ + "' has invalid length. Expected: "@ + dec_spec(expected as nat)
                + ", Got: "@ + dec_spec(actual as nat),
            ParseError::InvalidNumber { field_name, value, reason } => "Field '"@ + field_name@
                + "' has invalid number '"@ + value@ + "': "@ + reason@,
        }
    }

    /// Render the message.
    pub fn message(&self) -> (r: String)
        ensures
            r@ == self.message_spec(),
    {
        match self {
            ParseError::JsonDeserializationFailed {
                field_name,
                expected_type,
                json_snippet,
                reason,
            } => {
                let field_part = match field_name {
                    Some(f) => " for field '".to_owned().concat(f.as_str()).concat("'"),
                    None => String::new(),
                };
                "Failed to deserialize JSON".to_owned()
                    .concat(field_part.as_str())
                    .concat(": Expected type '")
                    .concat(expected_type.as_str())
                    .concat("'\nReason: ")
                    .concat(reason.as_str())
                    .concat("\nJSON: ")
                    .concat(json_snippet.as_str())
            },
            ParseError::MissingField { field_name, parent_type } => "Required field '".to_owned()
                .concat(field_name.as_str())
                .concat("' is missing from ")
                .concat(parent_type.as_str()),
            ParseError::InvalidFieldFormat { field_name, expected_format, actual_value } => "Field '"
                .to_owned()
                .concat(field_name.as_str())
                .concat("' has invalid format. Expected: ")
                .concat(expected_format.as_str())
                .concat(", Got: ")
                .concat(actual_value.as_str()),
            ParseError::InvalidArrayLength { field_name, expected, actual } => "Array '".to_owned()
                .concat(field_name.as_str())
                .concat("' has invalid length. Expected: ")
                .concat(u64_to_string(*expected as u64).as_str())
                .concat(", Got: ")
                .concat(u64_to_string(*actual as u64).as_str()),
            ParseError::InvalidNumber { field_name, value, reason } => "Field '".to_owned()
                .concat(field_name.as_str())
                .concat("' has invalid number '")
                .concat(value.as_str())
                .concat("': ")
                .concat(reason.as_str()),
        }
    }
}

impl NormalizationError {
    /// The exact message this error renders to.
    pub open spec fn message_spec(self) -> Seq<char> {
        match self {
            NormalizationError::TokenIdExtractionFailed { market_slug, reason } => "Failed to extract token IDs for market '"@
                + market_slug@ + "': "@ + reason@,
            NormalizationError::OutcomeMappingFailed { market_slug, outcomes, reason } => "Failed to map outcomes for market '"@
                + market_slug@ + "' (outcomes: "@ + quoted_list_spec(outcomes.deep_view())
                + "): "@ + reason@,
            NormalizationError::InvalidPriceData { market_slug, field_name, reason } => "Invalid price data in market '"@
                + market_slug@ + "' for field '"@ + field_name@ + "': "@ + reason@,
            NormalizationError::InvalidVolumeData { market_slug, field_name, reason } => "Invalid volume data in market '"@
                + market_slug@ + "' for field '"@ + field_name@ + "': "@ + reason@,
            NormalizationError::ValidationFailed { entity_type, entity_id, reason } => "Validation failed for "@
                + entity_type@ + " '"@ + entity_id@ + "': "@ + reason@,
            NormalizationError::EmptyRequiredField { field_name, entity_type } => "Required field '"@
                + field_name@ + "' is empty in "@ + entity_type@,
        }
    }

    /// Render the message.
    pub fn message(&self) -> (r: String)
        ensures
            r@ == self.message_spec(),
    {
        match self {
            NormalizationError::TokenIdExtractionFailed { market_slug, reason } => "Failed to extract token IDs for market '"
                .to_owned()
                .concat(market_slug.as_str())
                .concat("': ")
                .concat(reason.as_str()),
            NormalizationError::OutcomeMappingFailed { market_slug, outcomes, reason } => "Failed to map outcomes for market '"
                .to_owned()
                .concat(market_slug.as_str())
                .concat("' (outcomes: ")
                .concat(quoted_list(outcomes).as_str())
                .concat("): ")
                .concat(reason.as_str()),
            NormalizationError::InvalidPriceData { market_slug, field_name, reason } => "Invalid price data in market '"
                .to_owned()
                .concat(market_slug.as_str())
                .concat("' for field '")
                .concat(field_name.as_str())
                .concat("': ")
                .concat(reason.as_str()),
            NormalizationError::InvalidVolumeData { market_slug, field_name, reason } => "Invalid volume data in market '"
                .to_owned()
                .concat(market_slug.as_str())
                .concat("' for field '")
                .concat(field_name.as_str())
                .concat("': ")
                .concat(reason.as_str()),
            NormalizationError::ValidationFailed { entity_type, entity_id, reason } => "Validation failed for "
                .to_owned()
                .concat(entity_type.as_str())
                .concat(" '")
                .concat(entity_id.as_str())
                .concat("': ")
                .concat(reason.as_str()),
            NormalizationError::EmptyRequiredField { field_name, entity_type } => "Required field '"
                .to_owned()
                .concat(field_name.as_str())
                .concat("' is empty in ")
                .concat(entity_type.as_str()),
        }
    }
}

impl AnalysisError {
    /// The exact message this error renders to.
    pub open spec fn message_spec(self) -> Seq<char> {
        match self {
            AnalysisError::InsufficientData { analysis_type, reason } => "Insufficient data for "@
                + analysis_type@ + " analysis: "@ + reason@,
            AnalysisError::CalculationFailed { calculation_type, reason } => calculation_type@
                + " calculation failed: "@ + reason@,
            AnalysisError::InvalidPosition { position_id, reason } => "Invalid position '"@
                + position_id@ + "': "@ + reason@,
            AnalysisError::StatisticalError { metric_name, reason } => "Statistical error for metric '"@
                + metric_name@ + "': "@ + reason@,
            AnalysisError::StaleData { market_slug, last_update } => "Market '"@ + market_slug@
                + "' data is stale (last update: "@ + last_update@ + ")"@,
        }
    }

    /// Render the message.
    pub fn message(&self) -> (r: String)
        ensures
            r@ == self.message_spec(),
    {
        match self {
            AnalysisError::InsufficientData { analysis_type, reason } => "Insufficient data for "
                .to_owned()
                .concat(analysis_type.as_str())
                .concat(" analysis: ")
                .concat(reason.as_str()),
            AnalysisError::CalculationFailed { calculation_type, reason } => calculation_type
                .clone()
                .concat(" calculation failed: ")
                .concat(reason.as_str()),
            AnalysisError::InvalidPosition { position_id, reason } => "Invalid position '"
                .to_owned()
                .concat(position_id.as_str())
                .concat("': ")
                .concat(reason.as_str()),
            AnalysisError::StatisticalError { metric_name, reason } => "Statistical error for metric '"
                .to_owned()
                .concat(metric_name.as_str())
                .concat("': ")
                .concat(reason.as_str()),
            AnalysisError::StaleData { market_slug, last_update } => "Market '".to_owned()
                .concat(market_slug.as_str())
                .concat("' data is stale (last update: ")
                .concat(last_update.as_str())
                .concat(")"),
        }
    }
}

impl OutputError {
    /// The exact message this error renders to.
    pub open spec fn message_spec(self) -> Seq<char> {
        match self {
            OutputError::FormattingFailed { data_type, reason } => "Failed to format "@
                + data_type@ + " for output: "@ + reason@,
            OutputError::WriteFailed { destination, reason } => "Failed to write output to "@
                + destination@ + ": "@ + reason@,
        }
    }

    /// Render the message.
    pub fn message(&self) -> (r: String)
        ensures
            r@ == self.message_spec(),
    {
        match self {
            OutputError::FormattingFailed { data_type, reason } => "Failed to format ".to_owned()
                .concat(data_type.as_str())
                .concat(" for output: ")
                .concat(reason.as_str()),
            OutputError::WriteFailed { destination, reason } => "Failed to write output to "
                .to_owned()
                .concat(destination.as_str())
                .concat(": ")
                .concat(reason.as_str()),
        }
    }
}

impl AppError {
    /// The exact message this error renders to: the layer's name, then the
    /// inner error's own message.
    pub open spec fn message_spec(self) -> Seq<char> {
        match self {
            AppError::Http(e) => "HTTP Error: "@ + e.message_spec(),
            AppError::DataSource(e) => "Data Source Error: "@ + e.message_spec(),
            AppError::Parse(e) => "Parse Error: "@ + e.message_spec(),
            AppError::Normalization(e) => "Normalization Error: "@ + e.message_spec(),
            AppError::Analysis(e) => "Analysis Error: "@ + e.message_spec(),
            AppError::Output(e) => "Output Error: "@ + e.message_spec(),
        }
    }

    /// Render the message.
    pub fn message(&self) -> (r: String)
        ensures
            r@ == self.message_spec(),
    {
        match self {
            AppError::Http(e) => "HTTP Error: ".to_owned().concat(e.message().as_str()),
            AppError::DataSource(e) => "Data Source Error: ".to_owned().concat(
                e.message().as_str(),
            ),
            AppError::Parse(e) => "Parse Error: ".to_owned().concat(e.message().as_str()),
            AppError::Normalization(e) => "Normalization Error: ".to_owned().concat(
                e.message().as_str(),
            ),
            AppError::Analysis(e) => "Analysis Error: ".to_owned().concat(e.message().as_str()),
            AppError::Output(e) => "Output Error: ".to_owned().concat(e.message().as_str()),
        }
    }

    /// The layer-appropriate hint the command-line surface prints beside the
    /// message.
    pub open spec fn user_hint_spec(self) -> Seq<char> {
        match self {
            AppError::Http(_) => "Check your internet connection and verify the URL is correct."@,
            AppError::DataSource(_) => "Verify the market slug exists on Polymarket."@,
            AppError::Parse(_) => "The API response format may have changed. Please report this issue."@,
            AppError::Normalization(_) => "The API response format may have changed. Please report this issue."@,
            AppError::Analysis(_) => "Check that the market has sufficient data for analysis."@,
            AppError::Output(_) => "Check console output permissions."@,
        }
    }

    /// Choose the hint for this error's layer.
    pub fn user_hint(&self) -> (r: String)
        ensures
            r@ == self.user_hint_spec(),
    {
        match self {
            AppError::Http(_) => "Check your internet connection and verify the URL is correct."
                .to_owned(),
            AppError::DataSource(_) => "Verify the market slug exists on Polymarket.".to_owned(),
            AppError::Parse(_) => "The API response format may have changed. Please report this issue."
                .to_owned(),
            AppError::Normalization(_) => "The API response format may have changed. Please report this issue."
                .to_owned(),
            AppError::Analysis(_) => "Check that the market has sufficient data for analysis."
                .to_owned(),
            AppError::Output(_) => "Check console output permissions.".to_owned(),
        }
    }
}

} // verus!
