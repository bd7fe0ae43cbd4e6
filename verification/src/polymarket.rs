//! Standardization of the remote API's raw market payloads into the shared
//! entity model.
//!
//! The raw payload carries three string-encoded JSON arrays (outcome labels,
//! outcome prices, token ids). Standardization decodes them, validates the
//! value-level invariants of [`Market`], and assembles the entity,
//! propagating the first validation failure encountered: no partial or
//! best-effort construction.

use vstd::prelude::*;

use crate::errors::{AppError, NormalizationError, ParseError};
use crate::json::{json_string_array, parse_string_array};
use crate::models::{Market, MarketGroup};
use crate::render::{dec_spec, u64_to_string};

verus! {

/// Raw market-group payload, exactly as the remote API returns it, with
/// amounts already carried in the library's fixed-point form.
#[derive(Debug, Clone, PartialEq, Eq)]
pub struct GammaMarketGroupResponse {
    pub slug: String,
    pub title: String,
    pub active: bool,
    pub closed: bool,
    pub volume: i64,
    pub liquidity: i64,
    pub markets: Vec<GammaMarketResponse>,
}

/// Raw payload for one market. The `outcomes`, `outcome_prices` and
/// `clob_token_ids` fields are string-encoded JSON arrays of strings.
#[derive(Debug, Clone, PartialEq, Eq)]
pub struct GammaMarketResponse {
    pub question: String,
    pub condition_id: String,
    pub slug: String,
    pub outcomes: String,
    pub outcome_prices: String,
    pub clob_token_ids: String,
    pub active: bool,
    pub closed: bool,
    pub volume_num: i64,
    pub volume_24hr: i64,
    pub volume_1wk: i64,
    pub volume_1mo: i64,
    pub volume_1yr: i64,
    pub liquidity_num: i64,
    pub competitive: i64,
    pub last_trade_price: i64,
    pub best_bid: i64,
    pub best_ask: i64,
}

impl GammaMarketResponse {
    /// The decoded outcome-label array, when `outcomes` decodes at all.
    pub open spec fn outcomes_arr(self) -> Option<Seq<Seq<char>>> {
        json_string_array(self.outcomes@)
    }

    /// The decoded outcome-price array, when `outcome_prices` decodes at all.
    pub open spec fn prices_arr(self) -> Option<Seq<Seq<char>>> {
        json_string_array(self.outcome_prices@)
    }

    /// The decoded token-id array, when `clob_token_ids` decodes at all.
    pub open spec fn tokens_arr(self) -> Option<Seq<Seq<char>>> {
        json_string_array(self.clob_token_ids@)
    }

    /// Whether this payload standardizes: the three embedded arrays decode,
    /// there are at least two token ids and the first two are non-empty,
    /// there are exactly two outcomes and two prices, the amounts are
    /// non-negative, and the required text fields are non-empty.
    pub open spec fn standardizes(self) -> bool {
        &&& self.outcomes_arr() is Some
        &&& self.prices_arr() is Some
        &&& self.tokens_arr() is Some
        &&& self.tokens_arr().unwrap().len() >= 2
        &&& self.tokens_arr().unwrap()[0].len() > 0
        &&& self.tokens_arr().unwrap()[1].len() > 0
        &&& self.outcomes_arr().unwrap().len() == 2
        &&& self.prices_arr().unwrap().len() == 2
        &&& self.volume_num >= 0
        &&& self.liquidity_num >= 0
        &&& self.question@.len() > 0
        &&& self.condition_id@.len() > 0
    }

    /// Field-for-field relation between this payload and its standardized
    /// market: every scalar is copied verbatim, the outcome and price arrays
    /// are the decoded forms of the embedded JSON, and the YES/NO token ids
    /// are the first two entries of the decoded token-id array, in that
    /// positional order.
    pub open spec fn market_matches(self, m: Market) -> bool {
        &&& m.question == self.question
        &&& m.condition_id == self.condition_id
        &&& m.slug == self.slug
        &&& Some(m.outcomes.deep_view()) == self.outcomes_arr()
        &&& Some(m.outcome_prices.deep_view()) == self.prices_arr()
        &&& m.yes_token_id@ == self.tokens_arr().unwrap()[0]
        &&& m.no_token_id@ == self.tokens_arr().unwrap()[1]
        &&& m.active == self.active
        &&& m.closed == self.closed
        &&& m.volume == self.volume_num
        &&& m.volume_24h == self.volume_24hr
        &&& m.volume_1w == self.volume_1wk
        &&& m.volume_1m == self.volume_1mo
        &&& m.volume_1y == self.volume_1yr
        &&& m.liquidity == self.liquidity_num
        &&& m.competitive == self.competitive
        &&& m.last_trade_price == self.last_trade_price
        &&& m.bid_price == self.best_bid
        &&& m.ask_price == self.best_ask
    }

    /// The exact error a failing payload produces, following the fail-fast
    /// validation order: JSON decoding of the three embedded arrays, then
    /// token-id count and emptiness, outcome count, price count, negative
    /// amounts, and finally the required text fields.
    pub open spec fn market_error_matches(self, e: AppError) -> bool {
        if self.outcomes_arr() is None {
            is_json_field_err(e, "outcomes"@, self.outcomes)
        } else if self.prices_arr() is None {
            is_json_field_err(e, "outcome_prices"@, self.outcome_prices)
        } else if self.tokens_arr() is None {
            is_json_field_err(e, "clob_token_ids"@, self.clob_token_ids)
        } else {
            let outs = self.outcomes_arr().unwrap();
            let prices = self.prices_arr().unwrap();
            let toks = self.tokens_arr().unwrap();
            if toks.len() < 2 {
                is_token_id_err(
                    e,
                    self.slug,
                    "Expected at least 2 token IDs (YES, NO), found "@ + dec_spec(toks.len()),
                )
            } else if toks[0].len() == 0 || toks[1].len() == 0 {
                is_token_id_err(e, self.slug, "Token IDs cannot be empty"@)
            } else if outs.len() != 2 {
                is_outcome_err(
                    e,
                    self.slug,
                    outs,
                    "Expected 2 outcomes (YES, NO), found "@ + dec_spec(outs.len()),
                )
            } else if prices.len() != 2 {
                is_price_err(e, self.slug, "Expected 2 prices, found "@ + dec_spec(prices.len()))
            } else if self.volume_num < 0 || self.liquidity_num < 0 {
                is_volume_err(e, self.slug)
            } else if self.question@.len() == 0 {
                is_empty_field_err(e, "question"@)
            } else if self.condition_id@.len() == 0 {
                is_empty_field_err(e, "condition_id"@)
            } else {
                false
            }
        }
    }
}

/// A JSON-decoding failure for one embedded array field, quoting the raw
/// text; nothing is claimed of the reason text.
pub open spec fn is_json_field_err(e: AppError, field: Seq<char>, raw_text: String) -> bool {
    match e {
        AppError::Parse(
            ParseError::JsonDeserializationFailed {
                field_name,
                expected_type,
                json_snippet,
                reason,
            },
        ) => {
            &&& match field_name {
                Some(f) => f@ == field,
                None => false,
            }
            &&& expected_type@ == "Vec<String>"@
            &&& json_snippet == raw_text
        },
        _ => false,
    }
}

/// A token-id extraction failure naming the market's slug.
pub open spec fn is_token_id_err(e: AppError, slug: String, reason: Seq<char>) -> bool {
    match e {
        AppError::Normalization(
            NormalizationError::TokenIdExtractionFailed { market_slug, reason: r },
        ) => market_slug == slug && r@ == reason,
        _ => false,
    }
}

/// An outcome-mapping failure naming the market's slug and carrying the
/// decoded outcome labels.
pub open spec fn is_outcome_err(
    e: AppError,
    slug: String,
    outs: Seq<Seq<char>>,
    reason: Seq<char>,
) -> bool {
    match e {
        AppError::Normalization(
            NormalizationError::OutcomeMappingFailed { market_slug, outcomes, reason: r },
        ) => market_slug == slug && outcomes.deep_view() == outs && r@ == reason,
        _ => false,
    }
}

/// A price-data failure naming the market's slug and the price field.
pub open spec fn is_price_err(e: AppError, slug: String, reason: Seq<char>) -> bool {
    match e {
        AppError::Normalization(
            NormalizationError::InvalidPriceData { market_slug, field_name, reason: r },
        ) => market_slug == slug && field_name@ == "outcome_prices"@ && r@ == reason,
        _ => false,
    }
}

/// A negative-amount failure naming the market's slug.
pub open spec fn is_volume_err(e: AppError, slug: String) -> bool {
    match e {
        AppError::Normalization(
            NormalizationError::InvalidVolumeData { market_slug, field_name, reason },
        ) => {
            &&& market_slug == slug
            &&& field_name@ == "volume or liquidity"@
            &&& reason@ == "Values cannot be negative"@
        },
        _ => false,
    }
}

/// An empty-required-field failure naming the field.
pub open spec fn is_empty_field_err(e: AppError, field: Seq<char>) -> bool {
    match e {
        AppError::Normalization(NormalizationError::EmptyRequiredField { field_name, entity_type }) => {
            &&& field_name@ == field
            &&& entity_type@ == "Market"@
        },
        _ => false,
    }
}

/// The index of the first sub-payload that does not standardize, or the
/// sequence's length when every one does.
pub open spec fn first_failing(ms: Seq<GammaMarketResponse>) -> int
    decreases ms.len(),
{
    if ms.len() == 0 {
        0
    } else if !ms[0].standardizes() {
        0
    } else {
        1 + first_failing(ms.drop_first())
    }
}

proof fn lemma_first_failing_at(ms: Seq<GammaMarketResponse>, i: int)
    requires
        0 <= i < ms.len(),
        forall|k: int| 0 <= k < i ==> (#[trigger] ms[k]).standardizes(),
        !ms[i].standardizes(),
    ensures
        first_failing(ms) == i,
    decreases i,
{
    if i > 0 {
        assert(ms[0].standardizes());
        assert(forall|k: int|
            0 <= k < i - 1 ==> (#[trigger] ms.drop_first()[k]) == ms[k + 1]);
        lemma_first_failing_at(ms.drop_first(), i - 1);
    }
}

impl GammaMarketGroupResponse {
    /// Whether the whole group standardizes: every sub-payload does.
    pub open spec fn standardizes(self) -> bool {
        forall|k: int| 0 <= k < self.markets@.len() ==> (#[trigger] self.markets@[k]).standardizes()
    }

    /// Field-for-field relation between this payload and its standardized
    /// group: scalars copied verbatim, sub-markets standardized in order.
    pub open spec fn group_matches(self, g: MarketGroup) -> bool {
        &&& g.slug == self.slug
        &&& g.title == self.title
        &&& g.active == self.active
        &&& g.closed == self.closed
        &&& g.volume == self.volume
        &&& g.liquidity == self.liquidity
        &&& g.markets@.len() == self.markets@.len()
        &&& forall|k: int|
            0 <= k < self.markets@.len() ==> self.markets@[k].market_matches(
                #[trigger] g.markets@[k],
            )
    }
}

/// Standardizer for the remote API's raw payloads.
pub struct PolymarketApiStandardizer;

impl PolymarketApiStandardizer {
    /// Standardize one raw market payload, or report the first validation
    /// failure encountered.
    pub fn standardize_market(raw: GammaMarketResponse) -> (r: Result<Market, AppError>)
        ensures
            r is Ok <==> raw.standardizes(),
            r matches Ok(m) ==> raw.market_matches(m) && m.wf(),
            r matches Err(e) ==> raw.market_error_matches(e),
    {
        let GammaMarketResponse {
            question,
            condition_id,
            slug,
            outcomes,
            outcome_prices,
            clob_token_ids,
            active,
            closed,
            volume_num,
            volume_24hr,
            volume_1wk,
            volume_1mo,
            volume_1yr,
            liquidity_num,
            competitive,
            last_trade_price,
            best_bid,
            best_ask,
        } = raw;

        let outcomes_vec = match parse_string_array(outcomes.as_str()) {
            Ok(v) => v,
            Err(reason) => {
                return Err(
                    AppError::Parse(
                        ParseError::JsonDeserializationFailed {
                            field_name: Some("outcomes".to_owned()),
                            expected_type: "Vec<String>".to_owned(),
                            json_snippet: outcomes,
                            reason,
                        },
                    ),
                );
            },
        };

        let prices_vec = match parse_string_array(outcome_prices.as_str()) {
            Ok(v) => v,
            Err(reason) => {
                return Err(
                    AppError::Parse(
                        ParseError::JsonDeserializationFailed {
                            field_name: Some("outcome_prices".to_owned()),
                            expected_type: "Vec<String>".to_owned(),
                            json_snippet: outcome_prices,
                            reason,
                        },
                    ),
                );
            },
        };

        let token_ids = match parse_string_array(clob_token_ids.as_str()) {
            Ok(v) => v,
            Err(reason) => {
                return Err(
                    AppError::Parse(
                        ParseError::JsonDeserializationFailed {
                            field_name: Some("clob_token_ids".to_owned()),
                            expected_type: "Vec<String>".to_owned(),
                            json_snippet: clob_token_ids,
                            reason,
                        },
                    ),
                );
            },
        };

        if token_ids.len() < 2 {
            let reason = "Expected at least 2 token IDs (YES, NO), found ".to_owned().concat(
                u64_to_string(token_ids.len() as u64).as_str(),
            );
            return Err(
                AppError::Normalization(
                    NormalizationError::TokenIdExtractionFailed { market_slug: slug, reason },
                ),
            );
        }

        let yes_token_id = token_ids[0].clone();
        let no_token_id = token_ids[1].clone();

        if yes_token_id.as_str().is_empty() || no_token_id.as_str().is_empty() {
            return Err(
                AppError::Normalization(
                    NormalizationError::TokenIdExtractionFailed {
                        market_slug: slug,
                        reason: "Token IDs cannot be empty".to_owned(),
                    },
                ),
            );
        }

        if outcomes_vec.len() != 2 {
            let reason = "Expected 2 outcomes (YES, NO), found ".to_owned().concat(
                u64_to_string(outcomes_vec.len() as u64).as_str(),
            );
            return Err(
                AppError::Normalization(
                    NormalizationError::OutcomeMappingFailed {
                        market_slug: slug,
                        outcomes: outcomes_vec,
                        reason,
                    },
                ),
            );
        }

        if prices_vec.len() != 2 {
            let reason = "Expected 2 prices, found ".to_owned().concat(
                u64_to_string(prices_vec.len() as u64).as_str(),
            );
            return Err(
                AppError::Normalization(
                    NormalizationError::InvalidPriceData {
                        market_slug: slug,
                        field_name: "outcome_prices".to_owned(),
                        reason,
                    },
                ),
            );
        }

        if volume_num < 0 || liquidity_num < 0 {
            return Err(
                AppError::Normalization(
                    NormalizationError::InvalidVolumeData {
                        market_slug: slug,
                        field_name: "volume or liquidity".to_owned(),
                        reason: "Values cannot be negative".to_owned(),
                    },
                ),
            );
        }

        if question.as_str().is_empty() {
            return Err(
                AppError::Normalization(
                    NormalizationError::EmptyRequiredField {
                        field_name: "question".to_owned(),
                        entity_type: "Market".to_owned(),
                    },
                ),
            );
        }

        if condition_id.as_str().is_empty() {
            return Err(
                AppError::Normalization(
                    NormalizationError::EmptyRequiredField {
                        field_name: "condition_id".to_owned(),
                        entity_type: "Market".to_owned(),
                    },
                ),
            );
        }

        Ok(
            Market {
                question,
                condition_id,
                slug,
                outcomes: outcomes_vec,
                outcome_prices: prices_vec,
                yes_token_id,
                no_token_id,
                active,
                closed,
                volume: volume_num,
                volume_24h: volume_24hr,
                volume_1w: volume_1wk,
                volume_1m: volume_1mo,
                volume_1y: volume_1yr,
                liquidity: liquidity_num,
                competitive,
                last_trade_price,
                bid_price: best_bid,
                ask_price: best_ask,
            },
        )
    }

    /// Standardize a whole market group: map every sub-payload through
    /// [`Self::standardize_market`], collecting either the fully
    /// standardized list or the first error. One bad sub-market fails the
    /// whole group: a report over an incomplete group would be misleading.
    pub fn standardize_market_group(raw: GammaMarketGroupResponse) -> (r: Result<
        MarketGroup,
        AppError,
    >)
        ensures
            r is Ok <==> raw.standardizes(),
            r matches Ok(g) ==> raw.group_matches(g),
            raw.volume >= 0 && raw.liquidity >= 0 ==> (r matches Ok(g) ==> g.wf()),
            r matches Err(e) ==> {
                let j = first_failing(raw.markets@);
                &&& 0 <= j < raw.markets@.len()
                &&& !raw.markets@[j].standardizes()
                &&& raw.markets@[j].market_error_matches(e)
            },
    {
        let GammaMarketGroupResponse { slug, title, active, closed, volume, liquidity, markets } =
            raw;
        let mut remaining = markets;
        let mut out: Vec<Market> = Vec::new();

        while remaining.len() > 0
            invariant
                out@.len() + remaining@.len() == raw.markets@.len(),
                remaining@ =~= raw.markets@.subrange(
                    out@.len() as int,
                    raw.markets@.len() as int,
                ),
                forall|k: int|
                    0 <= k < out@.len() ==> (#[trigger] raw.markets@[k]).standardizes()
                        && raw.markets@[k].market_matches(out@[k]) && out@[k].wf(),
            decreases remaining@.len(),
        {
            let ghost i = out@.len() as int;
            let m = remaining.remove(0);
            proof {
                assert(m == raw.markets@[i]);
                assert(remaining@ =~= raw.markets@.subrange(i + 1, raw.markets@.len() as int));
            }
            match Self::standardize_market(m) {
                Ok(sm) => {
                    out.push(sm);
                },
                Err(e) => {
                    proof {
                        lemma_first_failing_at(raw.markets@, i);
                    }
                    return Err(e);
                },
            }
        }

        Ok(MarketGroup { slug, title, active, closed, volume, liquidity, markets: out })
    }
}

/// Law: a payload whose three embedded arrays decode but whose token-id,
/// outcome, or price array is shorter than two entries never standardizes,
/// and its error names the offending field, following the fail-fast order:
/// the token-id count is checked first, then (once the first two token ids
/// are known to be non-empty) the outcome count, then the price count.
pub proof fn lemma_short_arrays_rejected(raw: GammaMarketResponse, e: AppError)
    requires
        raw.outcomes_arr() is Some,
        raw.prices_arr() is Some,
        raw.tokens_arr() is Some,
        raw.tokens_arr().unwrap().len() < 2 || raw.outcomes_arr().unwrap().len() < 2
            || raw.prices_arr().unwrap().len() < 2,
        raw.market_error_matches(e),
    ensures
        !raw.standardizes(),
        raw.tokens_arr().unwrap().len() < 2 ==> is_token_id_err(
            e,
            raw.slug,
            "Expected at least 2 token IDs (YES, NO), found "@ + dec_spec(
                raw.tokens_arr().unwrap().len(),
            ),
        ),
        raw.tokens_arr().unwrap().len() >= 2 && raw.tokens_arr().unwrap()[0].len() > 0
            && raw.tokens_arr().unwrap()[1].len() > 0 && raw.outcomes_arr().unwrap().len() < 2
            ==> is_outcome_err(
            e,
            raw.slug,
            raw.outcomes_arr().unwrap(),
            "Expected 2 outcomes (YES, NO), found "@ + dec_spec(raw.outcomes_arr().unwrap().len()),
        ),
        raw.tokens_arr().unwrap().len() >= 2 && raw.tokens_arr().unwrap()[0].len() > 0
            && raw.tokens_arr().unwrap()[1].len() > 0 && raw.outcomes_arr().unwrap().len() == 2
            && raw.prices_arr().unwrap().len() < 2 ==> is_price_err(
            e,
            raw.slug,
            "Expected 2 prices, found "@ + dec_spec(raw.prices_arr().unwrap().len()),
        ),
{
}

/// Law: a payload with negative volume or negative liquidity never
/// standardizes; when it passes every earlier check (decodable arrays, token
/// ids, outcome and price counts), its error is the negative-value error
/// naming the market's slug.
pub proof fn lemma_negative_amounts_rejected(raw: GammaMarketResponse, e: AppError)
    requires
        raw.volume_num < 0 || raw.liquidity_num < 0,
        raw.market_error_matches(e),
    ensures
        !raw.standardizes(),
        raw.outcomes_arr() is Some && raw.prices_arr() is Some && raw.tokens_arr() is Some
            && raw.tokens_arr().unwrap().len() >= 2 && raw.tokens_arr().unwrap()[0].len() > 0
            && raw.tokens_arr().unwrap()[1].len() > 0 && raw.outcomes_arr().unwrap().len() == 2
            && raw.prices_arr().unwrap().len() == 2 ==> is_volume_err(e, raw.slug),
{
}

/// Law: a group containing one sub-payload that does not standardize never
/// standardizes as a whole — no partial list is ever returned — and when
/// every other sub-payload is valid, the group's error is that sub-payload's
/// own error.
pub proof fn lemma_one_bad_market_fails_group(raw: GammaMarketGroupResponse, j: int)
    requires
        0 <= j < raw.markets@.len(),
        !raw.markets@[j].standardizes(),
        forall|k: int|
            0 <= k < raw.markets@.len() && k != j ==> (#[trigger] raw.markets@[k]).standardizes(),
    ensures
        !raw.standardizes(),
        first_failing(raw.markets@) == j,
{
    lemma_first_failing_at(raw.markets@, j);
}

/// Law (round trip): a payload that satisfies every value-level invariant
/// standardizes to a market whose fields equal the source fields exactly —
/// scalars verbatim, outcome-price strings preserved as strings, and the
/// YES/NO token ids taken positionally from the decoded token-id array.
pub proof fn lemma_market_round_trip(raw: GammaMarketResponse, m: Market)
    requires
        raw.standardizes(),
        raw.market_matches(m),
    ensures
        m.question == raw.question,
        m.condition_id == raw.condition_id,
        m.slug == raw.slug,
        Some(m.outcomes.deep_view()) == raw.outcomes_arr(),
        Some(m.outcome_prices.deep_view()) == raw.prices_arr(),
        m.yes_token_id@ == raw.tokens_arr().unwrap()[0],
        m.no_token_id@ == raw.tokens_arr().unwrap()[1],
        m.active == raw.active,
        m.closed == raw.closed,
        m.volume == raw.volume_num,
        m.volume_24h == raw.volume_24hr,
        m.volume_1w == raw.volume_1wk,
        m.volume_1m == raw.volume_1mo,
        m.volume_1y == raw.volume_1yr,
        m.liquidity == raw.liquidity_num,
        m.competitive == raw.competitive,
        m.last_trade_price == raw.last_trade_price,
        m.bid_price == raw.best_bid,
        m.ask_price == raw.best_ask,
        m.wf(),
{
    assert(m.outcomes.deep_view().len() == m.outcomes@.len());
    assert(m.outcome_prices.deep_view().len() == m.outcome_prices@.len());
}

} // verus!
