use polymarket_explorer::errors::{AppError, NormalizationError, ParseError};
use polymarket_explorer::polymarket::{
    GammaMarketGroupResponse, GammaMarketResponse, PolymarketApiStandardizer,
};

fn valid_raw_market() -> GammaMarketResponse {
    GammaMarketResponse {
        question: "Will it happen?".to_string(),
        condition_id: "0xcond".to_string(),
        slug: "will-it-happen".to_string(),
        outcomes: "[\"Yes\",\"No\"]".to_string(),
        outcome_prices: "[\"0.65\",\"0.35\"]".to_string(),
        clob_token_ids: "[\"111\",\"222\"]".to_string(),
        active: true,
        closed: false,
        // 1000.0 in six-decimal fixed point
        volume_num: 1_000_000_000,
        volume_24hr: 50_000_000,
        volume_1wk: 100_000_000,
        volume_1mo: 200_000_000,
        volume_1yr: 900_000_000,
        liquidity_num: 10_000_000,
        competitive: 950_000,
        last_trade_price: 650_000,
        best_bid: 640_000,
        best_ask: 660_000,
    }
}

#[test]
fn concrete_scenario_standardizes_positionally() {
    let m = PolymarketApiStandardizer::standardize_market(valid_raw_market()).unwrap();
    assert_eq!(m.yes_token_id, "111");
    assert_eq!(m.no_token_id, "222");
    assert_eq!(m.outcome_prices, vec!["0.65".to_string(), "0.35".to_string()]);
    assert_eq!(m.volume, 1_000_000_000);
}

#[test]
fn round_trip_preserves_every_field() {
    let m = PolymarketApiStandardizer::standardize_market(valid_raw_market()).unwrap();
    assert_eq!(m.question, "Will it happen?");
    assert_eq!(m.condition_id, "0xcond");
    assert_eq!(m.slug, "will-it-happen");
    assert_eq!(m.outcomes, vec!["Yes".to_string(), "No".to_string()]);
    assert_eq!(m.outcome_prices, vec!["0.65".to_string(), "0.35".to_string()]);
    assert!(m.active);
    assert!(!m.closed);
    assert_eq!(m.volume, 1_000_000_000);
    assert_eq!(m.volume_24h, 50_000_000);
    assert_eq!(m.volume_1w, 100_000_000);
    assert_eq!(m.volume_1m, 200_000_000);
    assert_eq!(m.volume_1y, 900_000_000);
    assert_eq!(m.liquidity, 10_000_000);
    assert_eq!(m.competitive, 950_000);
    assert_eq!(m.last_trade_price, 650_000);
    assert_eq!(m.bid_price, 640_000);
    assert_eq!(m.ask_price, 660_000);
}

#[test]
fn single_token_id_fails_with_extraction_error() {
    let mut raw = valid_raw_market();
    raw.clob_token_ids = "[\"111\"]".to_string();
    let e = PolymarketApiStandardizer::standardize_market(raw).unwrap_err();
    match e {
        AppError::Normalization(NormalizationError::TokenIdExtractionFailed {
            market_slug,
            reason,
        }) => {
            assert_eq!(market_slug, "will-it-happen");
            assert_eq!(reason, "Expected at least 2 token IDs (YES, NO), found 1");
        }
        other => panic!("unexpected error: {:?}", other),
    }
}

#[test]
fn empty_token_id_fails_with_extraction_error() {
    let mut raw = valid_raw_market();
    raw.clob_token_ids = "[\"\",\"222\"]".to_string();
    let e = PolymarketApiStandardizer::standardize_market(raw).unwrap_err();
    match e {
        AppError::Normalization(NormalizationError::TokenIdExtractionFailed {
            market_slug,
            reason,
        }) => {
            assert_eq!(market_slug, "will-it-happen");
            assert_eq!(reason, "Token IDs cannot be empty");
        }
        other => panic!("unexpected error: {:?}", other),
    }
}

#[test]
fn short_outcome_array_fails_naming_outcomes() {
    let mut raw = valid_raw_market();
    raw.outcomes = "[\"Yes\"]".to_string();
    let e = PolymarketApiStandardizer::standardize_market(raw).unwrap_err();
    match e {
        AppError::Normalization(NormalizationError::OutcomeMappingFailed {
            market_slug,
            outcomes,
            reason,
        }) => {
            assert_eq!(market_slug, "will-it-happen");
            assert_eq!(outcomes, vec!["Yes".to_string()]);
            assert_eq!(reason, "Expected 2 outcomes (YES, NO), found 1");
        }
        other => panic!("unexpected error: {:?}", other),
    }
}

#[test]
fn short_price_array_fails_naming_prices() {
    let mut raw = valid_raw_market();
    raw.outcome_prices = "[\"0.65\"]".to_string();
    let e = PolymarketApiStandardizer::standardize_market(raw).unwrap_err();
    match e {
        AppError::Normalization(NormalizationError::InvalidPriceData {
            market_slug,
            field_name,
            reason,
        }) => {
            assert_eq!(market_slug, "will-it-happen");
            assert_eq!(field_name, "outcome_prices");
            assert_eq!(reason, "Expected 2 prices, found 1");
        }
        other => panic!("unexpected error: {:?}", other),
    }
}

#[test]
fn negative_volume_fails_with_negative_value_error() {
    let mut raw = valid_raw_market();
    raw.volume_num = -1;
    let e = PolymarketApiStandardizer::standardize_market(raw).unwrap_err();
    match e {
        AppError::Normalization(NormalizationError::InvalidVolumeData {
            market_slug,
            field_name,
            reason,
        }) => {
            assert_eq!(market_slug, "will-it-happen");
            assert_eq!(field_name, "volume or liquidity");
            assert_eq!(reason, "Values cannot be negative");
        }
        other => panic!("unexpected error: {:?}", other),
    }
}

#[test]
fn negative_liquidity_fails_with_negative_value_error() {
    let mut raw = valid_raw_market();
    raw.liquidity_num = -5;
    let e = PolymarketApiStandardizer::standardize_market(raw).unwrap_err();
    assert!(matches!(
        e,
        AppError::Normalization(NormalizationError::InvalidVolumeData { .. })
    ));
}

#[test]
fn undecodable_outcomes_fail_with_parse_error() {
    let mut raw = valid_raw_market();
    raw.outcomes = "not json at all".to_string();
    let e = PolymarketApiStandardizer::standardize_market(raw).unwrap_err();
    match e {
        AppError::Parse(ParseError::JsonDeserializationFailed {
            field_name,
            expected_type,
            json_snippet,
            reason,
        }) => {
            assert_eq!(field_name.as_deref(), Some("outcomes"));
            assert_eq!(expected_type, "Vec<String>");
            assert_eq!(json_snippet, "not json at all");
            assert!(!reason.is_empty());
        }
        other => panic!("unexpected error: {:?}", other),
    }
}

#[test]
fn undecodable_token_ids_fail_with_parse_error() {
    let mut raw = valid_raw_market();
    raw.clob_token_ids = "[1, 2]".to_string();
    let e = PolymarketApiStandardizer::standardize_market(raw).unwrap_err();
    match e {
        AppError::Parse(ParseError::JsonDeserializationFailed { field_name, .. }) => {
            assert_eq!(field_name.as_deref(), Some("clob_token_ids"));
        }
        other => panic!("unexpected error: {:?}", other),
    }
}

#[test]
fn empty_question_fails_naming_the_field() {
    let mut raw = valid_raw_market();
    raw.question = String::new();
    let e = PolymarketApiStandardizer::standardize_market(raw).unwrap_err();
    match e {
        AppError::Normalization(NormalizationError::EmptyRequiredField {
            field_name,
            entity_type,
        }) => {
            assert_eq!(field_name, "question");
            assert_eq!(entity_type, "Market");
        }
        other => panic!("unexpected error: {:?}", other),
    }
}

#[test]
fn empty_condition_id_fails_naming_the_field() {
    let mut raw = valid_raw_market();
    raw.condition_id = String::new();
    let e = PolymarketApiStandardizer::standardize_market(raw).unwrap_err();
    match e {
        AppError::Normalization(NormalizationError::EmptyRequiredField { field_name, .. }) => {
            assert_eq!(field_name, "condition_id");
        }
        other => panic!("unexpected error: {:?}", other),
    }
}

fn valid_group(markets: Vec<GammaMarketResponse>) -> GammaMarketGroupResponse {
    GammaMarketGroupResponse {
        slug: "group-slug".to_string(),
        title: "The Group".to_string(),
        active: true,
        closed: false,
        volume: 2_000_000_000,
        liquidity: 20_000_000,
        markets,
    }
}

#[test]
fn group_standardizes_all_markets_in_order() {
    let mut second = valid_raw_market();
    second.slug = "second-market".to_string();
    let g = PolymarketApiStandardizer::standardize_market_group(valid_group(vec![
        valid_raw_market(),
        second,
    ]))
    .unwrap();
    assert_eq!(g.slug, "group-slug");
    assert_eq!(g.title, "The Group");
    assert!(g.active);
    assert!(!g.closed);
    assert_eq!(g.volume, 2_000_000_000);
    assert_eq!(g.liquidity, 20_000_000);
    assert_eq!(g.markets.len(), 2);
    assert_eq!(g.markets[0].slug, "will-it-happen");
    assert_eq!(g.markets[1].slug, "second-market");
}

#[test]
fn group_with_no_markets_is_valid_but_degenerate() {
    let g = PolymarketApiStandardizer::standardize_market_group(valid_group(vec![])).unwrap();
    assert!(g.markets.is_empty());
}

#[test]
fn one_invalid_market_fails_the_whole_group() {
    let mut bad = valid_raw_market();
    bad.slug = "bad-market".to_string();
    bad.clob_token_ids = "[\"111\"]".to_string();
    let e = PolymarketApiStandardizer::standardize_market_group(valid_group(vec![
        valid_raw_market(),
        bad,
        valid_raw_market(),
    ]))
    .unwrap_err();
    match e {
        AppError::Normalization(NormalizationError::TokenIdExtractionFailed {
            market_slug,
            ..
        }) => {
            assert_eq!(market_slug, "bad-market");
        }
        other => panic!("unexpected error: {:?}", other),
    }
}
