use polymarket_explorer::errors::{AppError, NormalizationError, ParseError};
use polymarket_explorer::tables::{
    LocalDbStandardizer, PositionTable, TraderTable, TransactionTable,
};

fn full_trader_table() -> TraderTable {
    TraderTable {
        height: 2,
        trader_address: Some(vec![
            Some("0xaaa".to_string()),
            Some("0xbbb".to_string()),
        ]),
        total_markets_entered: Some(vec![Some(10), Some(7)]),
        total_markets_resolved: Some(vec![Some(8), Some(5)]),
        total_wins: Some(vec![Some(6), Some(5)]),
        accuracy: Some(vec![Some(750_000), Some(1_000_000)]),
        total_invested: Some(vec![Some(1_500_000_000), Some(200_000_000)]),
        total_returned: Some(vec![Some(1_800_000_000), Some(260_000_000)]),
        roi: Some(vec![Some(200_000), Some(300_000)]),
    }
}

#[test]
fn empty_trader_table_yields_empty_list() {
    let empty = TraderTable {
        height: 0,
        trader_address: None,
        total_markets_entered: None,
        total_markets_resolved: None,
        total_wins: None,
        accuracy: None,
        total_invested: None,
        total_returned: None,
        roi: None,
    };
    let traders = LocalDbStandardizer::standardize_traders(&empty).unwrap();
    assert!(traders.is_empty());
}

#[test]
fn trader_rows_round_trip_field_for_field() {
    let traders = LocalDbStandardizer::standardize_traders(&full_trader_table()).unwrap();
    assert_eq!(traders.len(), 2);
    assert_eq!(traders[0].trader_address, "0xaaa");
    assert_eq!(traders[0].total_markets_entered, 10);
    assert_eq!(traders[0].total_markets_resolved, 8);
    assert_eq!(traders[0].total_wins, 6);
    assert_eq!(traders[0].accuracy, 750_000);
    assert_eq!(traders[0].total_invested, 1_500_000_000);
    assert_eq!(traders[0].total_returned, 1_800_000_000);
    assert_eq!(traders[0].roi, 200_000);
    assert_eq!(traders[1].trader_address, "0xbbb");
    assert_eq!(traders[1].total_wins, 5);
}

#[test]
fn missing_trader_column_names_the_column() {
    let mut t = full_trader_table();
    t.total_wins = None;
    let e = LocalDbStandardizer::standardize_traders(&t).unwrap_err();
    match e {
        AppError::Parse(ParseError::MissingField { field_name, parent_type }) => {
            assert_eq!(field_name, "total_wins");
            assert_eq!(parent_type, "traders");
        }
        other => panic!("unexpected error: {:?}", other),
    }
}

#[test]
fn null_trader_cell_names_the_field() {
    let mut t = full_trader_table();
    t.accuracy = Some(vec![Some(750_000), None]);
    let e = LocalDbStandardizer::standardize_traders(&t).unwrap_err();
    match e {
        AppError::Normalization(NormalizationError::EmptyRequiredField {
            field_name,
            entity_type,
        }) => {
            assert_eq!(field_name, "accuracy");
            assert_eq!(entity_type, "Trader");
        }
        other => panic!("unexpected error: {:?}", other),
    }
}

#[test]
fn trader_with_more_wins_than_resolved_is_rejected() {
    let mut t = full_trader_table();
    t.total_wins = Some(vec![Some(9), Some(5)]);
    let e = LocalDbStandardizer::standardize_traders(&t).unwrap_err();
    match e {
        AppError::Normalization(NormalizationError::ValidationFailed {
            entity_type,
            entity_id,
            reason,
        }) => {
            assert_eq!(entity_type, "Trader");
            assert_eq!(entity_id, "0xaaa");
            assert_eq!(reason, "total_wins exceeds total_markets_resolved");
        }
        other => panic!("unexpected error: {:?}", other),
    }
}

#[test]
fn trader_with_more_resolved_than_entered_is_rejected() {
    let mut t = full_trader_table();
    t.total_markets_resolved = Some(vec![Some(8), Some(9)]);
    t.total_wins = Some(vec![Some(6), Some(9)]);
    let e = LocalDbStandardizer::standardize_traders(&t).unwrap_err();
    match e {
        AppError::Normalization(NormalizationError::ValidationFailed { entity_id, reason, .. }) => {
            assert_eq!(entity_id, "0xbbb");
            assert_eq!(reason, "total_markets_resolved exceeds total_markets_entered");
        }
        other => panic!("unexpected error: {:?}", other),
    }
}

fn full_position_table() -> PositionTable {
    PositionTable {
        height: 2,
        trader_address: Some(vec![
            Some("0xaaa".to_string()),
            Some("0xbbb".to_string()),
        ]),
        token_id: Some(vec![Some("111".to_string()), Some("222".to_string())]),
        market_id: Some(vec![Some("0xcond".to_string()), Some("0xcond".to_string())]),
        side: Some(vec![Some("YES".to_string()), Some("NO".to_string())]),
        shares_held: Some(vec![Some(5_000_000), Some(3_000_000)]),
        avg_entry_price: Some(vec![Some(600_000), Some(400_000)]),
        first_entry_block: Some(vec![Some(12345), None]),
    }
}

#[test]
fn empty_position_table_yields_empty_list() {
    let empty = PositionTable {
        height: 0,
        trader_address: None,
        token_id: None,
        market_id: None,
        side: None,
        shares_held: None,
        avg_entry_price: None,
        first_entry_block: None,
    };
    let positions = LocalDbStandardizer::standardize_positions(&empty).unwrap();
    assert!(positions.is_empty());
}

#[test]
fn position_rows_round_trip_field_for_field() {
    let positions = LocalDbStandardizer::standardize_positions(&full_position_table()).unwrap();
    assert_eq!(positions.len(), 2);
    assert_eq!(positions[0].trader_address, "0xaaa");
    assert_eq!(positions[0].token_id, "111");
    assert_eq!(positions[0].market_id, "0xcond");
    assert_eq!(positions[0].side, "YES");
    assert_eq!(positions[0].shares_held, 5_000_000);
    assert_eq!(positions[0].avg_entry_price, 600_000);
    assert_eq!(positions[0].first_entry_block, Some(12345));
    assert_eq!(positions[1].side, "NO");
    assert_eq!(positions[1].first_entry_block, None);
}

#[test]
fn absent_first_entry_block_column_means_no_first_entry() {
    let mut t = full_position_table();
    t.first_entry_block = None;
    let positions = LocalDbStandardizer::standardize_positions(&t).unwrap();
    assert_eq!(positions[0].first_entry_block, None);
    assert_eq!(positions[1].first_entry_block, None);
}

#[test]
fn missing_position_column_names_the_column() {
    let mut t = full_position_table();
    t.side = None;
    let e = LocalDbStandardizer::standardize_positions(&t).unwrap_err();
    match e {
        AppError::Parse(ParseError::MissingField { field_name, parent_type }) => {
            assert_eq!(field_name, "side");
            assert_eq!(parent_type, "positions");
        }
        other => panic!("unexpected error: {:?}", other),
    }
}

#[test]
fn position_with_unknown_side_is_rejected() {
    let mut t = full_position_table();
    t.side = Some(vec![Some("YES".to_string()), Some("MAYBE".to_string())]);
    let e = LocalDbStandardizer::standardize_positions(&t).unwrap_err();
    match e {
        AppError::Normalization(NormalizationError::ValidationFailed {
            entity_type,
            entity_id,
            reason,
        }) => {
            assert_eq!(entity_type, "Position");
            assert_eq!(entity_id, "0xbbb");
            assert_eq!(reason, "side must be YES or NO");
        }
        other => panic!("unexpected error: {:?}", other),
    }
}

#[test]
fn position_with_negative_shares_is_rejected() {
    let mut t = full_position_table();
    t.shares_held = Some(vec![Some(-1), Some(3_000_000)]);
    let e = LocalDbStandardizer::standardize_positions(&t).unwrap_err();
    match e {
        AppError::Normalization(NormalizationError::ValidationFailed { reason, .. }) => {
            assert_eq!(reason, "shares_held cannot be negative");
        }
        other => panic!("unexpected error: {:?}", other),
    }
}

fn full_transaction_table() -> TransactionTable {
    TransactionTable {
        height: 2,
        block_number: Some(vec![Some(100), Some(200)]),
        transaction_hash: Some(vec![Some("0xh1".to_string()), Some("0xh2".to_string())]),
        trader_address: Some(vec![
            Some("0xaaa".to_string()),
            Some("0xbbb".to_string()),
        ]),
        token_id: Some(vec![Some("111".to_string()), Some("222".to_string())]),
        side: Some(vec![Some("YES".to_string()), Some("NO".to_string())]),
        action: Some(vec![Some("BUY".to_string()), Some("SELL".to_string())]),
        shares: Some(vec![Some(1_000_000), Some(2_000_000)]),
        usdc_amount: Some(vec![Some(650_000), Some(700_000)]),
        market_id: Some(vec![Some("0xcond".to_string()), Some("0xcond".to_string())]),
    }
}

#[test]
fn empty_transaction_table_yields_empty_list() {
    let empty = TransactionTable {
        height: 0,
        block_number: None,
        transaction_hash: None,
        trader_address: None,
        token_id: None,
        side: None,
        action: None,
        shares: None,
        usdc_amount: None,
        market_id: None,
    };
    let transactions = LocalDbStandardizer::standardize_transactions(&empty).unwrap();
    assert!(transactions.is_empty());
}

#[test]
fn transaction_rows_round_trip_field_for_field() {
    let transactions =
        LocalDbStandardizer::standardize_transactions(&full_transaction_table()).unwrap();
    assert_eq!(transactions.len(), 2);
    assert_eq!(transactions[0].block_number, 100);
    assert_eq!(transactions[0].transaction_hash, "0xh1");
    assert_eq!(transactions[0].trader_address, "0xaaa");
    assert_eq!(transactions[0].token_id, "111");
    assert_eq!(transactions[0].side, "YES");
    assert_eq!(transactions[0].action, "BUY");
    assert_eq!(transactions[0].shares, 1_000_000);
    assert_eq!(transactions[0].usdc_amount, 650_000);
    assert_eq!(transactions[0].market_id, "0xcond");
    assert_eq!(transactions[1].action, "SELL");
}

#[test]
fn null_transaction_cell_names_the_field() {
    let mut t = full_transaction_table();
    t.block_number = Some(vec![None, Some(200)]);
    let e = LocalDbStandardizer::standardize_transactions(&t).unwrap_err();
    match e {
        AppError::Normalization(NormalizationError::EmptyRequiredField {
            field_name,
            entity_type,
        }) => {
            assert_eq!(field_name, "block_number");
            assert_eq!(entity_type, "Transaction");
        }
        other => panic!("unexpected error: {:?}", other),
    }
}

#[test]
fn transaction_with_unknown_action_is_rejected() {
    let mut t = full_transaction_table();
    t.action = Some(vec![Some("BUY".to_string()), Some("HODL".to_string())]);
    let e = LocalDbStandardizer::standardize_transactions(&t).unwrap_err();
    match e {
        AppError::Normalization(NormalizationError::ValidationFailed {
            entity_type,
            entity_id,
            reason,
        }) => {
            assert_eq!(entity_type, "Transaction");
            assert_eq!(entity_id, "0xh2");
            assert_eq!(reason, "action must be BUY or SELL");
        }
        other => panic!("unexpected error: {:?}", other),
    }
}
