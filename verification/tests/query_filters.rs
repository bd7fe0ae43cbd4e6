use polymarket_explorer::errors::{AppError, ParseError};
use polymarket_explorer::models::Position;
use polymarket_explorer::queries::{
    filter_positions_by_market, filter_traders_by_addresses, filter_traders_by_min_resolved,
    filter_transactions_by_market, trader_addresses,
};
use polymarket_explorer::tables::{PositionTable, TraderTable, TransactionTable};

fn trader_table() -> TraderTable {
    TraderTable {
        height: 4,
        trader_address: Some(vec![
            Some("0xaaa".to_string()),
            Some("0xbbb".to_string()),
            None,
            Some("0xddd".to_string()),
        ]),
        total_markets_entered: Some(vec![Some(10), Some(7), Some(3), Some(20)]),
        total_markets_resolved: Some(vec![Some(8), Some(5), None, Some(15)]),
        total_wins: Some(vec![Some(6), Some(5), Some(1), Some(10)]),
        accuracy: Some(vec![Some(1), Some(2), Some(3), Some(4)]),
        total_invested: Some(vec![Some(1), Some(2), Some(3), Some(4)]),
        total_returned: Some(vec![Some(1), Some(2), Some(3), Some(4)]),
        roi: Some(vec![Some(1), Some(2), Some(3), Some(4)]),
    }
}

#[test]
fn empty_address_list_selects_nothing() {
    let t = trader_table();
    let filtered = filter_traders_by_addresses(&t, &vec![]).unwrap();
    assert_eq!(filtered.height, 0);
}

#[test]
fn empty_address_list_succeeds_even_without_the_column() {
    let mut t = trader_table();
    t.trader_address = None;
    let filtered = filter_traders_by_addresses(&t, &vec![]).unwrap();
    assert_eq!(filtered.height, 0);
}

#[test]
fn address_filter_keeps_matching_rows_in_order() {
    let t = trader_table();
    let addrs = vec!["0xddd".to_string(), "0xaaa".to_string()];
    let filtered = filter_traders_by_addresses(&t, &addrs).unwrap();
    assert_eq!(filtered.height, 2);
    let col = filtered.trader_address.unwrap();
    assert_eq!(col[0].as_deref(), Some("0xaaa"));
    assert_eq!(col[1].as_deref(), Some("0xddd"));
    let entered = filtered.total_markets_entered.unwrap();
    assert_eq!(entered[0], Some(10));
    assert_eq!(entered[1], Some(20));
}

#[test]
fn address_filter_without_the_column_names_it() {
    let mut t = trader_table();
    t.trader_address = None;
    let e = filter_traders_by_addresses(&t, &vec!["0xaaa".to_string()]).unwrap_err();
    match e {
        AppError::Parse(ParseError::MissingField { field_name, parent_type }) => {
            assert_eq!(field_name, "trader_address");
            assert_eq!(parent_type, "traders");
        }
        other => panic!("unexpected error: {:?}", other),
    }
}

#[test]
fn min_resolved_filter_keeps_rows_at_or_above_threshold() {
    let t = trader_table();
    let filtered = filter_traders_by_min_resolved(&t, 8).unwrap();
    // Rows with 8 and 15 qualify; the null row is dropped.
    assert_eq!(filtered.height, 2);
    let col = filtered.trader_address.unwrap();
    assert_eq!(col[0].as_deref(), Some("0xaaa"));
    assert_eq!(col[1].as_deref(), Some("0xddd"));
}

#[test]
fn min_resolved_filter_drops_null_cells() {
    let t = trader_table();
    let filtered = filter_traders_by_min_resolved(&t, 0).unwrap();
    assert_eq!(filtered.height, 3);
}

#[test]
fn min_resolved_filter_without_the_column_names_it() {
    let mut t = trader_table();
    t.total_markets_resolved = None;
    let e = filter_traders_by_min_resolved(&t, 1).unwrap_err();
    match e {
        AppError::Parse(ParseError::MissingField { field_name, .. }) => {
            assert_eq!(field_name, "total_markets_resolved");
        }
        other => panic!("unexpected error: {:?}", other),
    }
}

fn position_table() -> PositionTable {
    PositionTable {
        height: 3,
        trader_address: Some(vec![
            Some("0xaaa".to_string()),
            Some("0xbbb".to_string()),
            Some("0xccc".to_string()),
        ]),
        token_id: Some(vec![
            Some("111".to_string()),
            Some("222".to_string()),
            Some("333".to_string()),
        ]),
        market_id: Some(vec![
            Some("0xcond".to_string()),
            Some("0xother".to_string()),
            Some("0xcond".to_string()),
        ]),
        side: Some(vec![
            Some("YES".to_string()),
            Some("NO".to_string()),
            Some("NO".to_string()),
        ]),
        shares_held: Some(vec![Some(1), Some(2), Some(3)]),
        avg_entry_price: Some(vec![Some(1), Some(2), Some(3)]),
        first_entry_block: None,
    }
}

#[test]
fn position_filter_keeps_only_the_requested_market() {
    let t = position_table();
    let filtered = filter_positions_by_market(&t, "0xcond").unwrap();
    assert_eq!(filtered.height, 2);
    let col = filtered.trader_address.unwrap();
    assert_eq!(col[0].as_deref(), Some("0xaaa"));
    assert_eq!(col[1].as_deref(), Some("0xccc"));
}

#[test]
fn position_filter_for_unknown_market_is_empty() {
    let t = position_table();
    let filtered = filter_positions_by_market(&t, "0xmissing").unwrap();
    assert_eq!(filtered.height, 0);
}

fn transaction_table() -> TransactionTable {
    TransactionTable {
        height: 3,
        block_number: Some(vec![Some(1), Some(2), Some(3)]),
        transaction_hash: Some(vec![
            Some("0xh1".to_string()),
            Some("0xh2".to_string()),
            Some("0xh3".to_string()),
        ]),
        trader_address: Some(vec![
            Some("0xaaa".to_string()),
            Some("0xbbb".to_string()),
            Some("0xccc".to_string()),
        ]),
        token_id: Some(vec![
            Some("111".to_string()),
            Some("222".to_string()),
            Some("333".to_string()),
        ]),
        side: Some(vec![
            Some("YES".to_string()),
            Some("NO".to_string()),
            Some("YES".to_string()),
        ]),
        action: Some(vec![
            Some("BUY".to_string()),
            Some("SELL".to_string()),
            Some("BUY".to_string()),
        ]),
        shares: Some(vec![Some(1), Some(2), Some(3)]),
        usdc_amount: Some(vec![Some(1), Some(2), Some(3)]),
        market_id: Some(vec![
            Some("0xcond".to_string()),
            Some("0xcond".to_string()),
            Some("0xother".to_string()),
        ]),
    }
}

#[test]
fn transaction_filter_keeps_only_the_requested_market() {
    let t = transaction_table();
    let filtered = filter_transactions_by_market(&t, "0xcond", 30).unwrap();
    assert_eq!(filtered.height, 2);
    let hashes = filtered.transaction_hash.unwrap();
    assert_eq!(hashes[0].as_deref(), Some("0xh1"));
    assert_eq!(hashes[1].as_deref(), Some("0xh2"));
}

#[test]
fn transaction_lookback_window_has_no_filtering_effect() {
    let t = transaction_table();
    let narrow = filter_transactions_by_market(&t, "0xcond", 1).unwrap();
    let wide = filter_transactions_by_market(&t, "0xcond", 10_000).unwrap();
    assert_eq!(narrow, wide);
}

#[test]
fn trader_addresses_maps_positions_one_to_one() {
    let positions = vec![
        Position {
            trader_address: "0xaaa".to_string(),
            token_id: "111".to_string(),
            market_id: "0xcond".to_string(),
            side: "YES".to_string(),
            shares_held: 1,
            avg_entry_price: 1,
            first_entry_block: None,
        },
        Position {
            trader_address: "0xbbb".to_string(),
            token_id: "222".to_string(),
            market_id: "0xcond".to_string(),
            side: "NO".to_string(),
            shares_held: 2,
            avg_entry_price: 2,
            first_entry_block: Some(5),
        },
    ];
    let addrs = trader_addresses(&positions);
    assert_eq!(addrs, vec!["0xaaa".to_string(), "0xbbb".to_string()]);
}

#[test]
fn trader_addresses_of_no_positions_is_empty() {
    let addrs = trader_addresses(&vec![]);
    assert!(addrs.is_empty());
}
