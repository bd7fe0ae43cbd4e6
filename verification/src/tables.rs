//! Standardization of the local columnar store's tables into the shared
//! entity model.
//!
//! A table is modeled column by column, exactly as the columnar engine hands
//! it over: a column is either absent from the file's schema (`None`) or a
//! vector with one optional cell per row (`None` marks a null). The
//! standardizers are total over this shape and partial over the values:
//! a missing required column or a null cell in a required column is an error
//! naming the field, and rows that break an entity's value-level invariants
//! are rejected. An empty table is a legitimate answer to a filter query and
//! yields an empty list, not an error.

use vstd::prelude::*;

use crate::errors::{AppError, NormalizationError, ParseError};
use crate::models::{Position, Trader, Transaction};

verus! {

/// A missing-column failure naming the column and the table.
pub open spec fn is_missing_col_err(e: AppError, col: Seq<char>, table: Seq<char>) -> bool {
    match e {
        AppError::Parse(ParseError::MissingField { field_name, parent_type }) => {
            &&& field_name@ == col
            &&& parent_type@ == table
        },
        _ => false,
    }
}

/// A null-cell failure naming the field and the entity being built.
pub open spec fn is_null_cell_err(e: AppError, field: Seq<char>, entity: Seq<char>) -> bool {
    match e {
        AppError::Normalization(NormalizationError::EmptyRequiredField { field_name, entity_type }) => {
            &&& field_name@ == field
            &&& entity_type@ == entity
        },
        _ => false,
    }
}

/// A value-validation failure naming the entity, its natural key, and the
/// broken invariant.
pub open spec fn is_validation_err(
    e: AppError,
    entity: Seq<char>,
    id: String,
    reason: Seq<char>,
) -> bool {
    match e {
        AppError::Normalization(NormalizationError::ValidationFailed { entity_type, entity_id, reason: r }) => {
            &&& entity_type@ == entity
            &&& entity_id == id
            &&& r@ == reason
        },
        _ => false,
    }
}

/// The `traders` table: aggregated per-address performance statistics.
#[derive(Debug, Clone, PartialEq, Eq)]
pub struct TraderTable {
    pub height: usize,
    pub trader_address: Option<Vec<Option<String>>>,
    pub total_markets_entered: Option<Vec<Option<u32>>>,
    pub total_markets_resolved: Option<Vec<Option<u32>>>,
    pub total_wins: Option<Vec<Option<u32>>>,
    pub accuracy: Option<Vec<Option<i64>>>,
    pub total_invested: Option<Vec<Option<i64>>>,
    pub total_returned: Option<Vec<Option<i64>>>,
    pub roi: Option<Vec<Option<i64>>>,
}

impl TraderTable {
    /// Shape validity: every column the table has is exactly `height` rows
    /// tall.
    pub open spec fn wf(self) -> bool {
        &&& (self.trader_address matches Some(c) ==> c@.len() == self.height)
        &&& (self.total_markets_entered matches Some(c) ==> c@.len() == self.height)
        &&& (self.total_markets_resolved matches Some(c) ==> c@.len() == self.height)
        &&& (self.total_wins matches Some(c) ==> c@.len() == self.height)
        &&& (self.accuracy matches Some(c) ==> c@.len() == self.height)
        &&& (self.total_invested matches Some(c) ==> c@.len() == self.height)
        &&& (self.total_returned matches Some(c) ==> c@.len() == self.height)
        &&& (self.roi matches Some(c) ==> c@.len() == self.height)
    }

    /// Whether every required column is present.
    pub open spec fn cols_present(self) -> bool {
        &&& self.trader_address is Some
        &&& self.total_markets_entered is Some
        &&& self.total_markets_resolved is Some
        &&& self.total_wins is Some
        &&& self.accuracy is Some
        &&& self.total_invested is Some
        &&& self.total_returned is Some
        &&& self.roi is Some
    }

    /// Whether row `i` has a value in every required column.
    pub open spec fn row_present(self, i: int) -> bool {
        &&& self.trader_address.unwrap()@[i] is Some
        &&& self.total_markets_entered.unwrap()@[i] is Some
        &&& self.total_markets_resolved.unwrap()@[i] is Some
        &&& self.total_wins.unwrap()@[i] is Some
        &&& self.accuracy.unwrap()@[i] is Some
        &&& self.total_invested.unwrap()@[i] is Some
        &&& self.total_returned.unwrap()@[i] is Some
        &&& self.roi.unwrap()@[i] is Some
    }

    /// Whether row `i` respects the Trader invariant: wins never exceed
    /// resolved markets, which never exceed entered markets.
    pub open spec fn row_valid(self, i: int) -> bool {
        &&& self.total_wins.unwrap()@[i].unwrap()
            <= self.total_markets_resolved.unwrap()@[i].unwrap()
        &&& self.total_markets_resolved.unwrap()@[i].unwrap()
            <= self.total_markets_entered.unwrap()@[i].unwrap()
    }

    /// Whether row `i` standardizes.
    pub open spec fn row_ok(self, i: int) -> bool {
        self.row_present(i) && self.row_valid(i)
    }

    /// The trader built from row `i`.
    pub open spec fn trader_at(self, i: int) -> Trader {
        Trader {
            trader_address: self.trader_address.unwrap()@[i].unwrap(),
            total_markets_entered: self.total_markets_entered.unwrap()@[i].unwrap(),
            total_markets_resolved: self.total_markets_resolved.unwrap()@[i].unwrap(),
            total_wins: self.total_wins.unwrap()@[i].unwrap(),
            accuracy: self.accuracy.unwrap()@[i].unwrap(),
            total_invested: self.total_invested.unwrap()@[i].unwrap(),
            total_returned: self.total_returned.unwrap()@[i].unwrap(),
            roi: self.roi.unwrap()@[i].unwrap(),
        }
    }

    /// Whether the whole table standardizes: it is empty, or every required
    /// column is present and every row standardizes.
    pub open spec fn standardizes(self) -> bool {
        self.height == 0 || (self.cols_present() && forall|i: int|
            0 <= i < self.height ==> self.row_ok(i))
    }

    /// The first row that does not standardize, or `height` when all do.
    pub open spec fn first_bad_row_from(self, i: int) -> int
        decreases self.height - i,
    {
        if i < 0 || i >= self.height {
            self.height as int
        } else if !self.row_ok(i) {
            i
        } else {
            self.first_bad_row_from(i + 1)
        }
    }

    /// The exact error a failing table produces: the first missing column in
    /// schema order, else the first offending row's first offence, checking
    /// the row's cells in field order and then its value invariants.
    pub open spec fn error_matches(self, e: AppError) -> bool {
        if self.height == 0 {
            false
        } else if self.trader_address is None {
            is_missing_col_err(e, "trader_address"@, "traders"@)
        } else if self.total_markets_entered is None {
            is_missing_col_err(e, "total_markets_entered"@, "traders"@)
        } else if self.total_markets_resolved is None {
            is_missing_col_err(e, "total_markets_resolved"@, "traders"@)
        } else if self.total_wins is None {
            is_missing_col_err(e, "total_wins"@, "traders"@)
        } else if self.accuracy is None {
            is_missing_col_err(e, "accuracy"@, "traders"@)
        } else if self.total_invested is None {
            is_missing_col_err(e, "total_invested"@, "traders"@)
        } else if self.total_returned is None {
            is_missing_col_err(e, "total_returned"@, "traders"@)
        } else if self.roi is None {
            is_missing_col_err(e, "roi"@, "traders"@)
        } else {
            let j = self.first_bad_row_from(0);
            0 <= j < self.height && self.row_error_matches(j, e)
        }
    }

    /// The exact error row `i` produces when it is the first offending row.
    pub open spec fn row_error_matches(self, i: int, e: AppError) -> bool {
        if self.trader_address.unwrap()@[i] is None {
            is_null_cell_err(e, "trader_address"@, "Trader"@)
        } else if self.total_markets_entered.unwrap()@[i] is None {
            is_null_cell_err(e, "total_markets_entered"@, "Trader"@)
        } else if self.total_markets_resolved.unwrap()@[i] is None {
            is_null_cell_err(e, "total_markets_resolved"@, "Trader"@)
        } else if self.total_wins.unwrap()@[i] is None {
            is_null_cell_err(e, "total_wins"@, "Trader"@)
        } else if self.accuracy.unwrap()@[i] is None {
            is_null_cell_err(e, "accuracy"@, "Trader"@)
        } else if self.total_invested.unwrap()@[i] is None {
            is_null_cell_err(e, "total_invested"@, "Trader"@)
        } else if self.total_returned.unwrap()@[i] is None {
            is_null_cell_err(e, "total_returned"@, "Trader"@)
        } else if self.roi.unwrap()@[i] is None {
            is_null_cell_err(e, "roi"@, "Trader"@)
        } else if self.total_wins.unwrap()@[i].unwrap()
            > self.total_markets_resolved.unwrap()@[i].unwrap() {
            is_validation_err(
                e,
                "Trader"@,
                self.trader_address.unwrap()@[i].unwrap(),
                "total_wins exceeds total_markets_resolved"@,
            )
        } else {
            is_validation_err(
                e,
                "Trader"@,
                self.trader_address.unwrap()@[i].unwrap(),
                "total_markets_resolved exceeds total_markets_entered"@,
            )
        }
    }

    proof fn lemma_first_bad_row(self, i: int)
        requires
            0 <= i < self.height,
            forall|k: int| 0 <= k < i ==> self.row_ok(k),
            !self.row_ok(i),
        ensures
            self.first_bad_row_from(0) == i,
    {
        self.lemma_first_bad_row_from(0, i);
    }

    proof fn lemma_first_bad_row_from(self, a: int, i: int)
        requires
            0 <= a <= i < self.height,
            forall|k: int| a <= k < i ==> self.row_ok(k),
            !self.row_ok(i),
        ensures
            self.first_bad_row_from(a) == i,
        decreases i - a,
    {
        if a < i {
            self.lemma_first_bad_row_from(a + 1, i);
        }
    }
}

/// Standardizer for the local columnar store's tables.
pub struct LocalDbStandardizer;

impl LocalDbStandardizer {
    /// Standardize the `traders` table into a list of traders, in row
    /// order, or report the first offence: a missing required column, a null
    /// cell, or a row that breaks the Trader invariant.
    pub fn standardize_traders(df: &TraderTable) -> (r: Result<Vec<Trader>, AppError>)
        requires
            df.wf(),
        ensures
            r is Ok <==> df.standardizes(),
            r matches Ok(v) ==> {
                &&& v@.len() == df.height
                &&& forall|i: int|
                    0 <= i < df.height ==> #[trigger] v@[i] == df.trader_at(i) && v@[i].wf()
            },
            r matches Err(e) ==> df.error_matches(e),
    {
        if df.height == 0 {
            return Ok(Vec::new());
        }
        let addresses = match &df.trader_address {
            Some(c) => c,
            None => {
                return Err(Self::missing_col("trader_address"));
            },
        };
        let total_entered = match &df.total_markets_entered {
            Some(c) => c,
            None => {
                return Err(Self::missing_col("total_markets_entered"));
            },
        };
        let total_resolved = match &df.total_markets_resolved {
            Some(c) => c,
            None => {
                return Err(Self::missing_col("total_markets_resolved"));
            },
        };
        let wins = match &df.total_wins {
            Some(c) => c,
            None => {
                return Err(Self::missing_col("total_wins"));
            },
        };
        let accuracy = match &df.accuracy {
            Some(c) => c,
            None => {
                return Err(Self::missing_col("accuracy"));
            },
        };
        let total_invested = match &df.total_invested {
            Some(c) => c,
            None => {
                return Err(Self::missing_col("total_invested"));
            },
        };
        let total_returned = match &df.total_returned {
            Some(c) => c,
            None => {
                return Err(Self::missing_col("total_returned"));
            },
        };
        let roi = match &df.roi {
            Some(c) => c,
            None => {
                return Err(Self::missing_col("roi"));
            },
        };

        let mut traders: Vec<Trader> = Vec::new();
        let mut i: usize = 0;
        while i < df.height
            invariant
                i <= df.height,
                df.wf(),
                df.cols_present(),
                df.height > 0,
                addresses == df.trader_address.unwrap(),
                total_entered == df.total_markets_entered.unwrap(),
                total_resolved == df.total_markets_resolved.unwrap(),
                wins == df.total_wins.unwrap(),
                accuracy == df.accuracy.unwrap(),
                total_invested == df.total_invested.unwrap(),
                total_returned == df.total_returned.unwrap(),
                roi == df.roi.unwrap(),
                traders@.len() == i,
                forall|k: int| 0 <= k < i ==> df.row_ok(k),
                forall|k: int|
                    0 <= k < i ==> #[trigger] traders@[k] == df.trader_at(k) && traders@[k].wf(),
            decreases df.height - i,
        {
            let address = match &addresses[i] {
                Some(s) => s.clone(),
                None => {
                    proof {
                        df.lemma_first_bad_row(i as int);
                    }
                    return Err(Self::null_cell("trader_address"));
                },
            };
            let entered_v = match &total_entered[i] {
                Some(v) => *v,
                None => {
                    proof {
                        df.lemma_first_bad_row(i as int);
                    }
                    return Err(Self::null_cell("total_markets_entered"));
                },
            };
            let resolved_v = match &total_resolved[i] {
                Some(v) => *v,
                None => {
                    proof {
                        df.lemma_first_bad_row(i as int);
                    }
                    return Err(Self::null_cell("total_markets_resolved"));
                },
            };
            let wins_v = match &wins[i] {
                Some(v) => *v,
                None => {
                    proof {
                        df.lemma_first_bad_row(i as int);
                    }
                    return Err(Self::null_cell("total_wins"));
                },
            };
            let accuracy_v = match &accuracy[i] {
                Some(v) => *v,
                None => {
                    proof {
                        df.lemma_first_bad_row(i as int);
                    }
                    return Err(Self::null_cell("accuracy"));
                },
            };
            let invested_v = match &total_invested[i] {
                Some(v) => *v,
                None => {
                    proof {
                        df.lemma_first_bad_row(i as int);
                    }
                    return Err(Self::null_cell("total_invested"));
                },
            };
            let returned_v = match &total_returned[i] {
                Some(v) => *v,
                None => {
                    proof {
                        df.lemma_first_bad_row(i as int);
                    }
                    return Err(Self::null_cell("total_returned"));
                },
            };
            let roi_v = match &roi[i] {
                Some(v) => *v,
                None => {
                    proof {
                        df.lemma_first_bad_row(i as int);
                    }
                    return Err(Self::null_cell("roi"));
                },
            };
            if wins_v > resolved_v {
                proof {
                    df.lemma_first_bad_row(i as int);
                }
                return Err(
                    AppError::Normalization(
                        NormalizationError::ValidationFailed {
                            entity_type: "Trader".to_owned(),
                            entity_id: address,
                            reason: "total_wins exceeds total_markets_resolved".to_owned(),
                        },
                    ),
                );
            }
            if resolved_v > entered_v {
                proof {
                    df.lemma_first_bad_row(i as int);
                }
                return Err(
                    AppError::Normalization(
                        NormalizationError::ValidationFailed {
                            entity_type: "Trader".to_owned(),
                            entity_id: address,
                            reason: "total_markets_resolved exceeds total_markets_entered".to_owned(),
                        },
                    ),
                );
            }
            traders.push(
                Trader {
                    trader_address: address,
                    total_markets_entered: entered_v,
                    total_markets_resolved: resolved_v,
                    total_wins: wins_v,
                    accuracy: accuracy_v,
                    total_invested: invested_v,
                    total_returned: returned_v,
                    roi: roi_v,
                },
            );
            i += 1;
        }
        Ok(traders)
    }

    fn missing_col(col: &str) -> (e: AppError)
        ensures
            is_missing_col_err(e, col@, "traders"@),
    {
        missing_col_in(col, "traders")
    }

    fn null_cell(field: &str) -> (e: AppError)
        ensures
            is_null_cell_err(e, field@, "Trader"@),
    {
        null_cell_of(field, "Trader")
    }
}

pub(crate) fn missing_col_in(col: &str, table: &str) -> (e: AppError)
    ensures
        is_missing_col_err(e, col@, table@),
{
    AppError::Parse(
        ParseError::MissingField { field_name: col.to_owned(), parent_type: table.to_owned() },
    )
}

fn null_cell_of(field: &str, entity: &str) -> (e: AppError)
    ensures
        is_null_cell_err(e, field@, entity@),
{
    AppError::Normalization(
        NormalizationError::EmptyRequiredField {
            field_name: field.to_owned(),
            entity_type: entity.to_owned(),
        },
    )
}

pub(crate) fn string_is(s: &String, lit: &str) -> (r: bool)
    ensures
        r == (s@ == lit@),
{
    let owned = lit.to_owned();
    *s == owned
}

/// The `positions` table: one row per stake a trader currently holds.
#[derive(Debug, Clone, PartialEq, Eq)]
pub struct PositionTable {
    pub height: usize,
    pub trader_address: Option<Vec<Option<String>>>,
    pub token_id: Option<Vec<Option<String>>>,
    pub market_id: Option<Vec<Option<String>>>,
    pub side: Option<Vec<Option<String>>>,
    pub shares_held: Option<Vec<Option<i64>>>,
    pub avg_entry_price: Option<Vec<Option<i64>>>,
    /// Optional in the schema: a missing column or a null cell both mean the
    /// source never recorded a first entry.
    pub first_entry_block: Option<Vec<Option<u64>>>,
}

impl PositionTable {
    /// Shape validity: every column the table has is exactly `height` rows
    /// tall.
    pub open spec fn wf(self) -> bool {
        &&& (self.trader_address matches Some(c) ==> c@.len() == self.height)
        &&& (self.token_id matches Some(c) ==> c@.len() == self.height)
        &&& (self.market_id matches Some(c) ==> c@.len() == self.height)
        &&& (self.side matches Some(c) ==> c@.len() == self.height)
        &&& (self.shares_held matches Some(c) ==> c@.len() == self.height)
        &&& (self.avg_entry_price matches Some(c) ==> c@.len() == self.height)
        &&& (self.first_entry_block matches Some(c) ==> c@.len() == self.height)
    }

    /// Whether every required column is present (`first_entry_block` is not
    /// required).
    pub open spec fn cols_present(self) -> bool {
        &&& self.trader_address is Some
        &&& self.token_id is Some
        &&& self.market_id is Some
        &&& self.side is Some
        &&& self.shares_held is Some
        &&& self.avg_entry_price is Some
    }

    /// Whether row `i` has a value in every required column.
    pub open spec fn row_present(self, i: int) -> bool {
        &&& self.trader_address.unwrap()@[i] is Some
        &&& self.token_id.unwrap()@[i] is Some
        &&& self.market_id.unwrap()@[i] is Some
        &&& self.side.unwrap()@[i] is Some
        &&& self.shares_held.unwrap()@[i] is Some
        &&& self.avg_entry_price.unwrap()@[i] is Some
    }

    /// Whether row `i` respects the Position invariant: the side names one
    /// of the two outcomes and the stake is non-negative.
    pub open spec fn row_valid(self, i: int) -> bool {
        &&& (self.side.unwrap()@[i].unwrap()@ == "YES"@ || self.side.unwrap()@[i].unwrap()@
            == "NO"@)
        &&& self.shares_held.unwrap()@[i].unwrap() >= 0
    }

    /// Whether row `i` standardizes.
    pub open spec fn row_ok(self, i: int) -> bool {
        self.row_present(i) && self.row_valid(i)
    }

    /// The position built from row `i`.
    pub open spec fn position_at(self, i: int) -> Position {
        Position {
            trader_address: self.trader_address.unwrap()@[i].unwrap(),
            token_id: self.token_id.unwrap()@[i].unwrap(),
            market_id: self.market_id.unwrap()@[i].unwrap(),
            side: self.side.unwrap()@[i].unwrap(),
            shares_held: self.shares_held.unwrap()@[i].unwrap(),
            avg_entry_price: self.avg_entry_price.unwrap()@[i].unwrap(),
            first_entry_block: match self.first_entry_block {
                Some(c) => c@[i],
                None => None,
            },
        }
    }

    /// Whether the whole table standardizes.
    pub open spec fn standardizes(self) -> bool {
        self.height == 0 || (self.cols_present() && forall|i: int|
            0 <= i < self.height ==> self.row_ok(i))
    }

    /// The first row that does not standardize, or `height` when all do.
    pub open spec fn first_bad_row_from(self, i: int) -> int
        decreases self.height - i,
    {
        if i < 0 || i >= self.height {
            self.height as int
        } else if !self.row_ok(i) {
            i
        } else {
            self.first_bad_row_from(i + 1)
        }
    }

    /// The exact error a failing table produces, in fail-fast order.
    pub open spec fn error_matches(self, e: AppError) -> bool {
        if self.height == 0 {
            false
        } else if self.trader_address is None {
            is_missing_col_err(e, "trader_address"@, "positions"@)
        } else if self.token_id is None {
            is_missing_col_err(e, "token_id"@, "positions"@)
        } else if self.market_id is None {
            is_missing_col_err(e, "market_id"@, "positions"@)
        } else if self.side is None {
            is_missing_col_err(e, "side"@, "positions"@)
        } else if self.shares_held is None {
            is_missing_col_err(e, "shares_held"@, "positions"@)
        } else if self.avg_entry_price is None {
            is_missing_col_err(e, "avg_entry_price"@, "positions"@)
        } else {
            let j = self.first_bad_row_from(0);
            0 <= j < self.height && self.row_error_matches(j, e)
        }
    }

    /// The exact error row `i` produces when it is the first offending row.
    pub open spec fn row_error_matches(self, i: int, e: AppError) -> bool {
        if self.trader_address.unwrap()@[i] is None {
            is_null_cell_err(e, "trader_address"@, "Position"@)
        } else if self.token_id.unwrap()@[i] is None {
            is_null_cell_err(e, "token_id"@, "Position"@)
        } else if self.market_id.unwrap()@[i] is None {
            is_null_cell_err(e, "market_id"@, "Position"@)
        } else if self.side.unwrap()@[i] is None {
            is_null_cell_err(e, "side"@, "Position"@)
        } else if self.shares_held.unwrap()@[i] is None {
            is_null_cell_err(e, "shares_held"@, "Position"@)
        } else if self.avg_entry_price.unwrap()@[i] is None {
            is_null_cell_err(e, "avg_entry_price"@, "Position"@)
        } else if !(self.side.unwrap()@[i].unwrap()@ == "YES"@ || self.side.unwrap()@[i].unwrap()@
            == "NO"@) {
            is_validation_err(
                e,
                "Position"@,
                self.trader_address.unwrap()@[i].unwrap(),
                "side must be YES or NO"@,
            )
        } else {
            is_validation_err(
                e,
                "Position"@,
                self.trader_address.unwrap()@[i].unwrap(),
                "shares_held cannot be negative"@,
            )
        }
    }

    proof fn lemma_first_bad_row(self, i: int)
        requires
            0 <= i < self.height,
            forall|k: int| 0 <= k < i ==> self.row_ok(k),
            !self.row_ok(i),
        ensures
            self.first_bad_row_from(0) == i,
    {
        self.lemma_first_bad_row_from(0, i);
    }

    proof fn lemma_first_bad_row_from(self, a: int, i: int)
        requires
            0 <= a <= i < self.height,
            forall|k: int| a <= k < i ==> self.row_ok(k),
            !self.row_ok(i),
        ensures
            self.first_bad_row_from(a) == i,
        decreases i - a,
    {
        if a < i {
            self.lemma_first_bad_row_from(a + 1, i);
        }
    }
}

/// The `transactions` table: one row per historical trade event.
#[derive(Debug, Clone, PartialEq, Eq)]
pub struct TransactionTable {
    pub height: usize,
    pub block_number: Option<Vec<Option<u64>>>,
    pub transaction_hash: Option<Vec<Option<String>>>,
    pub trader_address: Option<Vec<Option<String>>>,
    pub token_id: Option<Vec<Option<String>>>,
    pub side: Option<Vec<Option<String>>>,
    pub action: Option<Vec<Option<String>>>,
    pub shares: Option<Vec<Option<i64>>>,
    pub usdc_amount: Option<Vec<Option<i64>>>,
    pub market_id: Option<Vec<Option<String>>>,
}

impl TransactionTable {
    /// Shape validity: every column the table has is exactly `height` rows
    /// tall.
    pub open spec fn wf(self) -> bool {
        &&& (self.block_number matches Some(c) ==> c@.len() == self.height)
        &&& (self.transaction_hash matches Some(c) ==> c@.len() == self.height)
        &&& (self.trader_address matches Some(c) ==> c@.len() == self.height)
        &&& (self.token_id matches Some(c) ==> c@.len() == self.height)
        &&& (self.side matches Some(c) ==> c@.len() == self.height)
        &&& (self.action matches Some(c) ==> c@.len() == self.height)
        &&& (self.shares matches Some(c) ==> c@.len() == self.height)
        &&& (self.usdc_amount matches Some(c) ==> c@.len() == self.height)
        &&& (self.market_id matches Some(c) ==> c@.len() == self.height)
    }

    /// Whether every required column is present.
    pub open spec fn cols_present(self) -> bool {
        &&& self.block_number is Some
        &&& self.transaction_hash is Some
        &&& self.trader_address is Some
        &&& self.token_id is Some
        &&& self.side is Some
        &&& self.action is Some
        &&& self.shares is Some
        &&& self.usdc_amount is Some
        &&& self.market_id is Some
    }

    /// Whether row `i` has a value in every required column.
    pub open spec fn row_present(self, i: int) -> bool {
        &&& self.block_number.unwrap()@[i] is Some
        &&& self.transaction_hash.unwrap()@[i] is Some
        &&& self.trader_address.unwrap()@[i] is Some
        &&& self.token_id.unwrap()@[i] is Some
        &&& self.side.unwrap()@[i] is Some
        &&& self.action.unwrap()@[i] is Some
        &&& self.shares.unwrap()@[i] is Some
        &&& self.usdc_amount.unwrap()@[i] is Some
        &&& self.market_id.unwrap()@[i] is Some
    }

    /// Whether row `i` respects the Transaction invariant: the action is one
    /// of exactly two values.
    pub open spec fn row_valid(self, i: int) -> bool {
        self.action.unwrap()@[i].unwrap()@ == "BUY"@ || self.action.unwrap()@[i].unwrap()@
            == "SELL"@
    }

    /// Whether row `i` standardizes.
    pub open spec fn row_ok(self, i: int) -> bool {
        self.row_present(i) && self.row_valid(i)
    }

    /// The transaction built from row `i`.
    pub open spec fn transaction_at(self, i: int) -> Transaction {
        Transaction {
            block_number: self.block_number.unwrap()@[i].unwrap(),
            transaction_hash: self.transaction_hash.unwrap()@[i].unwrap(),
            trader_address: self.trader_address.unwrap()@[i].unwrap(),
            token_id: self.token_id.unwrap()@[i].unwrap(),
            side: self.side.unwrap()@[i].unwrap(),
            action: self.action.unwrap()@[i].unwrap(),
            shares: self.shares.unwrap()@[i].unwrap(),
            usdc_amount: self.usdc_amount.unwrap()@[i].unwrap(),
            market_id: self.market_id.unwrap()@[i].unwrap(),
        }
    }

    /// Whether the whole table standardizes.
    pub open spec fn standardizes(self) -> bool {
        self.height == 0 || (self.cols_present() && forall|i: int|
            0 <= i < self.height ==> self.row_ok(i))
    }

    /// The first row that does not standardize, or `height` when all do.
    pub open spec fn first_bad_row_from(self, i: int) -> int
        decreases self.height - i,
    {
        if i < 0 || i >= self.height {
            self.height as int
        } else if !self.row_ok(i) {
            i
        } else {
            self.first_bad_row_from(i + 1)
        }
    }

    /// The exact error a failing table produces, in fail-fast order.
    pub open spec fn error_matches(self, e: AppError) -> bool {
        if self.height == 0 {
            false
        } else if self.block_number is None {
            is_missing_col_err(e, "block_number"@, "transactions"@)
        } else if self.transaction_hash is None {
            is_missing_col_err(e, "transaction_hash"@, "transactions"@)
        } else if self.trader_address is None {
            is_missing_col_err(e, "trader_address"@, "transactions"@)
        } else if self.token_id is None {
            is_missing_col_err(e, "token_id"@, "transactions"@)
        } else if self.side is None {
            is_missing_col_err(e, "side"@, "transactions"@)
        } else if self.action is None {
            is_missing_col_err(e, "action"@, "transactions"@)
        } else if self.shares is None {
            is_missing_col_err(e, "shares"@, "transactions"@)
        } else if self.usdc_amount is None {
            is_missing_col_err(e, "usdc_amount"@, "transactions"@)
        } else if self.market_id is None {
            is_missing_col_err(e, "market_id"@, "transactions"@)
        } else {
            let j = self.first_bad_row_from(0);
            0 <= j < self.height && self.row_error_matches(j, e)
        }
    }

    /// The exact error row `i` produces when it is the first offending row.
    pub open spec fn row_error_matches(self, i: int, e: AppError) -> bool {
        if self.block_number.unwrap()@[i] is None {
            is_null_cell_err(e, "block_number"@, "Transaction"@)
        } else if self.transaction_hash.unwrap()@[i] is None {
            is_null_cell_err(e, "transaction_hash"@, "Transaction"@)
        } else if self.trader_address.unwrap()@[i] is None {
            is_null_cell_err(e, "trader_address"@, "Transaction"@)
        } else if self.token_id.unwrap()@[i] is None {
            is_null_cell_err(e, "token_id"@, "Transaction"@)
        } else if self.side.unwrap()@[i] is None {
            is_null_cell_err(e, "side"@, "Transaction"@)
        } else if self.action.unwrap()@[i] is None {
            is_null_cell_err(e, "action"@, "Transaction"@)
        } else if self.shares.unwrap()@[i] is None {
            is_null_cell_err(e, "shares"@, "Transaction"@)
        } else if self.usdc_amount.unwrap()@[i] is None {
            is_null_cell_err(e, "usdc_amount"@, "Transaction"@)
        } else if self.market_id.unwrap()@[i] is None {
            is_null_cell_err(e, "market_id"@, "Transaction"@)
        } else {
            is_validation_err(
                e,
                "Transaction"@,
                self.transaction_hash.unwrap()@[i].unwrap(),
                "action must be BUY or SELL"@,
            )
        }
    }

    proof fn lemma_first_bad_row(self, i: int)
        requires
            0 <= i < self.height,
            forall|k: int| 0 <= k < i ==> self.row_ok(k),
            !self.row_ok(i),
        ensures
            self.first_bad_row_from(0) == i,
    {
        self.lemma_first_bad_row_from(0, i);
    }

    proof fn lemma_first_bad_row_from(self, a: int, i: int)
        requires
            0 <= a <= i < self.height,
            forall|k: int| a <= k < i ==> self.row_ok(k),
            !self.row_ok(i),
        ensures
            self.first_bad_row_from(a) == i,
        decreases i - a,
    {
        if a < i {
            self.lemma_first_bad_row_from(a + 1, i);
        }
    }
}

impl LocalDbStandardizer {
    /// Standardize the `positions` table into a list of positions, in row
    /// order, or report the first offence.
    pub fn standardize_positions(df: &PositionTable) -> (r: Result<Vec<Position>, AppError>)
        requires
            df.wf(),
        ensures
            r is Ok <==> df.standardizes(),
            r matches Ok(v) ==> {
                &&& v@.len() == df.height
                &&& forall|i: int|
                    0 <= i < df.height ==> #[trigger] v@[i] == df.position_at(i) && v@[i].wf()
            },
            r matches Err(e) ==> df.error_matches(e),
    {
        if df.height == 0 {
            return Ok(Vec::new());
        }
        let addresses = match &df.trader_address {
            Some(c) => c,
            None => {
                return Err(missing_col_in("trader_address", "positions"));
            },
        };
        let token_ids = match &df.token_id {
            Some(c) => c,
            None => {
                return Err(missing_col_in("token_id", "positions"));
            },
        };
        let market_ids = match &df.market_id {
            Some(c) => c,
            None => {
                return Err(missing_col_in("market_id", "positions"));
            },
        };
        let sides = match &df.side {
            Some(c) => c,
            None => {
                return Err(missing_col_in("side", "positions"));
            },
        };
        let shares = match &df.shares_held {
            Some(c) => c,
            None => {
                return Err(missing_col_in("shares_held", "positions"));
            },
        };
        let avg_prices = match &df.avg_entry_price {
            Some(c) => c,
            None => {
                return Err(missing_col_in("avg_entry_price", "positions"));
            },
        };

        let mut positions: Vec<Position> = Vec::new();
        let mut i: usize = 0;
        while i < df.height
            invariant
                i <= df.height,
                df.wf(),
                df.cols_present(),
                df.height > 0,
                addresses == df.trader_address.unwrap(),
                token_ids == df.token_id.unwrap(),
                market_ids == df.market_id.unwrap(),
                sides == df.side.unwrap(),
                shares == df.shares_held.unwrap(),
                avg_prices == df.avg_entry_price.unwrap(),
                positions@.len() == i,
                forall|k: int| 0 <= k < i ==> df.row_ok(k),
                forall|k: int|
                    0 <= k < i ==> #[trigger] positions@[k] == df.position_at(k)
                        && positions@[k].wf(),
            decreases df.height - i,
        {
            let address = match &addresses[i] {
                Some(s) => s.clone(),
                None => {
                    proof {
                        df.lemma_first_bad_row(i as int);
                    }
                    return Err(null_cell_of("trader_address", "Position"));
                },
            };
            let token_id = match &token_ids[i] {
                Some(s) => s.clone(),
                None => {
                    proof {
                        df.lemma_first_bad_row(i as int);
                    }
                    return Err(null_cell_of("token_id", "Position"));
                },
            };
            let market_id = match &market_ids[i] {
                Some(s) => s.clone(),
                None => {
                    proof {
                        df.lemma_first_bad_row(i as int);
                    }
                    return Err(null_cell_of("market_id", "Position"));
                },
            };
            let side = match &sides[i] {
                Some(s) => s.clone(),
                None => {
                    proof {
                        df.lemma_first_bad_row(i as int);
                    }
                    return Err(null_cell_of("side", "Position"));
                },
            };
            let shares_v = match &shares[i] {
                Some(v) => *v,
                None => {
                    proof {
                        df.lemma_first_bad_row(i as int);
                    }
                    return Err(null_cell_of("shares_held", "Position"));
                },
            };
            let avg_price_v = match &avg_prices[i] {
                Some(v) => *v,
                None => {
                    proof {
                        df.lemma_first_bad_row(i as int);
                    }
                    return Err(null_cell_of("avg_entry_price", "Position"));
                },
            };
            let first_entry_block = match &df.first_entry_block {
                Some(c) => match &c[i] {
                    Some(v) => Some(*v),
                    None => None,
                },
                None => None,
            };
            if !(string_is(&side, "YES") || string_is(&side, "NO")) {
                proof {
                    df.lemma_first_bad_row(i as int);
                }
                return Err(
                    AppError::Normalization(
                        NormalizationError::ValidationFailed {
                            entity_type: "Position".to_owned(),
                            entity_id: address,
                            reason: "side must be YES or NO".to_owned(),
                        },
                    ),
                );
            }
            if shares_v < 0 {
                proof {
                    df.lemma_first_bad_row(i as int);
                }
                return Err(
                    AppError::Normalization(
                        NormalizationError::ValidationFailed {
                            entity_type: "Position".to_owned(),
                            entity_id: address,
                            reason: "shares_held cannot be negative".to_owned(),
                        },
                    ),
                );
            }
            positions.push(
                Position {
                    trader_address: address,
                    token_id,
                    market_id,
                    side,
                    shares_held: shares_v,
                    avg_entry_price: avg_price_v,
                    first_entry_block,
                },
            );
            i += 1;
        }
        Ok(positions)
    }

    /// Standardize the `transactions` table into a list of transactions, in
    /// row order, or report the first offence.
    pub fn standardize_transactions(df: &TransactionTable) -> (r: Result<
        Vec<Transaction>,
        AppError,
    >)
        requires
            df.wf(),
        ensures
            r is Ok <==> df.standardizes(),
            r matches Ok(v) ==> {
                &&& v@.len() == df.height
                &&& forall|i: int|
                    0 <= i < df.height ==> #[trigger] v@[i] == df.transaction_at(i) && v@[i].wf()
            },
            r matches Err(e) ==> df.error_matches(e),
    {
        if df.height == 0 {
            return Ok(Vec::new());
        }
        let block_numbers = match &df.block_number {
            Some(c) => c,
            None => {
                return Err(missing_col_in("block_number", "transactions"));
            },
        };
        let tx_hashes = match &df.transaction_hash {
            Some(c) => c,
            None => {
                return Err(missing_col_in("transaction_hash", "transactions"));
            },
        };
        let trader_addresses = match &df.trader_address {
            Some(c) => c,
            None => {
                return Err(missing_col_in("trader_address", "transactions"));
            },
        };
        let token_ids = match &df.token_id {
            Some(c) => c,
            None => {
                return Err(missing_col_in("token_id", "transactions"));
            },
        };
        let sides = match &df.side {
            Some(c) => c,
            None => {
                return Err(missing_col_in("side", "transactions"));
            },
        };
        let actions = match &df.action {
            Some(c) => c,
            None => {
                return Err(missing_col_in("action", "transactions"));
            },
        };
        let shares = match &df.shares {
            Some(c) => c,
            None => {
                return Err(missing_col_in("shares", "transactions"));
            },
        };
        let usdc_amounts = match &df.usdc_amount {
            Some(c) => c,
            None => {
                return Err(missing_col_in("usdc_amount", "transactions"));
            },
        };
        let market_ids = match &df.market_id {
            Some(c) => c,
            None => {
                return Err(missing_col_in("market_id", "transactions"));
            },
        };

        let mut transactions: Vec<Transaction> = Vec::new();
        let mut i: usize = 0;
        while i < df.height
            invariant
                i <= df.height,
                df.wf(),
                df.cols_present(),
                df.height > 0,
                block_numbers == df.block_number.unwrap(),
                tx_hashes == df.transaction_hash.unwrap(),
                trader_addresses == df.trader_address.unwrap(),
                token_ids == df.token_id.unwrap(),
                sides == df.side.unwrap(),
                actions == df.action.unwrap(),
                shares == df.shares.unwrap(),
                usdc_amounts == df.usdc_amount.unwrap(),
                market_ids == df.market_id.unwrap(),
                transactions@.len() == i,
                forall|k: int| 0 <= k < i ==> df.row_ok(k),
                forall|k: int|
                    0 <= k < i ==> #[trigger] transactions@[k] == df.transaction_at(k)
                        && transactions@[k].wf(),
            decreases df.height - i,
        {
            let block_number = match &block_numbers[i] {
                Some(v) => *v,
                None => {
                    proof {
                        df.lemma_first_bad_row(i as int);
                    }
                    return Err(null_cell_of("block_number", "Transaction"));
                },
            };
            let transaction_hash = match &tx_hashes[i] {
                Some(s) => s.clone(),
                None => {
                    proof {
                        df.lemma_first_bad_row(i as int);
                    }
                    return Err(null_cell_of("transaction_hash", "Transaction"));
                },
            };
            let trader_address = match &trader_addresses[i] {
                Some(s) => s.clone(),
                None => {
                    proof {
                        df.lemma_first_bad_row(i as int);
                    }
                    return Err(null_cell_of("trader_address", "Transaction"));
                },
            };
            let token_id = match &token_ids[i] {
                Some(s) => s.clone(),
                None => {
                    proof {
                        df.lemma_first_bad_row(i as int);
                    }
                    return Err(null_cell_of("token_id", "Transaction"));
                },
            };
            let side = match &sides[i] {
                Some(s) => s.clone(),
                None => {
                    proof {
                        df.lemma_first_bad_row(i as int);
                    }
                    return Err(null_cell_of("side", "Transaction"));
                },
            };
            let action = match &actions[i] {
                Some(s) => s.clone(),
                None => {
                    proof {
                        df.lemma_first_bad_row(i as int);
                    }
                    return Err(null_cell_of("action", "Transaction"));
                },
            };
            let shares_v = match &shares[i] {
                Some(v) => *v,
                None => {
                    proof {
                        df.lemma_first_bad_row(i as int);
                    }
                    return Err(null_cell_of("shares", "Transaction"));
                },
            };
            let usdc_v = match &usdc_amounts[i] {
                Some(v) => *v,
                None => {
                    proof {
                        df.lemma_first_bad_row(i as int);
                    }
                    return Err(null_cell_of("usdc_amount", "Transaction"));
                },
            };
            let market_id = match &market_ids[i] {
                Some(s) => s.clone(),
                None => {
                    proof {
                        df.lemma_first_bad_row(i as int);
                    }
                    return Err(null_cell_of("market_id", "Transaction"));
                },
            };
            if !(string_is(&action, "BUY") || string_is(&action, "SELL")) {
                proof {
                    df.lemma_first_bad_row(i as int);
                }
                return Err(
                    AppError::Normalization(
                        NormalizationError::ValidationFailed {
                            entity_type: "Transaction".to_owned(),
                            entity_id: transaction_hash,
                            reason: "action must be BUY or SELL".to_owned(),
                        },
                    ),
                );
            }
            transactions.push(
                Transaction {
                    block_number,
                    transaction_hash,
                    trader_address,
                    token_id,
                    side,
                    action,
                    shares: shares_v,
                    usdc_amount: usdc_v,
                    market_id,
                },
            );
            i += 1;
        }
        Ok(transactions)
    }
}

/// Law: an empty table always standardizes — standardizing it yields the
/// empty list, never an error — whatever columns it has or lacks.
pub proof fn lemma_empty_trader_table_standardizes(df: TraderTable)
    requires
        df.height == 0,
    ensures
        df.standardizes(),
{
}

/// Law: an empty table always standardizes — standardizing it yields the
/// empty list, never an error — whatever columns it has or lacks.
pub proof fn lemma_empty_position_table_standardizes(df: PositionTable)
    requires
        df.height == 0,
    ensures
        df.standardizes(),
{
}

/// Law: an empty table always standardizes — standardizing it yields the
/// empty list, never an error — whatever columns it has or lacks.
pub proof fn lemma_empty_transaction_table_standardizes(df: TransactionTable)
    requires
        df.height == 0,
    ensures
        df.standardizes(),
{
}

/// Law (round trip): a fully populated, invariant-respecting row of the
/// `traders` table standardizes to a trader whose fields equal the row's
/// cells exactly, and the trader is well-formed.
pub proof fn lemma_trader_round_trip(df: TraderTable, i: int)
    requires
        df.cols_present(),
        0 <= i < df.height,
        df.row_ok(i),
    ensures
        df.trader_at(i).trader_address == df.trader_address.unwrap()@[i].unwrap(),
        df.trader_at(i).total_markets_entered == df.total_markets_entered.unwrap()@[i].unwrap(),
        df.trader_at(i).total_markets_resolved == df.total_markets_resolved.unwrap()@[i].unwrap(),
        df.trader_at(i).total_wins == df.total_wins.unwrap()@[i].unwrap(),
        df.trader_at(i).accuracy == df.accuracy.unwrap()@[i].unwrap(),
        df.trader_at(i).total_invested == df.total_invested.unwrap()@[i].unwrap(),
        df.trader_at(i).total_returned == df.total_returned.unwrap()@[i].unwrap(),
        df.trader_at(i).roi == df.roi.unwrap()@[i].unwrap(),
        df.trader_at(i).wf(),
{
}

/// Law (round trip): a fully populated, invariant-respecting row of the
/// `positions` table standardizes to a position whose fields equal the
/// row's cells exactly, and the position is well-formed.
pub proof fn lemma_position_round_trip(df: PositionTable, i: int)
    requires
        df.cols_present(),
        0 <= i < df.height,
        df.row_ok(i),
    ensures
        df.position_at(i).trader_address == df.trader_address.unwrap()@[i].unwrap(),
        df.position_at(i).token_id == df.token_id.unwrap()@[i].unwrap(),
        df.position_at(i).market_id == df.market_id.unwrap()@[i].unwrap(),
        df.position_at(i).side == df.side.unwrap()@[i].unwrap(),
        df.position_at(i).shares_held == df.shares_held.unwrap()@[i].unwrap(),
        df.position_at(i).avg_entry_price == df.avg_entry_price.unwrap()@[i].unwrap(),
        df.position_at(i).first_entry_block == (match df.first_entry_block {
            Some(c) => c@[i],
            None => None,
        }),
        df.position_at(i).wf(),
{
}

/// Law (round trip): a fully populated, invariant-respecting row of the
/// `transactions` table standardizes to a transaction whose fields equal
/// the row's cells exactly, and the transaction is well-formed.
pub proof fn lemma_transaction_round_trip(df: TransactionTable, i: int)
    requires
        df.cols_present(),
        0 <= i < df.height,
        df.row_ok(i),
    ensures
        df.transaction_at(i).block_number == df.block_number.unwrap()@[i].unwrap(),
        df.transaction_at(i).transaction_hash == df.transaction_hash.unwrap()@[i].unwrap(),
        df.transaction_at(i).trader_address == df.trader_address.unwrap()@[i].unwrap(),
        df.transaction_at(i).token_id == df.token_id.unwrap()@[i].unwrap(),
        df.transaction_at(i).side == df.side.unwrap()@[i].unwrap(),
        df.transaction_at(i).action == df.action.unwrap()@[i].unwrap(),
        df.transaction_at(i).shares == df.shares.unwrap()@[i].unwrap(),
        df.transaction_at(i).usdc_amount == df.usdc_amount.unwrap()@[i].unwrap(),
        df.transaction_at(i).market_id == df.market_id.unwrap()@[i].unwrap(),
        df.transaction_at(i).wf(),
{
}

} // verus!
