//! The standardized entity model shared by every data source.
//!
//! All entities are immutable value objects, constructed once per fetch by a
//! standardizer and owned by the caller that requested them.
//!
//! Monetary and share quantities (volumes, liquidity, prices, shares, USDC
//! amounts, ratios) are carried as signed fixed-point integers with six
//! decimal places: a field value of `1_000_000` stands for `1.0` in the
//! source's units. The adapters at the I/O edge convert the sources' native
//! numeric representation into this form before anything here sees it.

use vstd::prelude::*;

verus! {

/// A set of related markets aggregated under one topic.
#[derive(Debug, Clone, PartialEq, Eq)]
pub struct MarketGroup {
    pub slug: String,
    pub title: String,
    pub active: bool,
    pub closed: bool,
    /// Total volume over all sub-markets, fixed-point, non-negative.
    pub volume: i64,
    /// Total liquidity over all sub-markets, fixed-point, non-negative.
    pub liquidity: i64,
    /// Ordered sequence of sub-markets; may legitimately be empty.
    pub markets: Vec<Market>,
}

/// One binary-outcome contract.
#[derive(Debug, Clone, PartialEq, Eq)]
pub struct Market {
    pub question: String,
    pub condition_id: String,
    pub slug: String,
    /// Exactly two outcome labels.
    pub outcomes: Vec<String>,
    /// Exactly two outcome price strings, kept verbatim from the source to
    /// preserve precision.
    pub outcome_prices: Vec<String>,
    /// Token identifier of the YES outcome; non-empty.
    pub yes_token_id: String,
    /// Token identifier of the NO outcome; non-empty.
    pub no_token_id: String,
    pub active: bool,
    pub closed: bool,
    /// All-time volume, fixed-point, non-negative.
    pub volume: i64,
    pub volume_24h: i64,
    pub volume_1w: i64,
    pub volume_1m: i64,
    pub volume_1y: i64,
    /// Liquidity, fixed-point, non-negative.
    pub liquidity: i64,
    /// Competitiveness score, fixed-point.
    pub competitive: i64,
    pub last_trade_price: i64,
    pub bid_price: i64,
    pub ask_price: i64,
}

/// Aggregated performance statistics for one trader address.
#[derive(Debug, Clone, PartialEq, Eq)]
pub struct Trader {
    /// Unique key within a result set.
    pub trader_address: String,
    pub total_markets_entered: u32,
    pub total_markets_resolved: u32,
    pub total_wins: u32,
    /// Accuracy ratio, fixed-point.
    pub accuracy: i64,
    pub total_invested: i64,
    pub total_returned: i64,
    /// Return on investment, fixed-point.
    pub roi: i64,
}

/// One trader's current stake in one market outcome.
#[derive(Debug, Clone, PartialEq, Eq)]
pub struct Position {
    pub trader_address: String,
    pub token_id: String,
    /// Condition id of the market this position references.
    pub market_id: String,
    /// Exactly "YES" or "NO".
    pub side: String,
    /// Shares held, fixed-point, non-negative.
    pub shares_held: i64,
    pub avg_entry_price: i64,
    /// Block number of the first entry, when the source records it.
    pub first_entry_block: Option<u64>,
}

/// One historical trade event.
#[derive(Debug, Clone, PartialEq, Eq)]
pub struct Transaction {
    pub block_number: u64,
    pub transaction_hash: String,
    pub trader_address: String,
    pub token_id: String,
    pub side: String,
    /// Exactly "BUY" or "SELL".
    pub action: String,
    pub shares: i64,
    pub usdc_amount: i64,
    pub market_id: String,
}

/// A resolved market, as recorded by the local store.
#[derive(Debug, Clone, PartialEq, Eq)]
pub struct MarketResolution {
    pub condition_id: String,
    pub outcome: String,
    pub resolution_block: u64,
    pub yes_token_id: String,
    pub no_token_id: String,
}

impl Market {
    /// Well-formedness: the invariants every standardized market satisfies.
    pub open spec fn wf(self) -> bool {
        &&& self.outcomes@.len() == 2
        &&& self.outcome_prices@.len() == 2
        &&& self.yes_token_id@.len() > 0
        &&& self.no_token_id@.len() > 0
        &&& self.question@.len() > 0
        &&& self.condition_id@.len() > 0
        &&& self.volume >= 0
        &&& self.liquidity >= 0
    }
}

impl MarketGroup {
    /// Well-formedness: non-negative totals and well-formed sub-markets.
    pub open spec fn wf(self) -> bool {
        &&& self.volume >= 0
        &&& self.liquidity >= 0
        &&& forall|i: int| 0 <= i < self.markets@.len() ==> (#[trigger] self.markets@[i]).wf()
    }
}

impl Trader {
    /// Well-formedness: wins never exceed resolved markets, which never
    /// exceed entered markets.
    pub open spec fn wf(self) -> bool {
        &&& self.total_wins <= self.total_markets_resolved
        &&& self.total_markets_resolved <= self.total_markets_entered
    }
}

impl Position {
    /// Well-formedness: the side names one of the two outcomes and the stake
    /// is non-negative.
    pub open spec fn wf(self) -> bool {
        &&& self.side@ == "YES"@ || self.side@ == "NO"@
        &&& self.shares_held >= 0
    }
}

impl Transaction {
    /// Well-formedness: the action is one of exactly two values.
    pub open spec fn wf(self) -> bool {
        self.action@ == "BUY"@ || self.action@ == "SELL"@
    }
}

} // verus!
