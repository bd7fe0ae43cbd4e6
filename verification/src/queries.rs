//! Row selection over the local store's tables: the query logic behind the
//! trader, position and transaction lookups.
//!
//! Each filter keeps the matching rows of its table, in order, dropping rows
//! whose filtered cell is null (a comparison with a null never matches). A
//! filter on a column the table does not have is an error naming the column.

use vstd::prelude::*;

use crate::errors::AppError;
use crate::models::Position;
use crate::tables::{
    is_missing_col_err, missing_col_in, string_is, PositionTable, TraderTable, TransactionTable,
};

verus! {

/// Whether row `i` of the traders table matches a minimum-resolved filter.
pub open spec fn trader_min_match(t: TraderTable, min: u32, i: int) -> bool {
    t.total_markets_resolved.unwrap()@[i] matches Some(v) && v >= min
}

/// Whether row `i` of the traders table matches an address-list filter.
pub open spec fn trader_addr_match(t: TraderTable, addrs: Seq<Seq<char>>, i: int) -> bool {
    t.trader_address.unwrap()@[i] matches Some(a) && addrs.contains(a@)
}

/// Whether row `i` of the positions table belongs to a market.
pub open spec fn position_market_match(t: PositionTable, market: Seq<char>, i: int) -> bool {
    t.market_id.unwrap()@[i] matches Some(m) && m@ == market
}

/// Whether row `i` of the transactions table belongs to a market.
pub open spec fn transaction_market_match(t: TransactionTable, market: Seq<char>, i: int) -> bool {
    t.market_id.unwrap()@[i] matches Some(m) && m@ == market
}

/// The rows of the traders table, from `i` on, that match a
/// minimum-resolved filter, in order.
pub open spec fn sel_traders_min(t: TraderTable, min: u32, i: int) -> Seq<int>
    decreases t.height - i,
{
    if i < 0 || i >= t.height {
        Seq::empty()
    } else if trader_min_match(t, min, i) {
        seq![i] + sel_traders_min(t, min, i + 1)
    } else {
        sel_traders_min(t, min, i + 1)
    }
}

/// The rows of the traders table, from `i` on, that match an address-list
/// filter, in order.
pub open spec fn sel_traders_addrs(t: TraderTable, addrs: Seq<Seq<char>>, i: int) -> Seq<int>
    decreases t.height - i,
{
    if i < 0 || i >= t.height {
        Seq::empty()
    } else if trader_addr_match(t, addrs, i) {
        seq![i] + sel_traders_addrs(t, addrs, i + 1)
    } else {
        sel_traders_addrs(t, addrs, i + 1)
    }
}

/// The rows of the positions table, from `i` on, that belong to a market.
pub open spec fn sel_positions(t: PositionTable, market: Seq<char>, i: int) -> Seq<int>
    decreases t.height - i,
{
    if i < 0 || i >= t.height {
        Seq::empty()
    } else if position_market_match(t, market, i) {
        seq![i] + sel_positions(t, market, i + 1)
    } else {
        sel_positions(t, market, i + 1)
    }
}

/// The rows of the transactions table, from `i` on, that belong to a market.
pub open spec fn sel_transactions(t: TransactionTable, market: Seq<char>, i: int) -> Seq<int>
    decreases t.height - i,
{
    if i < 0 || i >= t.height {
        Seq::empty()
    } else if transaction_market_match(t, market, i) {
        seq![i] + sel_transactions(t, market, i + 1)
    } else {
        sel_transactions(t, market, i + 1)
    }
}

/// An optional column and its selection at a row-index list: absent stays
/// absent, present is gathered row by row.
pub open spec fn col_selected<T>(
    src: Option<Vec<Option<T>>>,
    out: Option<Vec<Option<T>>>,
    ks: Seq<int>,
) -> bool {
    match src {
        None => out is None,
        Some(c) => out matches Some(o) && o@.len() == ks.len() && (forall|j: int|
            0 <= j < ks.len() ==> #[trigger] o@[j] == c@[ks[j]]),
    }
}

fn gather_str(col: &Vec<Option<String>>, ks: &Vec<usize>) -> (out: Vec<Option<String>>)
    requires
        forall|j: int| 0 <= j < ks@.len() ==> #[trigger] ks@[j] < col@.len(),
    ensures
        out@.len() == ks@.len(),
        forall|j: int| 0 <= j < ks@.len() ==> #[trigger] out@[j] == col@[ks@[j] as int],
{
    let mut out: Vec<Option<String>> = Vec::new();
    let mut j: usize = 0;
    while j < ks.len()
        invariant
            j <= ks@.len(),
            out@.len() == j,
            forall|l: int| 0 <= l < ks@.len() ==> #[trigger] ks@[l] < col@.len(),
            forall|l: int| 0 <= l < j ==> #[trigger] out@[l] == col@[ks@[l] as int],
        decreases ks@.len() - j,
    {
        let cell = match &col[ks[j]] {
            Some(s) => Some(s.clone()),
            None => None,
        };
        out.push(cell);
        j += 1;
    }
    out
}

fn gather_u32(col: &Vec<Option<u32>>, ks: &Vec<usize>) -> (out: Vec<Option<u32>>)
    requires
        forall|j: int| 0 <= j < ks@.len() ==> #[trigger] ks@[j] < col@.len(),
    ensures
        out@.len() == ks@.len(),
        forall|j: int| 0 <= j < ks@.len() ==> #[trigger] out@[j] == col@[ks@[j] as int],
{
    let mut out: Vec<Option<u32>> = Vec::new();
    let mut j: usize = 0;
    while j < ks.len()
        invariant
            j <= ks@.len(),
            out@.len() == j,
            forall|l: int| 0 <= l < ks@.len() ==> #[trigger] ks@[l] < col@.len(),
            forall|l: int| 0 <= l < j ==> #[trigger] out@[l] == col@[ks@[l] as int],
        decreases ks@.len() - j,
    {
        let cell = match &col[ks[j]] {
            Some(v) => Some(*v),
            None => None,
        };
        out.push(cell);
        j += 1;
    }
    out
}

fn gather_u64(col: &Vec<Option<u64>>, ks: &Vec<usize>) -> (out: Vec<Option<u64>>)
    requires
        forall|j: int| 0 <= j < ks@.len() ==> #[trigger] ks@[j] < col@.len(),
    ensures
        out@.len() == ks@.len(),
        forall|j: int| 0 <= j < ks@.len() ==> #[trigger] out@[j] == col@[ks@[j] as int],
{
    let mut out: Vec<Option<u64>> = Vec::new();
    let mut j: usize = 0;
    while j < ks.len()
        invariant
            j <= ks@.len(),
            out@.len() == j,
            forall|l: int| 0 <= l < ks@.len() ==> #[trigger] ks@[l] < col@.len(),
            forall|l: int| 0 <= l < j ==> #[trigger] out@[l] == col@[ks@[l] as int],
        decreases ks@.len() - j,
    {
        let cell = match &col[ks[j]] {
            Some(v) => Some(*v),
            None => None,
        };
        out.push(cell);
        j += 1;
    }
    out
}

fn gather_i64(col: &Vec<Option<i64>>, ks: &Vec<usize>) -> (out: Vec<Option<i64>>)
    requires
        forall|j: int| 0 <= j < ks@.len() ==> #[trigger] ks@[j] < col@.len(),
    ensures
        out@.len() == ks@.len(),
        forall|j: int| 0 <= j < ks@.len() ==> #[trigger] out@[j] == col@[ks@[j] as int],
{
    let mut out: Vec<Option<i64>> = Vec::new();
    let mut j: usize = 0;
    while j < ks.len()
        invariant
            j <= ks@.len(),
            out@.len() == j,
            forall|l: int| 0 <= l < ks@.len() ==> #[trigger] ks@[l] < col@.len(),
            forall|l: int| 0 <= l < j ==> #[trigger] out@[l] == col@[ks@[l] as int],
        decreases ks@.len() - j,
    {
        let cell = match &col[ks[j]] {
            Some(v) => Some(*v),
            None => None,
        };
        out.push(cell);
        j += 1;
    }
    out
}

fn gather_opt_col_str(
    col: &Option<Vec<Option<String>>>,
    ks: &Vec<usize>,
    height: usize,
) -> (out: Option<Vec<Option<String>>>)
    requires
        (col matches Some(c) ==> c@.len() == height),
        forall|j: int| 0 <= j < ks@.len() ==> #[trigger] ks@[j] < height,
    ensures
        col_selected(*col, out, ks@.map_values(|k: usize| k as int)),
{
    let r = match col {
        Some(c) => Some(gather_str(c, ks)),
        None => None,
    };
    proof {
        let ksm = ks@.map_values(|k: usize| k as int);
        assert(ksm.len() == ks@.len());
        assert(forall|j: int| 0 <= j < ksm.len() ==> #[trigger] ksm[j] == ks@[j] as int);
    }
    r
}

fn gather_opt_col_u32(
    col: &Option<Vec<Option<u32>>>,
    ks: &Vec<usize>,
    height: usize,
) -> (out: Option<Vec<Option<u32>>>)
    requires
        (col matches Some(c) ==> c@.len() == height),
        forall|j: int| 0 <= j < ks@.len() ==> #[trigger] ks@[j] < height,
    ensures
        col_selected(*col, out, ks@.map_values(|k: usize| k as int)),
{
    let r = match col {
        Some(c) => Some(gather_u32(c, ks)),
        None => None,
    };
    proof {
        let ksm = ks@.map_values(|k: usize| k as int);
        assert(ksm.len() == ks@.len());
        assert(forall|j: int| 0 <= j < ksm.len() ==> #[trigger] ksm[j] == ks@[j] as int);
    }
    r
}

fn gather_opt_col_u64(
    col: &Option<Vec<Option<u64>>>,
    ks: &Vec<usize>,
    height: usize,
) -> (out: Option<Vec<Option<u64>>>)
    requires
        (col matches Some(c) ==> c@.len() == height),
        forall|j: int| 0 <= j < ks@.len() ==> #[trigger] ks@[j] < height,
    ensures
        col_selected(*col, out, ks@.map_values(|k: usize| k as int)),
{
    let r = match col {
        Some(c) => Some(gather_u64(c, ks)),
        None => None,
    };
    proof {
        let ksm = ks@.map_values(|k: usize| k as int);
        assert(ksm.len() == ks@.len());
        assert(forall|j: int| 0 <= j < ksm.len() ==> #[trigger] ksm[j] == ks@[j] as int);
    }
    r
}

fn gather_opt_col_i64(
    col: &Option<Vec<Option<i64>>>,
    ks: &Vec<usize>,
    height: usize,
) -> (out: Option<Vec<Option<i64>>>)
    requires
        (col matches Some(c) ==> c@.len() == height),
        forall|j: int| 0 <= j < ks@.len() ==> #[trigger] ks@[j] < height,
    ensures
        col_selected(*col, out, ks@.map_values(|k: usize| k as int)),
{
    let r = match col {
        Some(c) => Some(gather_i64(c, ks)),
        None => None,
    };
    proof {
        let ksm = ks@.map_values(|k: usize| k as int);
        assert(ksm.len() == ks@.len());
        assert(forall|j: int| 0 <= j < ksm.len() ==> #[trigger] ksm[j] == ks@[j] as int);
    }
    r
}

fn contains_string(addrs: &Vec<String>, s: &String) -> (r: bool)
    ensures
        r == addrs.deep_view().contains(s@),
{
    let mut j: usize = 0;
    while j < addrs.len()
        invariant
            j <= addrs@.len(),
            forall|l: int| 0 <= l < j ==> #[trigger] addrs@[l]@ != s@,
        decreases addrs@.len() - j,
    {
        if addrs[j].eq(s) {
            proof {
                assert(addrs.deep_view()[j as int] == s@);
            }
            return true;
        }
        j += 1;
    }
    proof {
        assert forall|l: int| 0 <= l < addrs.deep_view().len() implies #[trigger] addrs.deep_view()[l]
            != s@ by {
            assert(addrs@[l]@ != s@);
        }
    }
    false
}

/// Select the rows of the traders table whose resolved-market count is at
/// least `min_resolved`; rows with a null count are dropped. The filtered
/// column must exist in the table's schema.
pub fn filter_traders_by_min_resolved(t: &TraderTable, min_resolved: u32) -> (r: Result<
    TraderTable,
    AppError,
>)
    requires
        t.wf(),
    ensures
        r is Ok <==> t.total_markets_resolved is Some,
        r matches Err(e) ==> is_missing_col_err(e, "total_markets_resolved"@, "traders"@),
        r matches Ok(ft) ==> {
            let ks = sel_traders_min(*t, min_resolved, 0);
            &&& ft.wf()
            &&& ft.height == ks.len()
            &&& col_selected(t.trader_address, ft.trader_address, ks)
            &&& col_selected(t.total_markets_entered, ft.total_markets_entered, ks)
            &&& col_selected(t.total_markets_resolved, ft.total_markets_resolved, ks)
            &&& col_selected(t.total_wins, ft.total_wins, ks)
            &&& col_selected(t.accuracy, ft.accuracy, ks)
            &&& col_selected(t.total_invested, ft.total_invested, ks)
            &&& col_selected(t.total_returned, ft.total_returned, ks)
            &&& col_selected(t.roi, ft.roi, ks)
        },
{
    let resolved = match &t.total_markets_resolved {
        Some(c) => c,
        None => {
            return Err(missing_col_in("total_markets_resolved", "traders"));
        },
    };
    let mut ks: Vec<usize> = Vec::new();
    let mut i: usize = 0;
    while i < t.height
        invariant
            i <= t.height,
            t.wf(),
            t.total_markets_resolved is Some,
            resolved == t.total_markets_resolved.unwrap(),
            forall|j: int| 0 <= j < ks@.len() ==> #[trigger] ks@[j] < t.height,
            sel_traders_min(*t, min_resolved, 0) =~= ks@.map_values(|k: usize| k as int)
                + sel_traders_min(*t, min_resolved, i as int),
        decreases t.height - i,
    {
        let keep = match &resolved[i] {
            Some(v) => *v >= min_resolved,
            None => false,
        };
        let ghost ks_old = ks@;
        if keep {
            ks.push(i);
        }
        proof {
            if keep {
                assert(ks@.map_values(|k: usize| k as int) =~= ks_old.map_values(
                    |k: usize| k as int,
                ) + seq![i as int]);
            }
        }
        i += 1;
    }
    proof {
        assert(sel_traders_min(*t, min_resolved, 0) =~= ks@.map_values(|k: usize| k as int));
    }
    Ok(
        TraderTable {
            height: ks.len(),
            trader_address: gather_opt_col_str(&t.trader_address, &ks, t.height),
            total_markets_entered: gather_opt_col_u32(&t.total_markets_entered, &ks, t.height),
            total_markets_resolved: gather_opt_col_u32(&t.total_markets_resolved, &ks, t.height),
            total_wins: gather_opt_col_u32(&t.total_wins, &ks, t.height),
            accuracy: gather_opt_col_i64(&t.accuracy, &ks, t.height),
            total_invested: gather_opt_col_i64(&t.total_invested, &ks, t.height),
            total_returned: gather_opt_col_i64(&t.total_returned, &ks, t.height),
            roi: gather_opt_col_i64(&t.roi, &ks, t.height),
        },
    )
}

/// Select the rows of the traders table whose address is in the given list;
/// rows with a null address are dropped. An empty address list selects
/// nothing at all — no query that matches everything is ever issued — and
/// succeeds whatever the table's schema.
pub fn filter_traders_by_addresses(t: &TraderTable, addresses: &Vec<String>) -> (r: Result<
    TraderTable,
    AppError,
>)
    requires
        t.wf(),
    ensures
        r is Ok <==> (addresses@.len() == 0 || t.trader_address is Some),
        addresses@.len() == 0 ==> (r matches Ok(ft) && ft.height == 0 && ft.wf()),
        r matches Err(e) ==> is_missing_col_err(e, "trader_address"@, "traders"@),
        addresses@.len() > 0 ==> (r matches Ok(ft) ==> {
            let ks = sel_traders_addrs(*t, addresses.deep_view(), 0);
            &&& ft.wf()
            &&& ft.height == ks.len()
            &&& col_selected(t.trader_address, ft.trader_address, ks)
            &&& col_selected(t.total_markets_entered, ft.total_markets_entered, ks)
            &&& col_selected(t.total_markets_resolved, ft.total_markets_resolved, ks)
            &&& col_selected(t.total_wins, ft.total_wins, ks)
            &&& col_selected(t.accuracy, ft.accuracy, ks)
            &&& col_selected(t.total_invested, ft.total_invested, ks)
            &&& col_selected(t.total_returned, ft.total_returned, ks)
            &&& col_selected(t.roi, ft.roi, ks)
        }),
{
    let empty_ks: Vec<usize> = Vec::new();
    if addresses.len() == 0 {
        return Ok(
            TraderTable {
                height: 0,
                trader_address: gather_opt_col_str(&t.trader_address, &empty_ks, t.height),
                total_markets_entered: gather_opt_col_u32(
                    &t.total_markets_entered,
                    &empty_ks,
                    t.height,
                ),
                total_markets_resolved: gather_opt_col_u32(
                    &t.total_markets_resolved,
                    &empty_ks,
                    t.height,
                ),
                total_wins: gather_opt_col_u32(&t.total_wins, &empty_ks, t.height),
                accuracy: gather_opt_col_i64(&t.accuracy, &empty_ks, t.height),
                total_invested: gather_opt_col_i64(&t.total_invested, &empty_ks, t.height),
                total_returned: gather_opt_col_i64(&t.total_returned, &empty_ks, t.height),
                roi: gather_opt_col_i64(&t.roi, &empty_ks, t.height),
            },
        );
    }
    let addr_col = match &t.trader_address {
        Some(c) => c,
        None => {
            return Err(missing_col_in("trader_address", "traders"));
        },
    };
    let mut ks: Vec<usize> = Vec::new();
    let mut i: usize = 0;
    while i < t.height
        invariant
            i <= t.height,
            t.wf(),
            t.trader_address is Some,
            addr_col == t.trader_address.unwrap(),
            forall|j: int| 0 <= j < ks@.len() ==> #[trigger] ks@[j] < t.height,
            sel_traders_addrs(*t, addresses.deep_view(), 0) =~= ks@.map_values(
                |k: usize| k as int,
            ) + sel_traders_addrs(*t, addresses.deep_view(), i as int),
        decreases t.height - i,
    {
        let keep = match &addr_col[i] {
            Some(a) => contains_string(addresses, a),
            None => false,
        };
        let ghost ks_old = ks@;
        if keep {
            ks.push(i);
        }
        proof {
            if keep {
                assert(ks@.map_values(|k: usize| k as int) =~= ks_old.map_values(
                    |k: usize| k as int,
                ) + seq![i as int]);
            }
        }
        i += 1;
    }
    proof {
        assert(sel_traders_addrs(*t, addresses.deep_view(), 0) =~= ks@.map_values(
            |k: usize| k as int,
        ));
    }
    Ok(
        TraderTable {
            height: ks.len(),
            trader_address: gather_opt_col_str(&t.trader_address, &ks, t.height),
            total_markets_entered: gather_opt_col_u32(&t.total_markets_entered, &ks, t.height),
            total_markets_resolved: gather_opt_col_u32(&t.total_markets_resolved, &ks, t.height),
            total_wins: gather_opt_col_u32(&t.total_wins, &ks, t.height),
            accuracy: gather_opt_col_i64(&t.accuracy, &ks, t.height),
            total_invested: gather_opt_col_i64(&t.total_invested, &ks, t.height),
            total_returned: gather_opt_col_i64(&t.total_returned, &ks, t.height),
            roi: gather_opt_col_i64(&t.roi, &ks, t.height),
        },
    )
}

/// Select the rows of the positions table that belong to one market; rows
/// with a null market id are dropped.
pub fn filter_positions_by_market(t: &PositionTable, condition_id: &str) -> (r: Result<
    PositionTable,
    AppError,
>)
    requires
        t.wf(),
    ensures
        r is Ok <==> t.market_id is Some,
        r matches Err(e) ==> is_missing_col_err(e, "market_id"@, "positions"@),
        r matches Ok(ft) ==> {
            let ks = sel_positions(*t, condition_id@, 0);
            &&& ft.wf()
            &&& ft.height == ks.len()
            &&& col_selected(t.trader_address, ft.trader_address, ks)
            &&& col_selected(t.token_id, ft.token_id, ks)
            &&& col_selected(t.market_id, ft.market_id, ks)
            &&& col_selected(t.side, ft.side, ks)
            &&& col_selected(t.shares_held, ft.shares_held, ks)
            &&& col_selected(t.avg_entry_price, ft.avg_entry_price, ks)
            &&& col_selected(t.first_entry_block, ft.first_entry_block, ks)
        },
{
    let market_col = match &t.market_id {
        Some(c) => c,
        None => {
            return Err(missing_col_in("market_id", "positions"));
        },
    };
    let mut ks: Vec<usize> = Vec::new();
    let mut i: usize = 0;
    while i < t.height
        invariant
            i <= t.height,
            t.wf(),
            t.market_id is Some,
            market_col == t.market_id.unwrap(),
            forall|j: int| 0 <= j < ks@.len() ==> #[trigger] ks@[j] < t.height,
            sel_positions(*t, condition_id@, 0) =~= ks@.map_values(|k: usize| k as int)
                + sel_positions(*t, condition_id@, i as int),
        decreases t.height - i,
    {
        let keep = match &market_col[i] {
            Some(m) => string_is(m, condition_id),
            None => false,
        };
        let ghost ks_old = ks@;
        if keep {
            ks.push(i);
        }
        proof {
            if keep {
                assert(ks@.map_values(|k: usize| k as int) =~= ks_old.map_values(
                    |k: usize| k as int,
                ) + seq![i as int]);
            }
        }
        i += 1;
    }
    proof {
        assert(sel_positions(*t, condition_id@, 0) =~= ks@.map_values(|k: usize| k as int));
    }
    Ok(
        PositionTable {
            height: ks.len(),
            trader_address: gather_opt_col_str(&t.trader_address, &ks, t.height),
            token_id: gather_opt_col_str(&t.token_id, &ks, t.height),
            market_id: gather_opt_col_str(&t.market_id, &ks, t.height),
            side: gather_opt_col_str(&t.side, &ks, t.height),
            shares_held: gather_opt_col_i64(&t.shares_held, &ks, t.height),
            avg_entry_price: gather_opt_col_i64(&t.avg_entry_price, &ks, t.height),
            first_entry_block: gather_opt_col_u64(&t.first_entry_block, &ks, t.height),
        },
    )
}

/// Select the rows of the transactions table that belong to one market; rows
/// with a null market id are dropped. The lookback window is accepted but
/// not applied as a time filter: the store records no per-trade timestamp
/// yet, so all matching rows are returned whatever the window.
pub fn filter_transactions_by_market(
    t: &TransactionTable,
    condition_id: &str,
    _days_back: u32,
) -> (r: Result<TransactionTable, AppError>)
    requires
        t.wf(),
    ensures
        r is Ok <==> t.market_id is Some,
        r matches Err(e) ==> is_missing_col_err(e, "market_id"@, "transactions"@),
        r matches Ok(ft) ==> {
            let ks = sel_transactions(*t, condition_id@, 0);
            &&& ft.wf()
            &&& ft.height == ks.len()
            &&& col_selected(t.block_number, ft.block_number, ks)
            &&& col_selected(t.transaction_hash, ft.transaction_hash, ks)
            &&& col_selected(t.trader_address, ft.trader_address, ks)
            &&& col_selected(t.token_id, ft.token_id, ks)
            &&& col_selected(t.side, ft.side, ks)
            &&& col_selected(t.action, ft.action, ks)
            &&& col_selected(t.shares, ft.shares, ks)
            &&& col_selected(t.usdc_amount, ft.usdc_amount, ks)
            &&& col_selected(t.market_id, ft.market_id, ks)
        },
{
    let market_col = match &t.market_id {
        Some(c) => c,
        None => {
            return Err(missing_col_in("market_id", "transactions"));
        },
    };
    let mut ks: Vec<usize> = Vec::new();
    let mut i: usize = 0;
    while i < t.height
        invariant
            i <= t.height,
            t.wf(),
            t.market_id is Some,
            market_col == t.market_id.unwrap(),
            forall|j: int| 0 <= j < ks@.len() ==> #[trigger] ks@[j] < t.height,
            sel_transactions(*t, condition_id@, 0) =~= ks@.map_values(|k: usize| k as int)
                + sel_transactions(*t, condition_id@, i as int),
        decreases t.height - i,
    {
        let keep = match &market_col[i] {
            Some(m) => string_is(m, condition_id),
            None => false,
        };
        let ghost ks_old = ks@;
        if keep {
            ks.push(i);
        }
        proof {
            if keep {
                assert(ks@.map_values(|k: usize| k as int) =~= ks_old.map_values(
                    |k: usize| k as int,
                ) + seq![i as int]);
            }
        }
        i += 1;
    }
    proof {
        assert(sel_transactions(*t, condition_id@, 0) =~= ks@.map_values(|k: usize| k as int));
    }
    Ok(
        TransactionTable {
            height: ks.len(),
            block_number: gather_opt_col_u64(&t.block_number, &ks, t.height),
            transaction_hash: gather_opt_col_str(&t.transaction_hash, &ks, t.height),
            trader_address: gather_opt_col_str(&t.trader_address, &ks, t.height),
            token_id: gather_opt_col_str(&t.token_id, &ks, t.height),
            side: gather_opt_col_str(&t.side, &ks, t.height),
            action: gather_opt_col_str(&t.action, &ks, t.height),
            shares: gather_opt_col_i64(&t.shares, &ks, t.height),
            usdc_amount: gather_opt_col_i64(&t.usdc_amount, &ks, t.height),
            market_id: gather_opt_col_str(&t.market_id, &ks, t.height),
        },
    )
}

/// The trader addresses appearing in a list of positions, in order, one per
/// position.
pub fn trader_addresses(positions: &Vec<Position>) -> (r: Vec<String>)
    ensures
        r@.len() == positions@.len(),
        forall|i: int| 0 <= i < positions@.len() ==> #[trigger] r@[i] == positions@[i].trader_address,
{
    let mut out: Vec<String> = Vec::new();
    let mut i: usize = 0;
    while i < positions.len()
        invariant
            i <= positions@.len(),
            out@.len() == i,
            forall|k: int| 0 <= k < i ==> #[trigger] out@[k] == positions@[k].trader_address,
        decreases positions@.len() - i,
    {
        out.push(positions[i].trader_address.clone());
        i += 1;
    }
    out
}

} // verus!
