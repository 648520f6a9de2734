//! What has to be priced to value the holdings over a range of dates.
//!
//! A holding is never priced before it was bought: over the range from `from`
//! to `to` it is priced at the later of `from` and its purchase date, and at
//! `to`. The prices themselves, and the sums over them, are the caller's.

use vstd::prelude::*;
use crate::holdings::Holdings;
use crate::utils::stock::{Position, Symbol, SYMBOL_COUNT};

verus! {

/// One holding, and the two dates at which it is priced.
#[derive(Debug, PartialEq, Eq, Clone, Copy, Structural)]
pub struct HoldingPeriod {
    pub symbol: Symbol,
    /// The number of units held over the whole period.
    pub quantity: u32,
    /// The date of the first price.
    pub start_date: u32,
    /// The date of the last price.
    pub end_date: u32,
}

/// The date from which a holding bought at `purchase_date` counts in a range
/// that starts at `from`: the later of the two.
pub open spec fn effective_start(from: u32, purchase_date: u32) -> u32 {
    if from < purchase_date {
        purchase_date
    } else {
        from
    }
}

/// The period over which `position` in `symbol` is priced in the range from
/// `from` to `to`.
pub open spec fn period_of(symbol: Symbol, position: Position, from: u32, to: u32) -> HoldingPeriod {
    HoldingPeriod {
        symbol,
        quantity: position.quantity,
        start_date: effective_start(from, position.purchase_date),
        end_date: to,
    }
}

/// The periods of the holdings whose symbols have a number below `n`, by
/// rising number.
pub open spec fn periods_below(h: Holdings, from: u32, to: u32, n: nat) -> Seq<HoldingPeriod>
    decreases n,
{
    if n == 0 {
        Seq::empty()
    } else {
        let earlier = periods_below(h, from, to, (n - 1) as nat);
        match Symbol::with_ordinal((n - 1) as u64) {
            Some(symbol) => if h.contains_key(symbol) {
                earlier.push(period_of(symbol, h[symbol], from, to))
            } else {
                earlier
            },
            None => earlier,
        }
    }
}

/// The periods of all holdings in the range from `from` to `to`; none at all
/// if the range ends before it starts.
pub open spec fn periods_of(h: Holdings, from: u32, to: u32) -> Option<Seq<HoldingPeriod>> {
    if from > to {
        None
    } else {
        Some(periods_below(h, from, to, SYMBOL_COUNT as nat))
    }
}

/// `periods` lists the holdings `h` for the range from `from` to `to`: each
/// entry is the period of a holding, the entries come by rising number of
/// their symbols (so none comes twice), and no holding among the symbols
/// numbered below `n` is left out.
pub open spec fn lists_holdings_below(
    periods: Seq<HoldingPeriod>,
    h: Holdings,
    from: u32,
    to: u32,
    n: nat,
) -> bool {
    &&& forall|i: int|
        0 <= i < periods.len() ==> {
            let p = #[trigger] periods[i];
            &&& h.contains_key(p.symbol)
            &&& p.symbol.ordinal_of() < n
            &&& p == period_of(p.symbol, h[p.symbol], from, to)
        }
    &&& forall|i: int, j: int|
        0 <= i < j < periods.len() ==> (#[trigger] periods[i]).symbol.ordinal_of() < (
        #[trigger] periods[j]).symbol.ordinal_of()
    &&& forall|s: Symbol|
        #[trigger] h.contains_key(s) && s.ordinal_of() < n ==> exists|i: int|
            0 <= i < periods.len() && (#[trigger] periods[i]).symbol == s
}

/// `periods` lists all the holdings `h` for the range from `from` to `to`.
pub open spec fn lists_holdings(periods: Seq<HoldingPeriod>, h: Holdings, from: u32, to: u32) -> bool {
    lists_holdings_below(periods, h, from, to, SYMBOL_COUNT as nat)
}

/// The later of `from` and `purchase_date`.
pub fn effective_start_date(from: u32, purchase_date: u32) -> (start: u32)
    ensures
        start == effective_start(from, purchase_date),
        start >= from,
        start >= purchase_date,
        start == from || start == purchase_date,
{
    if from < purchase_date {
        purchase_date
    } else {
        from
    }
}

/// The length in seconds of the range from `from` to `to`; `None` if the range
/// ends before it starts.
pub fn elapsed_seconds(from: u32, to: u32) -> (r: Option<u32>)
    ensures
        from > to ==> r is None,
        from <= to ==> r == Some((to - from) as u32),
{
    if from > to {
        None
    } else {
        Some(to - from)
    }
}

/// Every holding gets exactly one period, and nothing else gets one.
pub proof fn lemma_periods_list_holdings(h: Holdings, from: u32, to: u32, n: nat)
    requires
        n <= SYMBOL_COUNT,
    ensures
        lists_holdings_below(periods_below(h, from, to, n), h, from, to, n),
        periods_below(h, from, to, n).len() <= n,
    decreases n,
{
    if n > 0 {
        let earlier = periods_below(h, from, to, (n - 1) as nat);
        let periods = periods_below(h, from, to, n);
        lemma_periods_list_holdings(h, from, to, (n - 1) as nat);
        let symbol = Symbol::with_ordinal((n - 1) as u64).unwrap();
        assert(symbol.ordinal_of() == n - 1);
        assert forall|s: Symbol| #[trigger] h.contains_key(s) && s.ordinal_of() < n implies exists|
            i: int,
        |
            0 <= i < periods.len() && (#[trigger] periods[i]).symbol == s by {
            if s.ordinal_of() < n - 1 {
                let i = choose|i: int| 0 <= i < earlier.len() && (#[trigger] earlier[i]).symbol == s;
                assert(periods[i] == earlier[i]);
            } else {
                assert(s == symbol);
                assert(periods[periods.len() - 1].symbol == s);
            }
        }
        assert forall|i: int| 0 <= i < periods.len() implies ({
            let p = #[trigger] periods[i];
            &&& h.contains_key(p.symbol)
            &&& p.symbol.ordinal_of() < n
            &&& p == period_of(p.symbol, h[p.symbol], from, to)
        }) by {
            if i < earlier.len() {
                assert(periods[i] == earlier[i]);
            }
        }
        assert forall|i: int, j: int| 0 <= i < j < periods.len() implies (
        #[trigger] periods[i]).symbol.ordinal_of() < (#[trigger] periods[j]).symbol.ordinal_of() by {
            assert(periods[i] == earlier[i]);
            if j < earlier.len() {
                assert(periods[j] == earlier[j]);
            }
        }
    }
}

/// A holding bought inside the range, after its start, is priced from its
/// purchase date and not from the start of the range: its one period runs
/// from the purchase date to the end of the range, with the quantity held.
pub proof fn lemma_late_purchase_is_priced_from_purchase(
    h: Holdings,
    symbol: Symbol,
    from: u32,
    to: u32,
)
    requires
        h.contains_key(symbol),
        from < h[symbol].purchase_date <= to,
    ensures
        effective_start(from, h[symbol].purchase_date) == h[symbol].purchase_date,
        periods_of(h, from, to) is Some,
        ({
            let periods = periods_of(h, from, to).unwrap();
            exists|i: int|
                0 <= i < periods.len() && (#[trigger] periods[i]) == (HoldingPeriod {
                    symbol,
                    quantity: h[symbol].quantity,
                    start_date: h[symbol].purchase_date,
                    end_date: to,
                })
        }),
{
    let periods = periods_below(h, from, to, SYMBOL_COUNT as nat);
    lemma_periods_list_holdings(h, from, to, SYMBOL_COUNT as nat);
    assert(symbol.ordinal_of() < SYMBOL_COUNT);
    let i = choose|i: int| 0 <= i < periods.len() && (#[trigger] periods[i]).symbol == symbol;
    assert(periods[i] == period_of(symbol, h[symbol], from, to));
    assert(periods_of(h, from, to).unwrap()[i] == periods[i]);
}

} // verus!
