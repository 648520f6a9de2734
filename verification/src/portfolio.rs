//! The portfolio: an owner and the positions held.

use std::collections::HashMap;
use vstd::prelude::*;
use crate::error::PortfolioError;
use crate::holdings::{add_verdict, after_add, after_modify, lookup, modify_verdict, Holdings};
use crate::utils::stock::{Position, StockData, Symbol, SYMBOL_COUNT};
use crate::valuation::{
    effective_start_date, lemma_periods_list_holdings, lists_holdings, periods_below, periods_of,
    HoldingPeriod,
};

verus! {

broadcast use vstd::std_specs::hash::group_hash_axioms;

/// The positions of one owner, at most one per symbol.
///
/// The positions are kept under the symbols' numbers; the view reads them
/// back by symbol.
#[derive(Debug, Clone)]
pub struct Portfolio {
    owner: u32,
    portfolio: HashMap<u64, StockData>,
}

impl View for Portfolio {
    type V = Holdings;

    closed spec fn view(&self) -> Holdings {
        Map::new(
            |s: Symbol| self.portfolio@.contains_key(s.ordinal_of()),
            |s: Symbol| self.portfolio@[s.ordinal_of()]@,
        )
    }
}

impl Portfolio {
    /// The owner's identifier.
    pub closed spec fn owner_id(&self) -> u32 {
        self.owner
    }

    /// An empty portfolio for `owner`.
    pub fn new(owner: u32) -> (p: Self)
        ensures
            p@ == Map::<Symbol, Position>::empty(),
            p.owner_id() == owner,
    {
        let empty: HashMap<u64, StockData> = HashMap::new();
        let p = Portfolio { owner, portfolio: empty };
        assert(p@ =~= Map::<Symbol, Position>::empty());
        p
    }

    /// The owner's identifier.
    pub fn owner(&self) -> (owner: u32)
        ensures
            owner == self.owner_id(),
    {
        self.owner
    }

    /// Adds a position of `quantity` units bought at `date` under `symbol`,
    /// unless the symbol is already held.
    pub fn add_stock(&mut self, symbol: Symbol, quantity: u32, date: u32) -> (r: Result<
        (),
        PortfolioError,
    >)
        ensures
            r == add_verdict(old(self)@, symbol),
            final(self)@ == after_add(old(self)@, symbol, Position { quantity, purchase_date: date }),
            final(self).owner_id() == old(self).owner_id(),
    {
        let key = symbol.ordinal();
        match self.portfolio.get(&key) {
            Some(_) => {
                return Err(PortfolioError::AlreadyExists);
            },
            None => {
                self.portfolio.insert(key, StockData::new(quantity, date));
            },
        }
        assert(self@ =~= old(self)@.insert(symbol, Position { quantity, purchase_date: date }));
        Ok(())
    }

    /// Replaces the whole position held under `symbol` by one of `quantity`
    /// units bought at `date`, if the symbol is held.
    pub fn modify_stock(&mut self, symbol: Symbol, quantity: u32, date: u32) -> (r: Result<
        (),
        PortfolioError,
    >)
        ensures
            r == modify_verdict(old(self)@, symbol),
            final(self)@ == after_modify(
                old(self)@,
                symbol,
                Position { quantity, purchase_date: date },
            ),
            final(self).owner_id() == old(self).owner_id(),
    {
        let key = symbol.ordinal();
        match self.portfolio.get(&key) {
            Some(_) => {
                self.portfolio.insert(key, StockData::new(quantity, date));
            },
            None => {
                return Err(PortfolioError::NotFound);
            },
        }
        assert(self@ =~= old(self)@.insert(symbol, Position { quantity, purchase_date: date }));
        Ok(())
    }

    /// The position held under `symbol`, if there is one.
    pub fn get_stockdata<'a>(&'a self, symbol: Symbol) -> (r: Option<&'a StockData>)
        ensures
            match r {
                Some(data) => lookup(self@, symbol) == Some(data@),
                None => lookup(self@, symbol) == None::<Position>,
            },
    {
        let key = symbol.ordinal();
        self.portfolio.get(&key)
    }

    /// What has to be priced to value the portfolio over the range from
    /// `from` to `to`: one period per holding, by rising number of the
    /// symbols. A range that ends before it starts has no answer.
    pub fn holding_periods(&self, from: u32, to: u32) -> (r: Option<Vec<HoldingPeriod>>)
        ensures
            from > to <==> r is None,
            r matches Some(periods) ==> Some(periods@) == periods_of(self@, from, to)
                && lists_holdings(periods@, self@, from, to),
    {
        if from > to {
            return None;
        }
        let mut periods: Vec<HoldingPeriod> = Vec::new();
        let mut n: u64 = 0;
        while n < SYMBOL_COUNT
            invariant
                n <= SYMBOL_COUNT,
                periods@ == periods_below(self@, from, to, n as nat),
            decreases SYMBOL_COUNT - n,
        {
            if let Some(symbol) = Symbol::from_ordinal(n) {
                if let Some(data) = self.portfolio.get(&n) {
                    periods.push(
                        HoldingPeriod {
                            symbol,
                            quantity: data.get_quantity(),
                            start_date: effective_start_date(from, data.get_purchase_date()),
                            end_date: to,
                        },
                    );
                }
            }
            n = n + 1;
        }
        proof {
            lemma_periods_list_holdings(self@, from, to, SYMBOL_COUNT as nat);
        }
        Some(periods)
    }
}

} // verus!
