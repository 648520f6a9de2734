//! The mathematical model of a portfolio's holdings: a map from symbols to
//! positions, and what adding and modifying do to it.

use vstd::prelude::*;
use crate::error::PortfolioError;
use crate::utils::stock::{Position, Symbol, SYMBOL_COUNT};

verus! {

/// What a portfolio holds: at most one position per symbol.
pub type Holdings = Map<Symbol, Position>;

/// Whether `symbol` can be added to `h`: only if it is not held yet.
pub open spec fn add_verdict(h: Holdings, symbol: Symbol) -> Result<(), PortfolioError> {
    if h.contains_key(symbol) {
        Err(PortfolioError::AlreadyExists)
    } else {
        Ok(())
    }
}

/// The holdings after an attempt to add `position` under `symbol`: one entry
/// more if the symbol was not held, and `h` itself if it was.
pub open spec fn after_add(h: Holdings, symbol: Symbol, position: Position) -> Holdings {
    if h.contains_key(symbol) {
        h
    } else {
        h.insert(symbol, position)
    }
}

/// Whether the position of `symbol` in `h` can be replaced: only if there is
/// one.
pub open spec fn modify_verdict(h: Holdings, symbol: Symbol) -> Result<(), PortfolioError> {
    if h.contains_key(symbol) {
        Ok(())
    } else {
        Err(PortfolioError::NotFound)
    }
}

/// The holdings after an attempt to replace the position of `symbol` by
/// `position`: the whole old position gone if the symbol was held, and `h`
/// itself if it was not.
pub open spec fn after_modify(h: Holdings, symbol: Symbol, position: Position) -> Holdings {
    if h.contains_key(symbol) {
        h.insert(symbol, position)
    } else {
        h
    }
}

/// The position held in `symbol`, if any.
pub open spec fn lookup(h: Holdings, symbol: Symbol) -> Option<Position> {
    if h.contains_key(symbol) {
        Some(h[symbol])
    } else {
        None
    }
}

/// All the symbols there are.
pub open spec fn all_symbols() -> Set<Symbol> {
    set![
        Symbol::A,
        Symbol::B,
        Symbol::C,
        Symbol::D,
        Symbol::E,
        Symbol::F,
        Symbol::G,
        Symbol::H,
        Symbol::I,
        Symbol::J,
    ]
}

/// There are only `SYMBOL_COUNT` symbols, so holdings are finite and never
/// more than that many.
pub proof fn lemma_holdings_are_finite(h: Holdings)
    ensures
        h.dom().finite(),
        h.dom().len() <= SYMBOL_COUNT,
{
    let all = all_symbols();
    assert(all.finite());
    assert(all.len() <= SYMBOL_COUNT);
    assert forall|s: Symbol| h.dom().contains(s) implies all.contains(s) by {
        assert(s.ordinal_of() < SYMBOL_COUNT);
    }
    vstd::set_lib::lemma_len_subset(h.dom(), all);
}

/// One attempted change to the holdings.
pub enum Change {
    Add(Symbol, Position),
    Modify(Symbol, Position),
}

/// The holdings after one attempted change, whether it succeeds or not.
pub open spec fn after_change(h: Holdings, change: Change) -> Holdings {
    match change {
        Change::Add(symbol, position) => after_add(h, symbol, position),
        Change::Modify(symbol, position) => after_modify(h, symbol, position),
    }
}

/// The holdings after a sequence of attempted changes, first to last.
pub open spec fn after_changes(h: Holdings, changes: Seq<Change>) -> Holdings
    decreases changes.len(),
{
    if changes.len() == 0 {
        h
    } else {
        after_change(after_changes(h, changes.drop_last()), changes.last())
    }
}

/// Nothing is ever removed: a symbol that is held stays held through any
/// sequence of attempted changes.
pub proof fn lemma_changes_keep_symbols(h: Holdings, changes: Seq<Change>, symbol: Symbol)
    requires
        h.contains_key(symbol),
    ensures
        after_changes(h, changes).contains_key(symbol),
    decreases changes.len(),
{
    if changes.len() > 0 {
        lemma_changes_keep_symbols(h, changes.drop_last(), symbol);
    }
}

/// Adding a symbol a second time fails with `AlreadyExists`, whatever was
/// attempted in between, and leaves the holdings as they were.
pub proof fn lemma_second_add_fails(
    h: Holdings,
    symbol: Symbol,
    first: Position,
    between: Seq<Change>,
    second: Position,
)
    ensures
        ({
            let before = after_changes(after_add(h, symbol, first), between);
            &&& add_verdict(before, symbol) == Err::<(), PortfolioError>(
                PortfolioError::AlreadyExists,
            )
            &&& after_add(before, symbol, second) == before
        }),
{
    lemma_changes_keep_symbols(after_add(h, symbol, first), between, symbol);
}

/// A sequence of changes in which `symbol` is never added.
pub open spec fn never_adds(changes: Seq<Change>, symbol: Symbol) -> bool {
    forall|i: int|
        0 <= i < changes.len() ==> !(#[trigger] changes[i] matches Change::Add(s, _) && s == symbol)
}

/// A symbol that is not held and never added is not held afterwards.
pub proof fn lemma_only_add_brings_a_symbol(h: Holdings, changes: Seq<Change>, symbol: Symbol)
    requires
        !h.contains_key(symbol),
        never_adds(changes, symbol),
    ensures
        !after_changes(h, changes).contains_key(symbol),
    decreases changes.len(),
{
    if changes.len() > 0 {
        let earlier = changes.drop_last();
        assert forall|i: int| 0 <= i < earlier.len() implies !(#[trigger] earlier[i] matches Change::Add(
            s,
            _,
        ) && s == symbol) by {
            assert(earlier[i] == changes[i]);
        }
        lemma_only_add_brings_a_symbol(h, earlier, symbol);
        assert(changes.last() == changes[changes.len() - 1]);
    }
}

/// Modifying a symbol that was never added to a portfolio that started empty
/// fails with `NotFound`, and leaves the holdings as they were.
pub proof fn lemma_modify_of_never_added_fails(
    changes: Seq<Change>,
    symbol: Symbol,
    position: Position,
)
    requires
        never_adds(changes, symbol),
    ensures
        ({
            let before = after_changes(Map::empty(), changes);
            &&& modify_verdict(before, symbol) == Err::<(), PortfolioError>(
                PortfolioError::NotFound,
            )
            &&& after_modify(before, symbol, position) == before
        }),
{
    lemma_only_add_brings_a_symbol(Map::empty(), changes, symbol);
}

/// After a successful add the symbol is found with exactly the position that
/// was added, and every other symbol is found as before.
pub proof fn lemma_lookup_after_add(
    h: Holdings,
    symbol: Symbol,
    position: Position,
    other: Symbol,
)
    requires
        add_verdict(h, symbol) is Ok,
    ensures
        lookup(after_add(h, symbol, position), symbol) == Some(position),
        other != symbol ==> lookup(after_add(h, symbol, position), other) == lookup(h, other),
        lookup(Map::<Symbol, Position>::empty(), other) == None::<Position>,
{
}

/// After a successful modify the symbol is found with exactly the new
/// position, nothing of the old one, and every other symbol is found as
/// before.
pub proof fn lemma_lookup_after_modify(
    h: Holdings,
    symbol: Symbol,
    position: Position,
    other: Symbol,
)
    requires
        modify_verdict(h, symbol) is Ok,
    ensures
        lookup(after_modify(h, symbol, position), symbol) == Some(position),
        other != symbol ==> lookup(after_modify(h, symbol, position), other) == lookup(h, other),
        after_modify(h, symbol, position).dom() == h.dom(),
{
    assert(after_modify(h, symbol, position).dom() =~= h.dom());
}

/// A successful add brings exactly one entry: the symbol was not held, is held
/// afterwards, and the number of holdings grows by one.
pub proof fn lemma_add_brings_one_entry(h: Holdings, symbol: Symbol, position: Position)
    requires
        add_verdict(h, symbol) is Ok,
    ensures
        after_add(h, symbol, position).dom() == h.dom().insert(symbol),
        after_add(h, symbol, position).dom().len() == h.dom().len() + 1,
{
    lemma_holdings_are_finite(h);
    assert(after_add(h, symbol, position).dom() =~= h.dom().insert(symbol));
}

} // verus!
