//! Instrument identifiers and positions.

use vstd::prelude::*;

verus! {

/// The instruments that can be held: a closed set of ten symbols.
#[derive(Debug, PartialEq, Eq, Hash, Clone, Copy, Structural)]
pub enum Symbol {
    A,
    B,
    C,
    D,
    E,
    F,
    G,
    H,
    I,
    J,
}

/// How many symbols there are.
pub const SYMBOL_COUNT: u64 = 10;

impl Symbol {
    /// The stable number of a symbol: `A` is 0, `J` is 9.
    pub open spec fn ordinal_of(self) -> u64 {
        match self {
            Symbol::A => 0,
            Symbol::B => 1,
            Symbol::C => 2,
            Symbol::D => 3,
            Symbol::E => 4,
            Symbol::F => 5,
            Symbol::G => 6,
            Symbol::H => 7,
            Symbol::I => 8,
            Symbol::J => 9,
        }
    }

    /// The symbol with the given number, if there is one.
    pub open spec fn with_ordinal(n: u64) -> Option<Symbol> {
        if n == 0 {
            Some(Symbol::A)
        } else if n == 1 {
            Some(Symbol::B)
        } else if n == 2 {
            Some(Symbol::C)
        } else if n == 3 {
            Some(Symbol::D)
        } else if n == 4 {
            Some(Symbol::E)
        } else if n == 5 {
            Some(Symbol::F)
        } else if n == 6 {
            Some(Symbol::G)
        } else if n == 7 {
            Some(Symbol::H)
        } else if n == 8 {
            Some(Symbol::I)
        } else if n == 9 {
            Some(Symbol::J)
        } else {
            None
        }
    }

    /// The stable number of this symbol, used as its key.
    pub fn ordinal(self) -> (n: u64)
        ensures
            n == self.ordinal_of(),
            n < SYMBOL_COUNT,
            Symbol::with_ordinal(n) == Some(self),
    {
        match self {
            Symbol::A => 0,
            Symbol::B => 1,
            Symbol::C => 2,
            Symbol::D => 3,
            Symbol::E => 4,
            Symbol::F => 5,
            Symbol::G => 6,
            Symbol::H => 7,
            Symbol::I => 8,
            Symbol::J => 9,
        }
    }

    /// The symbol that has the number `n`; `None` from `SYMBOL_COUNT` on.
    pub fn from_ordinal(n: u64) -> (r: Option<Symbol>)
        ensures
            r == Symbol::with_ordinal(n),
            r.is_some() <==> n < SYMBOL_COUNT,
            r matches Some(s) ==> s.ordinal_of() == n,
    {
        match n {
            0 => Some(Symbol::A),
            1 => Some(Symbol::B),
            2 => Some(Symbol::C),
            3 => Some(Symbol::D),
            4 => Some(Symbol::E),
            5 => Some(Symbol::F),
            6 => Some(Symbol::G),
            7 => Some(Symbol::H),
            8 => Some(Symbol::I),
            9 => Some(Symbol::J),
            _ => None,
        }
    }
}

/// Numbers and symbols correspond one to one: every symbol has a number below
/// `SYMBOL_COUNT` that leads back to it, and two symbols with one number are
/// the same symbol.
pub proof fn lemma_ordinal_is_a_bijection(s: Symbol, t: Symbol)
    ensures
        s.ordinal_of() < SYMBOL_COUNT,
        Symbol::with_ordinal(s.ordinal_of()) == Some(s),
        s.ordinal_of() == t.ordinal_of() ==> s == t,
{
}

/// Every number below `SYMBOL_COUNT`, and no other, is the number of a symbol.
pub proof fn lemma_with_ordinal_is_the_inverse(n: u64)
    ensures
        Symbol::with_ordinal(n).is_some() <==> n < SYMBOL_COUNT,
        Symbol::with_ordinal(n) matches Some(s) ==> s.ordinal_of() == n,
{
}

/// What a position is: how many units are held, and since when.
pub struct Position {
    pub quantity: u32,
    pub purchase_date: u32,
}

/// A position in one instrument. It is made whole and never changed in part.
#[derive(Debug, Clone, Copy)]
pub struct StockData {
    quantity: u32,
    purchase_date: u32,
}

impl View for StockData {
    type V = Position;

    closed spec fn view(&self) -> Position {
        Position { quantity: self.quantity, purchase_date: self.purchase_date }
    }
}

impl StockData {
    /// A position of `quantity` units bought at `purchase_date`, in seconds
    /// since the epoch.
    pub fn new(quantity: u32, purchase_date: u32) -> (data: Self)
        ensures
            data@ == (Position { quantity, purchase_date }),
    {
        StockData { quantity, purchase_date }
    }

    /// The number of units held.
    pub fn get_quantity(&self) -> (quantity: u32)
        ensures
            quantity == self@.quantity,
    {
        self.quantity
    }

    /// The date of purchase, in seconds since the epoch.
    pub fn get_purchase_date(&self) -> (date: u32)
        ensures
            date == self@.purchase_date,
    {
        self.purchase_date
    }
}

} // verus!
