//! Why an operation on a portfolio is refused.

use vstd::prelude::*;

verus! {

/// The two ways in which a change to a portfolio fails.
#[derive(Debug, PartialEq, Eq, Clone, Copy, Structural)]
pub enum PortfolioError {
    /// The symbol is already held, so it cannot be added.
    AlreadyExists,
    /// The symbol is not held, so it cannot be modified.
    NotFound,
}

impl PortfolioError {
    /// The sentence that describes the error.
    pub open spec fn message_of(self) -> Seq<char> {
        match self {
            PortfolioError::AlreadyExists => "Stock already in Portfolio"@,
            PortfolioError::NotFound => "Stock is not in portfolio"@,
        }
    }

    /// The sentence that describes this error, for a caller to print.
    pub fn message(&self) -> (text: &'static str)
        ensures
            text@ == self.message_of(),
    {
        match self {
            PortfolioError::AlreadyExists => "Stock already in Portfolio",
            PortfolioError::NotFound => "Stock is not in portfolio",
        }
    }
}

} // verus!
