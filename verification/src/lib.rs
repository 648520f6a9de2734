//! Holdings of a closed set of instruments, and what has to be priced to
//! value them over a range of dates.
//!
//! A [`Portfolio`] maps each [`Symbol`] to at most one position
//! ([`StockData`]). Positions are inserted if absent and replaced if present.
//! For a range of dates the portfolio lists, per holding, the two dates at
//! which it has to be priced; the sums over the prices are left to the caller,
//! who owns the price source.

pub mod utils;
pub mod error;
pub mod holdings;
pub mod portfolio;
pub mod valuation;

pub use error::PortfolioError;
pub use portfolio::Portfolio;
pub use utils::stock::{Position, StockData, Symbol};
pub use valuation::HoldingPeriod;
