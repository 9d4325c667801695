//! Verified core of an investment-portfolio reporting service.
//!
//! The library validates report settings, classifies and filters ledger
//! transactions by a half-open reporting period, and folds the admissible
//! transactions into a per-asset balance sheet. Amounts are exact fixed-point
//! integers (minor units at a scale the caller chooses); balances saturate at
//! the ends of the `i64` range instead of overflowing. Timestamps are plain
//! integers (e.g. seconds since an epoch); only their order matters here.

pub mod asset;
pub mod balance;
pub mod pipeline;
pub mod report;
pub mod response;
pub mod transaction;
