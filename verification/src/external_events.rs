//! The price feeds of external exchanges, and their aggregation into medians.

pub mod channel;
pub mod errors;
pub mod exchanges;
pub mod latest;
pub mod median;
pub mod price_report;
pub mod reporter;
pub mod reporters;
pub mod tokens;
