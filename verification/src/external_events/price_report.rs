//! The format that every price feed is brought into.

use vstd::prelude::*;

verus! {

/// The universal format for price feeds from all external exchanges.
///
/// The price is carried as the bit pattern of a double-precision number: the
/// library stores prices and hands them on, and leaves their arithmetic to its
/// callers.
#[derive(Clone, Copy, Debug, PartialEq, Eq, Structural)]
pub struct PriceReport {
    /// The midpoint price of the exchange's order book.
    pub midpoint_price: u64,
    /// The time that this update was received by the relayer node.
    pub local_timestamp: u128,
    /// The time that this update was generated by the exchange, if available.
    pub reported_timestamp: Option<u128>,
}

impl PriceReport {
    /// The report of a price of zero at time zero.
    pub open spec fn zero() -> PriceReport {
        PriceReport { midpoint_price: 0, local_timestamp: 0, reported_timestamp: None }
    }
}

impl Default for PriceReport {
    fn default() -> (report: Self)
        ensures
            report == PriceReport::zero(),
            report.midpoint_price == 0,
            report.local_timestamp == 0,
            report.reported_timestamp is None,
    {
        PriceReport { midpoint_price: 0, local_timestamp: 0, reported_timestamp: None }
    }
}

/// The zero report has a price of zero, was received at time zero, and does not
/// say when it was generated.
pub proof fn law_zero_report_is_zero()
    ensures
        PriceReport::zero().midpoint_price == 0,
        PriceReport::zero().local_timestamp == 0,
        PriceReport::zero().reported_timestamp is None,
{
}

} // verus!
