//! A price reporter with a single stream, that of the median over a choice of
//! exchanges.
//!
//! As with the reporter of one stream for each exchange, the caller runs the
//! threads and takes the medians of prices.

use vstd::prelude::*;
use ring_channel::{RingReceiver, RingSender};
#[allow(unused_imports)]
use crate::external_events::{channel, latest};
use crate::external_events::channel::{new_ring_channel, publish};
use crate::external_events::errors::ReporterError;
use crate::external_events::exchanges::Exchange;
use crate::external_events::latest::LatestReports;
use crate::external_events::price_report::PriceReport;
use crate::external_events::tokens::Token;

verus! {

/// The exchanges that are used where none are chosen.
pub open spec fn default_exchanges() -> Seq<Exchange> {
    seq![Exchange::Binance, Exchange::Coinbase, Exchange::Kraken, Exchange::Okx]
}

/// Translates the reports of individual exchanges into aggregate medians, and
/// opens streams of the medians for its consumers.
pub struct PriceReporter {
    pub quote_token: Token,
    pub base_token: Token,
    /// The exchanges to connect to.
    pub exchanges: Vec<Exchange>,
    /// The senders of the median stream. Each call of `create_new_receiver`
    /// appends one, so there can be any number of subscribers.
    median_price_report_senders: Vec<RingSender<PriceReport>>,
    /// The latest median.
    median_price_report_latest: PriceReport,
}

impl PriceReporter {
    /// The quote token of the pair.
    pub closed spec fn quote(&self) -> Token {
        self.quote_token
    }

    /// The base token of the pair.
    pub closed spec fn base(&self) -> Token {
        self.base_token
    }

    /// The exchanges to connect to.
    pub closed spec fn chosen(&self) -> Seq<Exchange> {
        self.exchanges@
    }

    /// The senders of the median stream, the oldest first.
    pub closed spec fn senders(&self) -> Seq<RingSender<PriceReport>> {
        self.median_price_report_senders@
    }

    /// The latest median.
    pub closed spec fn latest(&self) -> PriceReport {
        self.median_price_report_latest
    }

    /// The two agree but for their senders.
    pub open spec fn differs_in_senders(&self, other: &Self) -> bool {
        &&& self.quote() == other.quote()
        &&& self.base() == other.base()
        &&& self.chosen() == other.chosen()
        &&& self.latest() == other.latest()
    }

    /// A reporter for a token pair over the given exchanges, or over the
    /// default ones if none are given. The reporter keeps the sender of its
    /// first channel; the receiver is handed out, to feed `record_latest`.
    pub fn new(
        quote_token: Token,
        base_token: Token,
        exchanges: Option<Vec<Exchange>>,
    ) -> (result: Result<(Self, RingReceiver<PriceReport>), ReporterError>)
        ensures
            result is Ok,
            result->Ok_0.0.quote() == quote_token,
            result->Ok_0.0.base() == base_token,
            result->Ok_0.0.chosen() == (match exchanges {
                Some(exchanges) => exchanges@,
                None => default_exchanges(),
            }),
            result->Ok_0.0.latest() == PriceReport::zero(),
            result->Ok_0.0.senders().len() == 1,
            channel::fresh_channel(result->Ok_0.0.senders()[0], result->Ok_0.1),
    {
        let exchanges: Vec<Exchange> = match exchanges {
            Some(exchanges) => exchanges,
            None => vec![Exchange::Binance, Exchange::Coinbase, Exchange::Kraken, Exchange::Okx],
        };
        let (sender, receiver) = new_ring_channel();
        let reporter = PriceReporter {
            quote_token,
            base_token,
            exchanges,
            median_price_report_senders: vec![sender],
            median_price_report_latest: PriceReport::default(),
        };
        Ok((reporter, receiver))
    }

    /// Opens a new stream of medians: the returned receiver gets what is
    /// published from now on.
    pub fn create_new_receiver(&mut self) -> (receiver: RingReceiver<PriceReport>)
        ensures
            final(self).differs_in_senders(old(self)),
            final(self).senders().len() == old(self).senders().len() + 1,
            final(self).senders().drop_last() == old(self).senders(),
            channel::fresh_channel(final(self).senders().last(), receiver),
    {
        let (sender, receiver) = new_ring_channel();
        self.median_price_report_senders.push(sender);
        assert(self.senders().drop_last() =~= old(self).senders());
        receiver
    }

    /// The latest median.
    pub fn peek(&self) -> (report: Result<PriceReport, ReporterError>)
        ensures
            report == Ok::<PriceReport, ReporterError>(self.latest()),
    {
        Ok(self.median_price_report_latest)
    }

    /// Sets the latest median, once the first receiver has received it.
    pub fn record_latest(&mut self, report: PriceReport)
        ensures
            final(self).latest() == report,
            final(self).quote() == old(self).quote(),
            final(self).base() == old(self).base(),
            final(self).chosen() == old(self).chosen(),
            final(self).senders() == old(self).senders(),
    {
        self.median_price_report_latest = report;
    }

    /// Publishes the aggregate of the latest reports, given the median of
    /// their prices.
    pub fn publish_median(&mut self, latest: &LatestReports, median_price: u64) -> (result: Result<
        PriceReport,
        ReporterError,
    >)
        requires
            latest.wf(),
            exists|exchange: Exchange| latest@.contains_key(exchange),
        ensures
            final(self).differs_in_senders(old(self)),
            channel::published(
                old(self).senders(),
                final(self).senders(),
                latest::median_of_reports(latest@, median_price),
                match result {
                    Ok(_) => Ok(()),
                    Err(error) => Err(error),
                },
            ),
            result is Ok ==> result->Ok_0 == latest::median_of_reports(latest@, median_price),
            latest::has_exact_timestamps(
                latest@,
                latest::median_of_reports(latest@, median_price),
            ),
    {
        let report: PriceReport = latest.median_report(median_price);
        match publish(&mut self.median_price_report_senders, report) {
            Ok(_) => Ok(report),
            Err(error) => Err(error),
        }
    }
}

/// Two reporters that differ in their senders have the same tokens, exchanges
/// and latest median.
pub proof fn law_only_senders_differ(before: PriceReporter, after: PriceReporter)
    requires
        after.differs_in_senders(&before),
    ensures
        after.quote() == before.quote(),
        after.base() == before.base(),
        after.chosen() == before.chosen(),
        after.latest() == before.latest(),
{
}

/// The default exchanges are the four centralized ones, each once.
pub proof fn law_default_exchanges_are_centralized(exchange: Exchange)
    ensures
        default_exchanges().no_duplicates(),
        default_exchanges().contains(exchange) <==> exchange != Exchange::Median && exchange
            != Exchange::UniswapV3,
{
    let default = default_exchanges();
    assert(default[0] == Exchange::Binance);
    assert(default[1] == Exchange::Coinbase);
    assert(default[2] == Exchange::Kraken);
    assert(default[3] == Exchange::Okx);
}

/// The pair and the exchanges of a reporter are those in its fields.
proof fn law_reporter_holds_its_fields(reporter: PriceReporter)
    ensures
        reporter.quote() == reporter.quote_token,
        reporter.base() == reporter.base_token,
        reporter.chosen() == reporter.exchanges@,
{
}

} // verus!
