//! A price reporter with one stream for each exchange and one for the median.
//!
//! The reporter owns the state: who listens to which stream, and the latest
//! report of each stream. Its caller runs the threads: it reads the exchanges'
//! feeds, takes the medians of prices, and lets the first receiver of each
//! stream feed back the latest report.

use vstd::prelude::*;
use ring_channel::{RingReceiver, RingSender};
#[allow(unused_imports)]
use crate::external_events::{channel, exchanges, latest};
use crate::external_events::channel::{new_ring_channel, publish};
use crate::external_events::errors::ReporterError;
use crate::external_events::exchanges::{all_exchanges, Exchange, ExchangeMap};
use crate::external_events::latest::LatestReports;
use crate::external_events::price_report::PriceReport;
use crate::external_events::tokens::Token;

verus! {

/// The exchanges to connect to: all but the median, which is computed.
pub open spec fn connected_list() -> Seq<Exchange> {
    seq![
        Exchange::Binance,
        Exchange::Coinbase,
        Exchange::Kraken,
        Exchange::Okx,
        Exchange::UniswapV3,
    ]
}

/// The exchanges to connect to: all but the median, which is computed.
pub fn connected_exchanges() -> (exchanges: Vec<Exchange>)
    ensures
        exchanges@ == connected_list(),
        exchanges@.len() == 5,
        exchanges@.no_duplicates(),
        forall|exchange: Exchange|
            exchanges@.contains(exchange) <==> exchange != Exchange::Median,
{
    let all: Vec<Exchange> = all_exchanges();
    let mut exchanges: Vec<Exchange> = Vec::new();
    let mut n: usize = 0;
    while n < all.len()
        invariant
            all@ == exchanges::exchange_list(),
            n <= all@.len(),
            exchanges@ == connected_list().take(if n == 0 { 0 } else { n - 1 }),
        decreases all@.len() - n,
    {
        if all[n] != Exchange::Median {
            exchanges.push(all[n]);
        }
        n += 1;
        assert(exchanges@ =~= connected_list().take(n - 1));
    }
    assert(exchanges@ =~= connected_list());
    proof {
        assert forall|exchange: Exchange| exchange != Exchange::Median implies #[trigger] exchanges@.contains(
            exchange,
        ) by {
            assert(exchanges@[exchange.position() - 1] == exchange);
        }
    }
    exchanges
}

/// Translates the reports of individual exchanges into aggregate medians, and
/// opens streams of reports for its consumers.
pub struct PriceReporter {
    base_token: Token,
    quote_token: Token,
    /// The senders of each exchange's stream.
    price_report_senders: ExchangeMap<Vec<RingSender<PriceReport>>>,
    /// The latest report of each exchange's stream.
    price_report_latest: ExchangeMap<PriceReport>,
}

impl PriceReporter {
    /// Every exchange has a list of senders and a latest report.
    pub closed spec fn wf(&self) -> bool {
        &&& self.price_report_senders.wf()
        &&& self.price_report_latest.wf()
        &&& forall|exchange: Exchange| #[trigger]
            self.price_report_senders@.contains_key(exchange)
        &&& forall|exchange: Exchange| #[trigger] self.price_report_latest@.contains_key(exchange)
    }

    /// The base token of the pair.
    pub closed spec fn base(&self) -> Token {
        self.base_token
    }

    /// The quote token of the pair.
    pub closed spec fn quote(&self) -> Token {
        self.quote_token
    }

    /// The senders of an exchange's stream, the oldest first.
    pub closed spec fn senders(&self, exchange: Exchange) -> Seq<RingSender<PriceReport>> {
        self.price_report_senders@[exchange]@
    }

    /// The latest report of an exchange's stream.
    pub closed spec fn latest(&self, exchange: Exchange) -> PriceReport {
        self.price_report_latest@[exchange]
    }

    /// Whether both tokens of the pair are known by name.
    pub open spec fn named(&self) -> bool {
        self.base().named && self.quote().named
    }

    /// The two agree but for the senders of one exchange.
    pub open spec fn differs_in_senders_of(&self, other: &Self, exchange: Exchange) -> bool {
        &&& self.base() == other.base()
        &&& self.quote() == other.quote()
        &&& forall|e: Exchange| #[trigger] self.latest(e) == other.latest(e)
        &&& forall|e: Exchange| e != exchange ==> #[trigger] self.senders(e) == other.senders(e)
    }

    /// Opens the first channel of every stream. The reporter keeps the senders;
    /// the receivers are handed out, to feed `record_latest`.
    pub fn new(base_token: Token, quote_token: Token) -> (result: Result<
        (Self, ExchangeMap<RingReceiver<PriceReport>>),
        ReporterError,
    >)
        ensures
            result is Ok,
            result->Ok_0.0.wf(),
            result->Ok_0.0.base() == base_token,
            result->Ok_0.0.quote() == quote_token,
            result->Ok_0.1.wf(),
            forall|exchange: Exchange|
                {
                    &&& #[trigger] result->Ok_0.0.latest(exchange) == PriceReport::zero()
                    &&& result->Ok_0.1@.contains_key(exchange)
                    &&& result->Ok_0.0.senders(exchange).len() == 1
                    &&& channel::fresh_channel(
                        result->Ok_0.0.senders(exchange)[0],
                        result->Ok_0.1@[exchange],
                    )
                },
    {
        let mut senders: ExchangeMap<Vec<RingSender<PriceReport>>> = ExchangeMap::new();
        let mut receivers: ExchangeMap<RingReceiver<PriceReport>> = ExchangeMap::new();
        let mut latest: ExchangeMap<PriceReport> = ExchangeMap::new();
        let exchanges: Vec<Exchange> = all_exchanges();
        let mut n: usize = 0;
        while n < exchanges.len()
            invariant
                exchanges@ == exchanges::exchange_list(),
                n <= exchanges@.len(),
                senders.wf(),
                receivers.wf(),
                latest.wf(),
                forall|exchange: Exchange|
                    exchange.position() < n ==> #[trigger] senders@.contains_key(exchange),
                forall|exchange: Exchange|
                    exchange.position() < n ==> #[trigger] latest@.contains_key(exchange),
                forall|exchange: Exchange|
                    exchange.position() < n ==> {
                        &&& #[trigger] latest@[exchange] == PriceReport::zero()
                        &&& receivers@.contains_key(exchange)
                        &&& senders@[exchange]@.len() == 1
                        &&& channel::fresh_channel(
                            senders@[exchange]@[0],
                            receivers@[exchange],
                        )
                    },
            decreases exchanges@.len() - n,
        {
            let (sender, receiver) = new_ring_channel();
            senders.insert(exchanges[n], vec![sender]);
            receivers.insert(exchanges[n], receiver);
            latest.insert(exchanges[n], PriceReport::default());
            n += 1;
        }
        let reporter = PriceReporter {
            base_token,
            quote_token,
            price_report_senders: senders,
            price_report_latest: latest,
        };
        Ok((reporter, receivers))
    }

    /// Opens a new stream of an exchange's reports: the returned receiver gets
    /// what is published from now on.
    pub fn create_new_receiver(&mut self, exchange: Exchange) -> (receiver: RingReceiver<
        PriceReport,
    >)
        requires
            old(self).wf(),
        ensures
            final(self).wf(),
            final(self).differs_in_senders_of(old(self), exchange),
            final(self).senders(exchange).len() == old(self).senders(exchange).len() + 1,
            final(self).senders(exchange).drop_last() == old(self).senders(exchange),
            channel::fresh_channel(
                final(self).senders(exchange).last(),
                receiver,
            ),
    {
        let (sender, receiver) = new_ring_channel();
        if let Some(mut senders) = self.price_report_senders.remove(exchange) {
            senders.push(sender);
            assert(senders@.drop_last() =~= old(self).senders(exchange));
            self.price_report_senders.insert(exchange, senders);
        }
        receiver
    }

    /// Whether this is a "Named" token pair. If it is, prices are denominated
    /// in USD and largely derived from centralized exchanges; if not, they are
    /// derived from UniswapV3, without adjustment for decimals.
    pub fn is_named(&self) -> (named: bool)
        ensures
            named == self.named(),
            named <==> self.base().named && self.quote().named,
    {
        self.base_token.is_named() && self.quote_token.is_named()
    }

    /// The latest report of an exchange's stream.
    pub fn peek(&self, exchange: Exchange) -> (report: Result<PriceReport, ReporterError>)
        requires
            self.wf(),
        ensures
            report == Ok::<PriceReport, ReporterError>(self.latest(exchange)),
    {
        let report: PriceReport = match self.price_report_latest.get(exchange) {
            Some(report) => *report,
            None => PriceReport::default(),
        };
        Ok(report)
    }

    /// The latest reports of all streams.
    pub fn peek_all(&self) -> (reports: Result<ExchangeMap<PriceReport>, ReporterError>)
        requires
            self.wf(),
        ensures
            reports is Ok,
            reports->Ok_0.wf(),
            forall|exchange: Exchange| #[trigger]
                reports->Ok_0@.contains_key(exchange) && reports->Ok_0@[exchange] == self.latest(
                    exchange,
                ),
    {
        let exchanges: Vec<Exchange> = all_exchanges();
        let mut peek_all: ExchangeMap<PriceReport> = ExchangeMap::new();
        let mut n: usize = 0;
        while n < exchanges.len()
            invariant
                self.wf(),
                exchanges@ == exchanges::exchange_list(),
                n <= exchanges@.len(),
                peek_all.wf(),
                forall|exchange: Exchange|
                    exchange.position() < n ==> #[trigger] peek_all@.contains_key(exchange)
                        && peek_all@[exchange] == self.latest(exchange),
            decreases exchanges@.len() - n,
        {
            let report: PriceReport = match self.peek(exchanges[n]) {
                Ok(report) => report,
                Err(error) => return Err(error),
            };
            let ghost before = peek_all@;
            peek_all.insert(exchanges[n], report);
            assert forall|exchange: Exchange| exchange.position() < n + 1 implies #[trigger] peek_all@.contains_key(
                exchange,
            ) && peek_all@[exchange] == self.latest(exchange) by {
                if exchange.position() < n {
                    assert(before.contains_key(exchange));
                } else {
                    exchanges::law_every_exchange_is_listed_once(exchange, n as int);
                }
            }
            n += 1;
        }
        Ok(peek_all)
    }

    /// Sets the latest report of an exchange's stream, once the stream's first
    /// receiver has received it.
    pub fn record_latest(&mut self, exchange: Exchange, report: PriceReport)
        requires
            old(self).wf(),
        ensures
            final(self).wf(),
            final(self).base() == old(self).base(),
            final(self).quote() == old(self).quote(),
            forall|e: Exchange| #[trigger] final(self).senders(e) == old(self).senders(e),
            forall|e: Exchange| #[trigger]
                final(self).latest(e) == (if e == exchange {
                    report
                } else {
                    old(self).latest(e)
                }),
    {
        self.price_report_latest.insert(exchange, report);
    }

    /// The power of ten by which a price of the exchange is to be multiplied
    /// before it is received, if any: prices of UniswapV3 for a named pair do
    /// not account for the decimals of the tokens.
    pub fn decimals_adjustment(&self, exchange: Exchange) -> (exponent: Option<i16>)
        requires
            exchange == Exchange::UniswapV3 && self.named() ==> self.base().decimals is Some
                && self.quote().decimals is Some,
        ensures
            exponent is Some <==> exchange == Exchange::UniswapV3 && self.named(),
            exchange != Exchange::UniswapV3 ==> exponent is None,
            !self.base().named ==> exponent is None,
            !self.quote().named ==> exponent is None,
            exchange == Exchange::UniswapV3 && self.base().named && self.quote().named
                ==> exponent is Some,
            exponent is Some ==> exponent->Some_0 == self.base().decimals->Some_0
                - self.quote().decimals->Some_0,
    {
        if exchange == Exchange::UniswapV3 && self.is_named() {
            match (self.base_token.get_decimals(), self.quote_token.get_decimals()) {
                (Some(base), Some(quote)) => Some(base as i16 - quote as i16),
                _ => None,
            }
        } else {
            None
        }
    }

    /// Publishes a report on an exchange's stream.
    fn publish(&mut self, exchange: Exchange, report: PriceReport) -> (result: Result<
        (),
        ReporterError,
    >)
        requires
            old(self).wf(),
        ensures
            final(self).wf(),
            final(self).differs_in_senders_of(old(self), exchange),
            channel::published(
                old(self).senders(exchange),
                final(self).senders(exchange),
                report,
                result,
            ),
    {
        match self.price_report_senders.remove(exchange) {
            Some(mut senders) => {
                let result = publish(&mut senders, report);
                self.price_report_senders.insert(exchange, senders);
                result
            },
            None => Ok(()),
        }
    }

    /// Takes in a report from an exchange, with its price adjusted: records it
    /// in `latest` and passes it through on the exchange's stream. Returns the
    /// prices over which the new median is to be taken.
    pub fn receive(
        &mut self,
        latest: &mut LatestReports,
        exchange: Exchange,
        report: PriceReport,
    ) -> (prices: Result<Vec<u64>, ReporterError>)
        requires
            old(self).wf(),
            old(latest).wf(),
        ensures
            final(self).wf(),
            final(latest).wf(),
            final(latest)@ == old(latest)@.insert(exchange, report),
            final(self).differs_in_senders_of(old(self), exchange),
            channel::published(
                old(self).senders(exchange),
                final(self).senders(exchange),
                report,
                match prices {
                    Ok(_) => Ok(()),
                    Err(error) => Err(error),
                },
            ),
            prices is Ok ==> prices->Ok_0@ == latest::midpoint_prices(
                final(latest)@,
            ),
    {
        let prices: Vec<u64> = latest.receive(exchange, report);
        match self.publish(exchange, report) {
            Ok(_) => Ok(prices),
            Err(error) => Err(error),
        }
    }

    /// Publishes the aggregate of the latest reports on the median's stream,
    /// given the median of their prices.
    pub fn publish_median(&mut self, latest: &LatestReports, median_price: u64) -> (result: Result<
        PriceReport,
        ReporterError,
    >)
        requires
            old(self).wf(),
            latest.wf(),
            exists|exchange: Exchange| latest@.contains_key(exchange),
        ensures
            final(self).wf(),
            final(self).differs_in_senders_of(old(self), Exchange::Median),
            channel::published(
                old(self).senders(Exchange::Median),
                final(self).senders(Exchange::Median),
                latest::median_of_reports(latest@, median_price),
                match result {
                    Ok(_) => Ok(()),
                    Err(error) => Err(error),
                },
            ),
            result is Ok ==> result->Ok_0 == latest::median_of_reports(latest@, median_price),
            latest::has_exact_timestamps(
                latest@,
                latest::median_of_reports(latest@, median_price),
            ),
    {
        let report: PriceReport = latest.median_report(median_price);
        match self.publish(Exchange::Median, report) {
            Ok(_) => Ok(report),
            Err(error) => Err(error),
        }
    }
}

/// A pair is named if and only if both of its tokens are.
pub proof fn law_pair_is_named_if_both_tokens_are(reporter: PriceReporter)
    ensures
        reporter.base().named && reporter.quote().named ==> reporter.named(),
        !reporter.base().named ==> !reporter.named(),
        !reporter.quote().named ==> !reporter.named(),
{
}

/// Two reporters that differ in the senders of one exchange have the same
/// tokens, the same latest reports and the same senders of all others.
pub proof fn law_streams_are_independent(
    before: PriceReporter,
    after: PriceReporter,
    exchange: Exchange,
    other: Exchange,
)
    requires
        after.differs_in_senders_of(&before, exchange),
    ensures
        after.base() == before.base(),
        after.quote() == before.quote(),
        after.latest(other) == before.latest(other),
        other != exchange ==> after.senders(other) == before.senders(other),
{
}

} // verus!
