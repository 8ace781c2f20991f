//! The latest report of each exchange, and the median over them.

use vstd::prelude::*;
#[allow(unused_imports)]
use crate::external_events::{exchanges, median};
use crate::external_events::exchanges::{all_exchanges, Exchange, ExchangeMap};
use crate::external_events::median::timestamp_median;
use crate::external_events::price_report::PriceReport;

verus! {

/// The exchanges that have reported, in the order of the list of exchanges.
pub open spec fn reporting(reports: Map<Exchange, PriceReport>) -> Seq<Exchange> {
    exchanges::exchange_list().filter(|exchange: Exchange| reports.contains_key(exchange))
}

/// The prices of the exchanges that have reported.
pub open spec fn midpoint_prices(reports: Map<Exchange, PriceReport>) -> Seq<u64> {
    reporting(reports).map_values(|exchange: Exchange| reports[exchange].midpoint_price)
}

/// The times at which the reports were received.
pub open spec fn local_timestamps(reports: Map<Exchange, PriceReport>) -> Seq<u128> {
    reporting(reports).map_values(|exchange: Exchange| reports[exchange].local_timestamp)
}

/// The times at which the reports were generated, of those that say so.
pub open spec fn reported_timestamps(reports: Map<Exchange, PriceReport>) -> Seq<u128> {
    reporting(reports).filter(
        |exchange: Exchange| reports[exchange].reported_timestamp is Some,
    ).map_values(|exchange: Exchange| reports[exchange].reported_timestamp->Some_0)
}

/// The aggregate of the reports: the given median of their prices, and the
/// medians of their timestamps.
pub open spec fn median_of_reports(
    reports: Map<Exchange, PriceReport>,
    median_price: u64,
) -> PriceReport {
    PriceReport {
        midpoint_price: median_price,
        local_timestamp: median::rounded_median(local_timestamps(reports).to_multiset())->Some_0,
        reported_timestamp: median::rounded_median(reported_timestamps(reports).to_multiset()),
    }
}

/// Where the timestamps of the reports are within the exact bound, those of the
/// aggregate are their exact medians. The aggregate says when it was generated
/// if and only if one of the reports does.
pub open spec fn has_exact_timestamps(
    reports: Map<Exchange, PriceReport>,
    aggregate: PriceReport,
) -> bool {
    let local = local_timestamps(reports);
    let reported = reported_timestamps(reports);
    &&& median::all_exact(local) ==> aggregate.local_timestamp == median::exact_median(local)
    &&& aggregate.reported_timestamp is None <==> reported.len() == 0
    &&& reported.len() > 0 && median::all_exact(reported) ==> aggregate.reported_timestamp == Some(
        median::exact_median(reported),
    )
}

/// The most recent report of each exchange. Medians are taken over these alone:
/// there is no smoothing over time.
pub struct LatestReports {
    reports: ExchangeMap<PriceReport>,
}

impl View for LatestReports {
    type V = Map<Exchange, PriceReport>;

    closed spec fn view(&self) -> Map<Exchange, PriceReport> {
        self.reports@
    }
}

proof fn lemma_filter_step<A>(s: Seq<A>, keep: spec_fn(A) -> bool, n: int)
    requires
        0 <= n < s.len(),
    ensures
        s.take(n + 1).filter(keep) == (if keep(s[n]) {
            s.take(n).filter(keep).push(s[n])
        } else {
            s.take(n).filter(keep)
        }),
{
    assert(s.take(n + 1).drop_last() =~= s.take(n));
    reveal(Seq::filter);
}

impl LatestReports {
    /// The underlying map is well formed.
    pub closed spec fn wf(&self) -> bool {
        self.reports.wf()
    }

    /// No exchange has reported.
    pub fn new() -> (latest: Self)
        ensures
            latest.wf(),
            latest@ == Map::<Exchange, PriceReport>::empty(),
    {
        LatestReports { reports: ExchangeMap::new() }
    }

    /// Replaces the report of an exchange.
    pub fn record(&mut self, exchange: Exchange, report: PriceReport)
        requires
            old(self).wf(),
        ensures
            final(self).wf(),
            final(self)@ == old(self)@.insert(exchange, report),
    {
        self.reports.insert(exchange, report);
    }

    /// The latest report of an exchange, if it has reported.
    pub fn report(&self, exchange: Exchange) -> (report: Option<PriceReport>)
        requires
            self.wf(),
        ensures
            report == (if self@.contains_key(exchange) {
                Some(self@[exchange])
            } else {
                None
            }),
    {
        match self.reports.get(exchange) {
            Some(report) => Some(*report),
            None => None,
        }
    }

    /// The latest reports, in the order of the list of exchanges.
    fn in_order(&self) -> (reports: Vec<PriceReport>)
        requires
            self.wf(),
        ensures
            reports@ == reporting(self@).map_values(|exchange: Exchange| self@[exchange]),
    {
        let exchanges: Vec<Exchange> = all_exchanges();
        let mut reports: Vec<PriceReport> = Vec::new();
        let ghost known = |exchange: Exchange| self@.contains_key(exchange);
        let ghost value = |exchange: Exchange| self@[exchange];
        assert(exchanges@.take(0).filter(known).map_values(value) =~= reports@) by {
            reveal(Seq::filter);
        }
        let mut n: usize = 0;
        while n < exchanges.len()
            invariant
                self.wf(),
                n <= exchanges@.len(),
                known == (|exchange: Exchange| self@.contains_key(exchange)),
                value == (|exchange: Exchange| self@[exchange]),
                reports@ == exchanges@.take(n as int).filter(known).map_values(value),
            decreases exchanges@.len() - n,
        {
            proof {
                lemma_filter_step(exchanges@, known, n as int);
            }
            let ghost before = exchanges@.take(n as int).filter(known);
            if let Some(report) = self.report(exchanges[n]) {
                assert(before.push(exchanges@[n as int]).map_values(value) =~= before.map_values(
                    value,
                ).push(report));
                reports.push(report);
            }
            n += 1;
        }
        assert(exchanges@.take(n as int) =~= exchanges@);
        reports
    }

    /// The prices over which the median price is to be taken.
    pub fn midpoint_prices(&self) -> (prices: Vec<u64>)
        requires
            self.wf(),
        ensures
            prices@ == midpoint_prices(self@),
            prices@.len() == reporting(self@).len(),
            forall|i: int|
                0 <= i < prices@.len() ==> #[trigger] prices@[i] == self@[reporting(
                    self@,
                )[i]].midpoint_price,
    {
        let reports: Vec<PriceReport> = self.in_order();
        let mut prices: Vec<u64> = Vec::new();
        let mut n: usize = 0;
        while n < reports.len()
            invariant
                n <= reports@.len(),
                prices@ == reports@.take(n as int).map_values(|r: PriceReport| r.midpoint_price),
            decreases reports@.len() - n,
        {
            prices.push(reports[n].midpoint_price);
            n += 1;
            assert(prices@ =~= reports@.take(n as int).map_values(
                |r: PriceReport| r.midpoint_price,
            ));
        }
        assert(prices@ =~= midpoint_prices(self@));
        prices
    }

    /// Takes in a report from an exchange: records it, and returns the prices
    /// over which the new median is to be taken.
    pub fn receive(&mut self, exchange: Exchange, report: PriceReport) -> (prices: Vec<u64>)
        requires
            old(self).wf(),
        ensures
            final(self).wf(),
            final(self)@ == old(self)@.insert(exchange, report),
            prices@ == midpoint_prices(final(self)@),
            prices@.len() == reporting(final(self)@).len(),
            forall|i: int|
                0 <= i < prices@.len() ==> #[trigger] prices@[i] == final(self)@[reporting(
                    final(self)@,
                )[i]].midpoint_price,
    {
        self.record(exchange, report);
        self.midpoint_prices()
    }

    fn local_timestamps(&self) -> (times: Vec<u128>)
        requires
            self.wf(),
        ensures
            times@ == local_timestamps(self@),
    {
        let reports: Vec<PriceReport> = self.in_order();
        let mut times: Vec<u128> = Vec::new();
        let mut n: usize = 0;
        while n < reports.len()
            invariant
                n <= reports@.len(),
                times@ == reports@.take(n as int).map_values(|r: PriceReport| r.local_timestamp),
            decreases reports@.len() - n,
        {
            times.push(reports[n].local_timestamp);
            n += 1;
            assert(times@ =~= reports@.take(n as int).map_values(
                |r: PriceReport| r.local_timestamp,
            ));
        }
        assert(times@ =~= local_timestamps(self@));
        times
    }

    fn reported_timestamps(&self) -> (times: Vec<u128>)
        requires
            self.wf(),
        ensures
            times@ == reported_timestamps(self@),
    {
        let reports: Vec<PriceReport> = self.in_order();
        let mut times: Vec<u128> = Vec::new();
        let ghost exchanges = reporting(self@);
        let ghost timed = |exchange: Exchange| self@[exchange].reported_timestamp is Some;
        let ghost time = |exchange: Exchange| self@[exchange].reported_timestamp->Some_0;
        assert(exchanges.take(0).filter(timed).map_values(time) =~= times@) by {
            reveal(Seq::filter);
        }
        let mut n: usize = 0;
        while n < reports.len()
            invariant
                n <= reports@.len(),
                reports@ == exchanges.map_values(|exchange: Exchange| self@[exchange]),
                timed == (|exchange: Exchange| self@[exchange].reported_timestamp is Some),
                time == (|exchange: Exchange| self@[exchange].reported_timestamp->Some_0),
                times@ == exchanges.take(n as int).filter(timed).map_values(time),
            decreases reports@.len() - n,
        {
            proof {
                lemma_filter_step(exchanges, timed, n as int);
            }
            let ghost before = exchanges.take(n as int).filter(timed);
            if let Some(reported) = reports[n].reported_timestamp {
                assert(before.push(exchanges[n as int]).map_values(time) =~= before.map_values(
                    time,
                ).push(reported));
                times.push(reported);
            }
            n += 1;
        }
        assert(exchanges.take(n as int) =~= exchanges);
        times
    }

    /// The aggregate of the latest reports, given the median of their prices.
    pub fn median_report(&self, median_price: u64) -> (report: PriceReport)
        requires
            self.wf(),
            exists|exchange: Exchange| self@.contains_key(exchange),
        ensures
            report == median_of_reports(self@, median_price),
            has_exact_timestamps(self@, report),
            report.midpoint_price == median_price,
    {
        let local: Vec<u128> = self.local_timestamps();
        let reported: Vec<u128> = self.reported_timestamps();
        proof {
            let exchange = choose|exchange: Exchange| self@.contains_key(exchange);
            law_reporting_exchanges_count(self@, exchange);
        }
        let local_timestamp: u128 = match timestamp_median(local) {
            Some(time) => time,
            None => 0,
        };
        PriceReport {
            midpoint_price: median_price,
            local_timestamp,
            reported_timestamp: timestamp_median(reported),
        }
    }
}

proof fn lemma_filter_no_duplicates<A>(s: Seq<A>, keep: spec_fn(A) -> bool)
    requires
        s.no_duplicates(),
    ensures
        s.filter(keep).no_duplicates(),
        forall|x: A| #[trigger] s.filter(keep).contains(x) ==> s.contains(x),
    decreases s.len(),
{
    reveal(Seq::filter);
    if s.len() > 0 {
        let front = s.drop_last();
        lemma_filter_no_duplicates(front, keep);
        assert forall|x: A| #[trigger] s.filter(keep).contains(x) implies s.contains(x) by {
            if front.filter(keep).contains(x) {
                assert(front.contains(x));
                let i = choose|i: int| 0 <= i < front.len() && front[i] == x;
                assert(s[i] == x);
            } else {
                let out = s.filter(keep);
                let k = choose|k: int| 0 <= k < out.len() && out[k] == x;
                assert(k < front.filter(keep).len() ==> front.filter(keep)[k] == x);
                assert(s[s.len() - 1] == x);
            }
        }
        if front.filter(keep).contains(s.last()) {
            assert(front.contains(s.last()));
            let i = choose|i: int| 0 <= i < front.len() && front[i] == s.last();
            assert(s[i] == s[s.len() - 1]);
        }
    }
}

/// No exchange counts twice, and every exchange that counts gives one price
/// and one time of receipt.
pub proof fn law_each_exchange_counts_once(reports: Map<Exchange, PriceReport>)
    ensures
        reporting(reports).no_duplicates(),
        midpoint_prices(reports).len() == reporting(reports).len(),
        local_timestamps(reports).len() == reporting(reports).len(),
        reported_timestamps(reports).len() <= reporting(reports).len(),
{
    broadcast use vstd::seq_lib::group_filter_ensures;

    lemma_filter_no_duplicates(
        exchanges::exchange_list(),
        |exchange: Exchange| reports.contains_key(exchange),
    );
}

/// The time of an aggregate lies between those of the earliest and the latest
/// of the reports that it is made of.
pub proof fn law_aggregate_lies_between(
    reports: Map<Exchange, PriceReport>,
    aggregate: PriceReport,
    earliest: u128,
    latest: u128,
)
    requires
        exists|exchange: Exchange| reports.contains_key(exchange),
        forall|exchange: Exchange| #[trigger]
            reports.contains_key(exchange) ==> earliest <= reports[exchange].local_timestamp
                <= latest,
        latest <= median::EXACT_BOUND,
        has_exact_timestamps(reports, aggregate),
    ensures
        earliest <= aggregate.local_timestamp <= latest,
{
    let local = local_timestamps(reports);
    let exchange = choose|exchange: Exchange| reports.contains_key(exchange);
    law_reporting_exchanges_count(reports, exchange);
    assert forall|i: int| 0 <= i < local.len() implies earliest <= #[trigger] local[i] <= latest by {
        let reporter = reporting(reports)[i];
        law_reporting_exchanges_count(reports, reporter);
        assert(reporting(reports).contains(reporter));
    }
    median::law_median_lies_between(local, earliest, latest);
}

/// Only the most recent report of an exchange counts.
pub proof fn law_later_report_replaces_earlier(
    reports: Map<Exchange, PriceReport>,
    exchange: Exchange,
    earlier: PriceReport,
    later: PriceReport,
    median_price: u64,
)
    ensures
        midpoint_prices(reports.insert(exchange, earlier).insert(exchange, later))
            == midpoint_prices(reports.insert(exchange, later)),
        median_of_reports(reports.insert(exchange, earlier).insert(exchange, later), median_price)
            == median_of_reports(reports.insert(exchange, later), median_price),
{
    assert(reports.insert(exchange, earlier).insert(exchange, later) =~= reports.insert(
        exchange,
        later,
    ));
}

/// The order in which two exchanges report does not matter.
pub proof fn law_order_of_exchanges_is_irrelevant(
    reports: Map<Exchange, PriceReport>,
    a: Exchange,
    report_a: PriceReport,
    b: Exchange,
    report_b: PriceReport,
    median_price: u64,
)
    requires
        a != b,
    ensures
        midpoint_prices(reports.insert(a, report_a).insert(b, report_b)) == midpoint_prices(
            reports.insert(b, report_b).insert(a, report_a),
        ),
        median_of_reports(reports.insert(a, report_a).insert(b, report_b), median_price)
            == median_of_reports(reports.insert(b, report_b).insert(a, report_a), median_price),
{
    assert(reports.insert(a, report_a).insert(b, report_b) =~= reports.insert(b, report_b).insert(
        a,
        report_a,
    ));
}

/// While a single exchange has reported, the timestamps of the aggregate are
/// those of its report.
pub proof fn law_single_report_is_its_own_median(
    exchange: Exchange,
    report: PriceReport,
    aggregate: PriceReport,
)
    requires
        report.local_timestamp <= median::EXACT_BOUND,
        report.reported_timestamp is Some ==> report.reported_timestamp->Some_0
            <= median::EXACT_BOUND,
        has_exact_timestamps(
            Map::<Exchange, PriceReport>::empty().insert(exchange, report),
            aggregate,
        ),
    ensures
        aggregate.local_timestamp == report.local_timestamp,
        aggregate.reported_timestamp == report.reported_timestamp,
{
    let reports = Map::<Exchange, PriceReport>::empty().insert(exchange, report);
    reveal_with_fuel(Seq::filter, 7);
    assert(reporting(reports) =~= seq![exchange]);
    assert(local_timestamps(reports) =~= seq![report.local_timestamp]);
    median::law_median_of_equal_values(local_timestamps(reports), report.local_timestamp);
    if let Some(time) = report.reported_timestamp {
        assert(reported_timestamps(reports) =~= seq![time]);
        median::law_median_of_equal_values(reported_timestamps(reports), time);
    } else {
        assert(reported_timestamps(reports) =~= Seq::<u128>::empty());
    }
}

/// An exchange counts towards the medians if and only if it has reported.
pub proof fn law_reporting_exchanges_count(reports: Map<Exchange, PriceReport>, exchange: Exchange)
    ensures
        reporting(reports).contains(exchange) <==> reports.contains_key(exchange),
{
    let list = exchanges::exchange_list();
    let known = |exchange: Exchange| reports.contains_key(exchange);
    assert(list[exchange.position()] == exchange);
    broadcast use vstd::seq_lib::group_filter_ensures;
    if reports.contains_key(exchange) {
        assert(list.filter(known).contains(list[exchange.position()]));
    }
}

/// What the reports of the listed exchanges give, in the order of the list.
spec fn gathered<A>(
    list: Seq<Exchange>,
    reports: Map<Exchange, PriceReport>,
    given: spec_fn(PriceReport) -> Option<A>,
) -> Seq<A>
    decreases list.len(),
{
    if list.len() == 0 {
        Seq::empty()
    } else {
        let before = gathered(list.drop_last(), reports, given);
        if reports.contains_key(list.last()) && given(reports[list.last()]) is Some {
            before.push(given(reports[list.last()])->Some_0)
        } else {
            before
        }
    }
}

proof fn lemma_prices_are_gathered(list: Seq<Exchange>, reports: Map<Exchange, PriceReport>)
    ensures
        list.filter(|exchange: Exchange| reports.contains_key(exchange)).map_values(
            |exchange: Exchange| reports[exchange].midpoint_price,
        ) == gathered(list, reports, |report: PriceReport| Some(report.midpoint_price)),
    decreases list.len(),
{
    reveal(Seq::filter);
    let known = |exchange: Exchange| reports.contains_key(exchange);
    let price = |exchange: Exchange| reports[exchange].midpoint_price;
    if list.len() > 0 {
        let front = list.drop_last().filter(known);
        lemma_prices_are_gathered(list.drop_last(), reports);
        assert(front.push(list.last()).map_values(price) =~= front.map_values(price).push(
            price(list.last()),
        ));
    } else {
        assert(list.filter(known).map_values(price) =~= Seq::<u64>::empty());
    }
}

proof fn lemma_local_timestamps_are_gathered(
    list: Seq<Exchange>,
    reports: Map<Exchange, PriceReport>,
)
    ensures
        list.filter(|exchange: Exchange| reports.contains_key(exchange)).map_values(
            |exchange: Exchange| reports[exchange].local_timestamp,
        ) == gathered(list, reports, |report: PriceReport| Some(report.local_timestamp)),
    decreases list.len(),
{
    reveal(Seq::filter);
    let known = |exchange: Exchange| reports.contains_key(exchange);
    let time = |exchange: Exchange| reports[exchange].local_timestamp;
    if list.len() > 0 {
        let front = list.drop_last().filter(known);
        lemma_local_timestamps_are_gathered(list.drop_last(), reports);
        assert(front.push(list.last()).map_values(time) =~= front.map_values(time).push(
            time(list.last()),
        ));
    } else {
        assert(list.filter(known).map_values(time) =~= Seq::<u128>::empty());
    }
}

proof fn lemma_reported_timestamps_are_gathered(
    list: Seq<Exchange>,
    reports: Map<Exchange, PriceReport>,
)
    ensures
        list.filter(|exchange: Exchange| reports.contains_key(exchange)).filter(
            |exchange: Exchange| reports[exchange].reported_timestamp is Some,
        ).map_values(|exchange: Exchange| reports[exchange].reported_timestamp->Some_0)
            == gathered(list, reports, |report: PriceReport| report.reported_timestamp),
    decreases list.len(),
{
    reveal(Seq::filter);
    let known = |exchange: Exchange| reports.contains_key(exchange);
    let timed = |exchange: Exchange| reports[exchange].reported_timestamp is Some;
    let time = |exchange: Exchange| reports[exchange].reported_timestamp->Some_0;
    if list.len() > 0 {
        let front = list.drop_last().filter(known);
        let front_timed = front.filter(timed);
        lemma_reported_timestamps_are_gathered(list.drop_last(), reports);
        assert(front.push(list.last()).drop_last() =~= front);
        assert(front_timed.push(list.last()).map_values(time) =~= front_timed.map_values(time).push(
            time(list.last()),
        ));
    } else {
        assert(list.filter(known).filter(timed).map_values(time) =~= Seq::<u128>::empty());
    }
}

proof fn lemma_new_report_is_gathered<A>(
    list: Seq<Exchange>,
    reports: Map<Exchange, PriceReport>,
    exchange: Exchange,
    report: PriceReport,
    given: spec_fn(PriceReport) -> Option<A>,
)
    requires
        list.no_duplicates(),
        !reports.contains_key(exchange),
    ensures
        gathered(list, reports.insert(exchange, report), given).to_multiset() == (
        if list.contains(exchange) && given(report) is Some {
            gathered(list, reports, given).to_multiset().insert(given(report)->Some_0)
        } else {
            gathered(list, reports, given).to_multiset()
        }),
    decreases list.len(),
{
    broadcast use vstd::seq_lib::group_to_multiset_ensures;

    if list.len() > 0 {
        let front = list.drop_last();
        let after = reports.insert(exchange, report);
        lemma_new_report_is_gathered(front, reports, exchange, report, given);
        assert(list =~= front.push(list.last()));
        if list.last() == exchange {
            if front.contains(exchange) {
                let i = choose|i: int| 0 <= i < front.len() && front[i] == exchange;
                assert(list[i] == list[list.len() - 1]);
            }
            assert(list[list.len() - 1] == exchange);
        } else {
            assert(list.contains(exchange) <==> front.contains(exchange)) by {
                if list.contains(exchange) {
                    let i = choose|i: int| 0 <= i < list.len() && list[i] == exchange;
                    assert(front[i] == exchange);
                }
                if front.contains(exchange) {
                    let i = choose|i: int| 0 <= i < front.len() && front[i] == exchange;
                    assert(list[i] == exchange);
                }
            }
        }
        assert(gathered(list, after, given).to_multiset() =~= if list.contains(exchange) && given(
            report,
        ) is Some {
            gathered(list, reports, given).to_multiset().insert(given(report)->Some_0)
        } else {
            gathered(list, reports, given).to_multiset()
        });
    }
}

/// Each exchange that has reported gives the price and the time of receipt of
/// its own report.
pub proof fn law_prices_are_those_of_the_reports(reports: Map<Exchange, PriceReport>, i: int)
    requires
        0 <= i < reporting(reports).len(),
    ensures
        reports.contains_key(reporting(reports)[i]),
        midpoint_prices(reports).len() == reporting(reports).len(),
        midpoint_prices(reports)[i] == reports[reporting(reports)[i]].midpoint_price,
        local_timestamps(reports).len() == reporting(reports).len(),
        local_timestamps(reports)[i] == reports[reporting(reports)[i]].local_timestamp,
{
    law_reporting_exchanges_count(reports, reporting(reports)[i]);
    assert(reporting(reports).contains(reporting(reports)[i]));
}

/// Before any exchange has reported there is nothing to take a median of. The
/// first report of an exchange adds its price and its time of receipt, and the
/// time at which it was generated if it says so, and takes nothing away.
pub proof fn law_first_report_of_an_exchange_adds_to_the_medians(
    reports: Map<Exchange, PriceReport>,
    exchange: Exchange,
    report: PriceReport,
)
    requires
        !reports.contains_key(exchange),
    ensures
        midpoint_prices(Map::empty()).len() == 0,
        local_timestamps(Map::empty()).len() == 0,
        reported_timestamps(Map::empty()).len() == 0,
        midpoint_prices(reports.insert(exchange, report)).to_multiset() == midpoint_prices(
            reports,
        ).to_multiset().insert(report.midpoint_price),
        local_timestamps(reports.insert(exchange, report)).to_multiset() == local_timestamps(
            reports,
        ).to_multiset().insert(report.local_timestamp),
        reported_timestamps(reports.insert(exchange, report)).to_multiset() == (
        match report.reported_timestamp {
            Some(time) => reported_timestamps(reports).to_multiset().insert(time),
            None => reported_timestamps(reports).to_multiset(),
        }),
{
    let list = exchanges::exchange_list();
    let after = reports.insert(exchange, report);
    reveal_with_fuel(Seq::filter, 7);
    assert(reporting(Map::empty()) =~= Seq::<Exchange>::empty());
    assert(list[exchange.position()] == exchange);
    lemma_prices_are_gathered(list, reports);
    lemma_prices_are_gathered(list, after);
    lemma_new_report_is_gathered(
        list,
        reports,
        exchange,
        report,
        |report: PriceReport| Some(report.midpoint_price),
    );
    lemma_local_timestamps_are_gathered(list, reports);
    lemma_local_timestamps_are_gathered(list, after);
    lemma_new_report_is_gathered(
        list,
        reports,
        exchange,
        report,
        |report: PriceReport| Some(report.local_timestamp),
    );
    lemma_reported_timestamps_are_gathered(list, reports);
    lemma_reported_timestamps_are_gathered(list, after);
    lemma_new_report_is_gathered(
        list,
        reports,
        exchange,
        report,
        |report: PriceReport| report.reported_timestamp,
    );
}

/// A further report of an exchange puts its price in the place of the one that
/// the exchange gave before, and leaves the others.
pub proof fn law_further_report_replaces_one_price(
    reports: Map<Exchange, PriceReport>,
    exchange: Exchange,
    report: PriceReport,
)
    requires
        reports.contains_key(exchange),
    ensures
        midpoint_prices(reports.insert(exchange, report)).to_multiset() == midpoint_prices(
            reports,
        ).to_multiset().remove(reports[exchange].midpoint_price).insert(report.midpoint_price),
        local_timestamps(reports.insert(exchange, report)).to_multiset() == local_timestamps(
            reports,
        ).to_multiset().remove(reports[exchange].local_timestamp).insert(report.local_timestamp),
{
    let others = reports.remove(exchange);
    assert(others.insert(exchange, reports[exchange]) =~= reports);
    assert(others.insert(exchange, report) =~= reports.insert(exchange, report));
    law_first_report_of_an_exchange_adds_to_the_medians(others, exchange, reports[exchange]);
    law_first_report_of_an_exchange_adds_to_the_medians(others, exchange, report);
    assert(midpoint_prices(reports).to_multiset().remove(reports[exchange].midpoint_price)
        =~= midpoint_prices(others).to_multiset());
    assert(local_timestamps(reports).to_multiset().remove(reports[exchange].local_timestamp)
        =~= local_timestamps(others).to_multiset());
}

/// The aggregate has the median price that it was given, and the medians of
/// the times of receipt and of generation.
pub proof fn law_aggregate_is_made_of_medians(
    reports: Map<Exchange, PriceReport>,
    median_price: u64,
)
    ensures
        median_of_reports(reports, median_price).midpoint_price == median_price,
        median_of_reports(reports, median_price).local_timestamp == median::rounded_median(
            local_timestamps(reports).to_multiset(),
        )->Some_0,
        median_of_reports(reports, median_price).reported_timestamp == median::rounded_median(
            reported_timestamps(reports).to_multiset(),
        ),
{
}

/// Up to 2^52 the time of receipt of an aggregate is the middle one of those of
/// the reports, in any ascending order of theirs, or halfway between the two
/// in the middle, rounded down.
pub proof fn law_aggregate_is_received_in_the_middle(
    reports: Map<Exchange, PriceReport>,
    aggregate: PriceReport,
    sorted: Seq<u128>,
)
    requires
        has_exact_timestamps(reports, aggregate),
        forall|exchange: Exchange| #[trigger]
            reports.contains_key(exchange) ==> reports[exchange].local_timestamp
                <= 0x10_0000_0000_0000,
        sorted.len() > 0,
        sorted.to_multiset() == local_timestamps(reports).to_multiset(),
        forall|i: int, j: int| 0 <= i <= j < sorted.len() ==> sorted[i] <= sorted[j],
    ensures
        sorted.len() % 2 == 1 ==> aggregate.local_timestamp == sorted[sorted.len() as int / 2],
        sorted.len() % 2 == 0 ==> aggregate.local_timestamp == (sorted[sorted.len() as int / 2 - 1]
            + sorted[sorted.len() as int / 2]) / 2,
{
    let local = local_timestamps(reports);
    assert forall|i: int| 0 <= i < local.len() implies #[trigger] local[i] <= 0x10_0000_0000_0000 by {
        law_prices_are_those_of_the_reports(reports, i);
    }
    median::law_median_is_in_the_middle(local, sorted);
}

/// An aggregate says when it was generated if and only if one of the reports
/// does. Up to 2^52 that time is the middle one of those of the reports, in
/// any ascending order of theirs, or halfway between the two in the middle,
/// rounded down.
pub proof fn law_aggregate_is_generated_in_the_middle(
    reports: Map<Exchange, PriceReport>,
    aggregate: PriceReport,
    sorted: Seq<u128>,
)
    requires
        has_exact_timestamps(reports, aggregate),
        sorted.to_multiset() == reported_timestamps(reports).to_multiset(),
        forall|i: int| 0 <= i < sorted.len() ==> #[trigger] sorted[i] <= 0x10_0000_0000_0000,
        forall|i: int, j: int| 0 <= i <= j < sorted.len() ==> sorted[i] <= sorted[j],
    ensures
        aggregate.reported_timestamp is Some <==> sorted.len() > 0,
        sorted.len() % 2 == 1 ==> aggregate.reported_timestamp == Some(
            sorted[sorted.len() as int / 2],
        ),
        sorted.len() > 0 && sorted.len() % 2 == 0 ==> aggregate.reported_timestamp->Some_0 == (
        sorted[sorted.len() as int / 2 - 1] + sorted[sorted.len() as int / 2]) / 2,
{
    let reported = reported_timestamps(reports);
    sorted.to_multiset_ensures();
    reported.to_multiset_ensures();
    if sorted.len() > 0 {
        assert forall|i: int| 0 <= i < reported.len() implies #[trigger] reported[i]
            <= 0x10_0000_0000_0000 by {
            assert(reported.contains(reported[i]));
            assert(sorted.to_multiset().count(reported[i]) > 0);
            assert(sorted.contains(reported[i]));
        }
        median::law_median_is_in_the_middle(reported, sorted);
    }
}

} // verus!
