use relayer::external_events::errors::ReporterError;
use relayer::external_events::exchanges::{all_exchanges, Exchange, ExchangeMap};
use relayer::external_events::latest::LatestReports;
use relayer::external_events::price_report::PriceReport;
use relayer::external_events::reporter;
use relayer::external_events::reporters;
use relayer::external_events::tokens::Token;

fn token(addr: &str, named: bool, decimals: Option<u8>) -> Token {
    Token { addr: addr.to_string(), named, decimals }
}

fn report(price: f64, local: u128, reported: Option<u128>) -> PriceReport {
    PriceReport {
        midpoint_price: price.to_bits(),
        local_timestamp: local,
        reported_timestamp: reported,
    }
}

fn new_reporter() -> (reporter::PriceReporter, ExchangeMap<ring_channel::RingReceiver<PriceReport>>) {
    reporter::PriceReporter::new(token("eth", true, Some(18)), token("usdc", true, Some(6))).unwrap()
}

#[test]
fn exchanges_are_listed() {
    assert_eq!(
        all_exchanges(),
        vec![
            Exchange::Median,
            Exchange::Binance,
            Exchange::Coinbase,
            Exchange::Kraken,
            Exchange::Okx,
            Exchange::UniswapV3,
        ]
    );
    assert_eq!(reporter::connected_exchanges(), all_exchanges()[1..].to_vec());
}

#[test]
fn exchange_maps_hold_what_is_inserted() {
    let mut map: ExchangeMap<u8> = ExchangeMap::new();
    assert_eq!(map.get(Exchange::Okx), None);
    map.insert(Exchange::Okx, 3);
    map.insert(Exchange::Okx, 4);
    map.insert(Exchange::Median, 5);
    assert_eq!(map.get(Exchange::Okx), Some(&4));
    assert_eq!(map.get(Exchange::Kraken), None);
    assert_eq!(map.remove(Exchange::Okx), Some(4));
    assert_eq!(map.remove(Exchange::Okx), None);
    assert_eq!(map.get(Exchange::Median), Some(&5));
}

#[test]
fn a_new_reporter_has_seen_nothing() {
    let (reporter, receivers) = new_reporter();
    for exchange in all_exchanges() {
        assert_eq!(reporter.peek(exchange), Ok(PriceReport::default()));
        assert!(receivers.get(exchange).is_some());
    }
    assert!(reporter.is_named());
}

#[test]
fn reports_go_to_the_streams_of_their_exchange() {
    let (mut reporter, mut firsts) = new_reporter();
    let mut okx = reporter.create_new_receiver(Exchange::Okx);
    let mut kraken = reporter.create_new_receiver(Exchange::Kraken);
    let mut latest = LatestReports::new();
    let sent = report(10.5, 100, None);
    let prices = reporter.receive(&mut latest, Exchange::Okx, sent).unwrap();
    assert_eq!(prices, vec![10.5f64.to_bits()]);
    assert_eq!(okx.try_recv(), Ok(sent));
    assert_eq!(firsts.remove(Exchange::Okx).unwrap().try_recv(), Ok(sent));
    assert!(okx.try_recv().is_err());
    assert!(kraken.try_recv().is_err());
    assert!(firsts.remove(Exchange::Median).unwrap().try_recv().is_err());
}

#[test]
fn a_report_that_was_not_read_is_replaced() {
    let (mut reporter, _firsts) = new_reporter();
    let mut okx = reporter.create_new_receiver(Exchange::Okx);
    let mut latest = LatestReports::new();
    reporter.receive(&mut latest, Exchange::Okx, report(1.0, 1, None)).unwrap();
    reporter.receive(&mut latest, Exchange::Okx, report(2.0, 2, None)).unwrap();
    assert_eq!(okx.try_recv(), Ok(report(2.0, 2, None)));
    assert!(okx.try_recv().is_err());
}

#[test]
fn medians_go_to_the_median_stream() {
    let (mut reporter, _firsts) = new_reporter();
    let mut medians = reporter.create_new_receiver(Exchange::Median);
    let mut latest = LatestReports::new();
    reporter.receive(&mut latest, Exchange::Binance, report(3.0, 30, Some(29))).unwrap();
    reporter.receive(&mut latest, Exchange::Okx, report(1.0, 10, None)).unwrap();
    let prices =
        reporter.receive(&mut latest, Exchange::UniswapV3, report(2.0, 25, Some(20))).unwrap();
    assert_eq!(prices, vec![3.0f64.to_bits(), 1.0f64.to_bits(), 2.0f64.to_bits()]);
    let published = reporter.publish_median(&latest, 2.0f64.to_bits()).unwrap();
    assert_eq!(published, report(2.0, 25, Some(24)));
    assert_eq!(medians.try_recv(), Ok(published));
}

#[test]
fn a_lost_receiver_is_reported() {
    let (mut reporter, mut firsts) = new_reporter();
    let mut late = reporter.create_new_receiver(Exchange::Okx);
    drop(firsts.remove(Exchange::Okx));
    let mut latest = LatestReports::new();
    let sent = report(1.0, 1, None);
    assert_eq!(
        reporter.receive(&mut latest, Exchange::Okx, sent),
        Err(ReporterError::Disconnected)
    );
    // The report is recorded, but nobody behind the lost receiver gets it.
    assert_eq!(latest.report(Exchange::Okx), Some(sent));
    assert!(late.try_recv().is_err());
    assert_eq!(
        reporter.receive(&mut latest, Exchange::Binance, sent).map(|prices| prices.len()),
        Ok(2)
    );
}

#[test]
fn the_latest_report_can_be_peeked_at() {
    let (mut reporter, _firsts) = new_reporter();
    reporter.record_latest(Exchange::Kraken, report(5.0, 6, Some(7)));
    assert_eq!(reporter.peek(Exchange::Kraken), Ok(report(5.0, 6, Some(7))));
    assert_eq!(reporter.peek(Exchange::Okx), Ok(PriceReport::default()));
    let all = reporter.peek_all().unwrap();
    for exchange in all_exchanges() {
        assert_eq!(all.get(exchange).copied(), reporter.peek(exchange).ok());
    }
}

#[test]
fn only_named_pairs_on_uniswap_are_adjusted() {
    let (reporter, _firsts) = new_reporter();
    assert_eq!(reporter.decimals_adjustment(Exchange::UniswapV3), Some(12));
    assert_eq!(reporter.decimals_adjustment(Exchange::Okx), None);
    let (reversed, _firsts) =
        reporter::PriceReporter::new(token("usdc", true, Some(6)), token("eth", true, Some(18)))
            .unwrap();
    assert_eq!(reversed.decimals_adjustment(Exchange::UniswapV3), Some(-12));
    let (unnamed, _firsts) =
        reporter::PriceReporter::new(token("eth", true, Some(18)), token("0xabc", false, None))
            .unwrap();
    assert!(!unnamed.is_named());
    assert_eq!(unnamed.decimals_adjustment(Exchange::UniswapV3), None);
}

#[test]
fn tokens_say_what_is_known_of_them() {
    let eth = token("eth", true, Some(18));
    assert!(eth.is_named());
    assert_eq!(eth.get_decimals(), Some(18));
    assert_eq!(eth.clone(), eth);
}

#[test]
fn median_of_an_odd_number_is_the_middle() {
    let mut latest = LatestReports::new();
    latest.record(Exchange::Binance, report(0.0, 9, None));
    latest.record(Exchange::Coinbase, report(0.0, 1, None));
    latest.record(Exchange::Kraken, report(0.0, 5, None));
    let median = latest.median_report(1.5f64.to_bits());
    assert_eq!(median, report(1.5, 5, None));
}

#[test]
fn median_of_an_even_number_is_the_mean_rounded_down() {
    let mut latest = LatestReports::new();
    latest.record(Exchange::Binance, report(0.0, 10, Some(4)));
    latest.record(Exchange::Coinbase, report(0.0, 3, Some(4)));
    assert_eq!(latest.median_report(0).local_timestamp, 6);
    assert_eq!(latest.median_report(0).reported_timestamp, Some(4));
}

#[test]
fn median_ignores_the_order_of_arrival() {
    let mut a = LatestReports::new();
    a.record(Exchange::Binance, report(1.0, 10, Some(1)));
    a.record(Exchange::Okx, report(2.0, 20, Some(2)));
    let mut b = LatestReports::new();
    b.record(Exchange::Okx, report(2.0, 20, Some(2)));
    b.record(Exchange::Binance, report(1.0, 10, Some(1)));
    assert_eq!(a.median_report(7), b.median_report(7));
    assert_eq!(a.midpoint_prices(), b.midpoint_prices());
}

#[test]
fn only_the_most_recent_report_of_an_exchange_counts() {
    let mut latest = LatestReports::new();
    latest.record(Exchange::Okx, report(1.0, 1000, Some(1000)));
    assert_eq!(latest.receive(Exchange::Okx, report(2.0, 8, None)), vec![2.0f64.to_bits()]);
    assert_eq!(latest.median_report(2.0f64.to_bits()), report(2.0, 8, None));
}

#[test]
fn medians_are_exact_at_the_bound() {
    let bound: u128 = relayer::external_events::median::EXACT_BOUND;
    let mut latest = LatestReports::new();
    latest.record(Exchange::Okx, report(0.0, bound, None));
    latest.record(Exchange::Kraken, report(0.0, bound - 1, None));
    latest.record(Exchange::Binance, report(0.0, bound, None));
    latest.record(Exchange::Coinbase, report(0.0, bound - 1, None));
    assert_eq!(latest.median_report(0).local_timestamp, bound - 1);
}

#[test]
fn medians_beyond_the_bound_lose_their_low_bits() {
    let mut latest = LatestReports::new();
    latest.record(Exchange::Okx, report(0.0, (1u128 << 53) + 1, None));
    assert_eq!(latest.median_report(0).local_timestamp, 1u128 << 53);
}

#[test]
fn median_reporter_uses_the_default_exchanges() {
    let (chosen, _first) = reporters::PriceReporter::new(
        token("usdc", true, Some(6)),
        token("eth", true, Some(18)),
        Some(vec![Exchange::Okx]),
    )
    .unwrap();
    assert_eq!(chosen.exchanges, vec![Exchange::Okx]);
    let (default, _first) = reporters::PriceReporter::new(
        token("usdc", true, Some(6)),
        token("eth", true, Some(18)),
        None,
    )
    .unwrap();
    assert_eq!(
        default.exchanges,
        vec![Exchange::Binance, Exchange::Coinbase, Exchange::Kraken, Exchange::Okx]
    );
    assert_eq!(default.quote_token.addr, "usdc");
    assert_eq!(default.base_token.addr, "eth");
}

#[test]
fn median_reporter_publishes_to_every_stream() {
    let (mut reporter, mut first) = reporters::PriceReporter::new(
        token("usdc", true, Some(6)),
        token("eth", true, Some(18)),
        None,
    )
    .unwrap();
    let mut second = reporter.create_new_receiver();
    assert_eq!(reporter.peek(), Ok(PriceReport::default()));
    let mut latest = LatestReports::new();
    latest.record(Exchange::Okx, report(4.0, 40, Some(41)));
    let median = reporter.publish_median(&latest, 4.0f64.to_bits()).unwrap();
    assert_eq!(median, report(4.0, 40, Some(41)));
    assert_eq!(first.try_recv(), Ok(median));
    assert_eq!(second.try_recv(), Ok(median));
    reporter.record_latest(median);
    assert_eq!(reporter.peek(), Ok(median));
    drop(second);
    assert_eq!(reporter.publish_median(&latest, 0), Err(ReporterError::Disconnected));
    assert!(first.try_recv().is_ok());
}

#[test]
fn aggregate_times_lie_between_those_of_the_reports() {
    let mut latest = LatestReports::new();
    let times: [u128; 4] = [700, 200, 900, 300];
    for (exchange, time) in reporter::connected_exchanges().into_iter().zip(times) {
        latest.record(exchange, report(1.0, time, Some(time - 1)));
    }
    let median = latest.median_report(0);
    assert_eq!(median.local_timestamp, 500);
    assert_eq!(median.reported_timestamp, Some(499));
    assert_eq!(latest.midpoint_prices().len(), 4);
}
