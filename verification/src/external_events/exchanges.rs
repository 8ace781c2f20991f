//! The exchanges that prices come from, and maps keyed by exchange.

use vstd::prelude::*;

verus! {

/// A source of prices: an exchange, or the median over all of them.
#[derive(Clone, Copy, Debug, PartialEq, Eq, Structural, Hash)]
pub enum Exchange {
    Median,
    Binance,
    Coinbase,
    Kraken,
    Okx,
    UniswapV3,
}

/// Every source of prices, the median first.
pub open spec fn exchange_list() -> Seq<Exchange> {
    seq![
        Exchange::Median,
        Exchange::Binance,
        Exchange::Coinbase,
        Exchange::Kraken,
        Exchange::Okx,
        Exchange::UniswapV3,
    ]
}

/// Every source of prices, the median first.
pub fn all_exchanges() -> (exchanges: Vec<Exchange>)
    ensures
        exchanges@ == exchange_list(),
        exchanges@.len() == 6,
        exchanges@[0] == Exchange::Median,
        exchanges@.no_duplicates(),
        forall|exchange: Exchange| #[trigger] exchanges@.contains(exchange),
{
    proof {
        assert forall|exchange: Exchange| #[trigger] exchange_list().contains(exchange) by {
            assert(exchange_list()[exchange.position()] == exchange);
        }
    }
    vec![
        Exchange::Median,
        Exchange::Binance,
        Exchange::Coinbase,
        Exchange::Kraken,
        Exchange::Okx,
        Exchange::UniswapV3,
    ]
}

impl Exchange {
    /// The position of the exchange in the list of all of them.
    pub open spec fn position(self) -> int {
        match self {
            Exchange::Median => 0,
            Exchange::Binance => 1,
            Exchange::Coinbase => 2,
            Exchange::Kraken => 3,
            Exchange::Okx => 4,
            Exchange::UniswapV3 => 5,
        }
    }

    fn slot(self) -> (slot: usize)
        ensures
            slot == self.position(),
    {
        match self {
            Exchange::Median => 0,
            Exchange::Binance => 1,
            Exchange::Coinbase => 2,
            Exchange::Kraken => 3,
            Exchange::Okx => 4,
            Exchange::UniswapV3 => 5,
        }
    }
}

/// The list of exchanges holds each of them once, at its position.
pub proof fn law_every_exchange_is_listed_once(exchange: Exchange, i: int)
    requires
        0 <= i < exchange_list().len(),
    ensures
        0 <= exchange.position() < exchange_list().len(),
        exchange_list()[i] == exchange <==> i == exchange.position(),
{
}

/// A map from exchanges to values.
pub struct ExchangeMap<V> {
    /// The value of each exchange, at the exchange's position.
    slots: Vec<Option<V>>,
}

impl<V> View for ExchangeMap<V> {
    type V = Map<Exchange, V>;

    closed spec fn view(&self) -> Map<Exchange, V> {
        Map::new(
            |exchange: Exchange| self.slots@[exchange.position()] is Some,
            |exchange: Exchange| self.slots@[exchange.position()]->Some_0,
        )
    }
}

impl<V> ExchangeMap<V> {
    /// There is one slot for each exchange.
    pub closed spec fn wf(&self) -> bool {
        self.slots@.len() == exchange_list().len()
    }

    /// The empty map.
    pub fn new() -> (map: Self)
        ensures
            map.wf(),
            map@ == Map::<Exchange, V>::empty(),
    {
        let map = ExchangeMap { slots: vec![None, None, None, None, None, None] };
        assert(map@ =~= Map::<Exchange, V>::empty());
        map
    }

    /// Sets the value of an exchange.
    pub fn insert(&mut self, exchange: Exchange, value: V)
        requires
            old(self).wf(),
        ensures
            final(self).wf(),
            final(self)@ == old(self)@.insert(exchange, value),
    {
        self.slots[exchange.slot()] = Some(value);
        assert(self@ =~= old(self)@.insert(exchange, value));
    }

    /// Takes the value of an exchange out of the map.
    pub fn remove(&mut self, exchange: Exchange) -> (value: Option<V>)
        requires
            old(self).wf(),
        ensures
            final(self).wf(),
            final(self)@ == old(self)@.remove(exchange),
            value == (if old(self)@.contains_key(exchange) {
                Some(old(self)@[exchange])
            } else {
                None
            }),
    {
        let mut value: Option<V> = None;
        std::mem::swap(&mut value, &mut self.slots[exchange.slot()]);
        assert(self@ =~= old(self)@.remove(exchange));
        value
    }

    /// The value of an exchange.
    pub fn get(&self, exchange: Exchange) -> (value: Option<&V>)
        requires
            self.wf(),
        ensures
            value == (if self@.contains_key(exchange) {
                Some(&self@[exchange])
            } else {
                None
            }),
    {
        self.slots[exchange.slot()].as_ref()
    }
}

/// The list of exchanges starts with the median, and holds nothing but the six.
pub proof fn law_exchanges_are_listed_in_order()
    ensures
        exchange_list().len() == 6,
        exchange_list()[0] == Exchange::Median,
        exchange_list()[1] == Exchange::Binance,
        exchange_list()[2] == Exchange::Coinbase,
        exchange_list()[3] == Exchange::Kraken,
        exchange_list()[4] == Exchange::Okx,
        exchange_list()[5] == Exchange::UniswapV3,
{
}

} // verus!
