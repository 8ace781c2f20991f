//! Wallets, orders, matches and their counterparts inside an MPC network.

use vstd::prelude::*;
use crate::circuits::constants::{MAX_BALANCES, MAX_ORDERS};
#[allow(unused_imports)]
use crate::circuits::errors;
use crate::circuits::errors::{counted, MpcError, TypeConversionError};

verus! {

/// The depth of wallet state trees.
pub const WALLET_TREE_DEPTH: usize = 8;

/// The side of the market that an order stands on.
#[derive(Clone, Copy, Debug, PartialEq, Eq, Structural)]
pub enum OrderSide {
    Buy,
    Sell,
}

impl OrderSide {
    /// The number that stands for a side: 0 for a buy, 1 for a sell.
    pub open spec fn number(self) -> u8 {
        match self {
            OrderSide::Buy => 0,
            OrderSide::Sell => 1,
        }
    }
}

impl Default for OrderSide {
    /// The side of an empty order is buy.
    fn default() -> (side: Self)
        ensures
            side == OrderSide::Buy,
    {
        OrderSide::Buy
    }
}

impl From<OrderSide> for u8 {
    fn from(order_side: OrderSide) -> (number: Self)
        ensures
            number == (match order_side {
                OrderSide::Buy => 0u8,
                OrderSide::Sell => 1u8,
            }),
    {
        match order_side {
            OrderSide::Buy => 0,
            OrderSide::Sell => 1,
        }
    }
}

impl vstd::std_specs::convert::FromSpecImpl<OrderSide> for u8 {
    open spec fn obeys_from_spec() -> bool {
        true
    }

    open spec fn from_spec(order_side: OrderSide) -> u8 {
        order_side.number()
    }
}

impl From<OrderSide> for u64 {
    fn from(order_side: OrderSide) -> (number: Self)
        ensures
            number == (match order_side {
                OrderSide::Buy => 0u64,
                OrderSide::Sell => 1u64,
            }),
    {
        u8::from(order_side) as u64
    }
}

impl vstd::std_specs::convert::FromSpecImpl<OrderSide> for u64 {
    open spec fn obeys_from_spec() -> bool {
        true
    }

    open spec fn from_spec(order_side: OrderSide) -> u64 {
        order_side.number() as u64
    }
}

/// An amount of one token.
#[derive(Clone, Copy, Debug, PartialEq, Eq, Structural)]
pub struct Balance {
    /// The mint (ERC-20 contract address) of the token.
    pub mint: u64,
    /// The amount held.
    pub amount: u64,
}

impl Default for Balance {
    fn default() -> (balance: Self)
        ensures
            balance == (Balance { mint: 0, amount: 0 }),
    {
        Balance { mint: 0, amount: 0 }
    }
}

/// An order to exchange one token for another.
#[derive(Clone, Copy, Debug, PartialEq, Eq, Structural)]
pub struct Order {
    /// The mint (ERC-20 contract address) of the quote token.
    pub quote_mint: u64,
    /// The mint (ERC-20 contract address) of the base token.
    pub base_mint: u64,
    /// The side this order is for (0 = buy, 1 = sell).
    pub side: OrderSide,
    /// The limit price to be executed at, in units of quote.
    pub price: u64,
    /// The amount of base currency to buy or sell.
    pub amount: u64,
}

impl Default for Order {
    fn default() -> (order: Self)
        ensures
            order == (Order {
                quote_mint: 0,
                base_mint: 0,
                side: OrderSide::Buy,
                price: 0,
                amount: 0,
            }),
    {
        Order { quote_mint: 0, base_mint: 0, side: OrderSide::Buy, price: 0, amount: 0 }
    }
}

/// The words that an order is written as, in the order of its fields.
pub open spec fn order_words(order: Order) -> Seq<u64> {
    seq![
        order.quote_mint,
        order.base_mint,
        order.side.number() as u64,
        order.price,
        order.amount,
    ]
}

/// Whether `words` is the written form of some order: five words, of which the
/// third is the number of a side.
pub open spec fn is_order(words: Seq<u64>) -> bool {
    words.len() == 5 && (words[2] == 0 || words[2] == 1)
}

/// The order that `words` is the written form of.
pub open spec fn order_of(words: Seq<u64>) -> Order
    recommends
        is_order(words),
{
    Order {
        quote_mint: words[0],
        base_mint: words[1],
        side: if words[2] == 0 {
            OrderSide::Buy
        } else {
            OrderSide::Sell
        },
        price: words[3],
        amount: words[4],
    }
}

/// Reads an order from its words.
impl TryFrom<&[u64]> for Order {
    type Error = TypeConversionError;

    fn try_from(value: &[u64]) -> (order: Result<Self, Self::Error>)
        ensures
            is_order(value@) ==> order == Ok::<Order, TypeConversionError>(order_of(value@)),
            order is Ok <==> value@.len() == 5 && (value@[2] == 0 || value@[2] == 1),
            order is Ok ==> {
                &&& order->Ok_0.quote_mint == value@[0]
                &&& order->Ok_0.base_mint == value@[1]
                &&& order->Ok_0.side is Buy <==> value@[2] == 0
                &&& order->Ok_0.price == value@[3]
                &&& order->Ok_0.amount == value@[4]
            },
            value@.len() != 5 ==> order is Err && order->Err_0.0@
                == "expected array of length 5, got "@ + errors::decimal(value@.len()),
            value@.len() == 5 && !is_order(value@) ==> order is Err && order->Err_0.0@
                == "Order side must be 0 or 1, got "@ + errors::decimal(value@[2] as nat),
    {
        if value.len() != 5 {
            return Err(
                TypeConversionError(counted("expected array of length 5, got ", value.len() as u64)),
            );
        }
        if !(value[2] == 0 || value[2] == 1) {
            return Err(TypeConversionError(counted("Order side must be 0 or 1, got ", value[2])));
        }
        Ok(
            Order {
                quote_mint: value[0],
                base_mint: value[1],
                side: if value[2] == 0 {
                    OrderSide::Buy
                } else {
                    OrderSide::Sell
                },
                price: value[3],
                amount: value[4],
            },
        )
    }
}

impl vstd::std_specs::convert::TryFromSpecImpl<&[u64]> for Order {
    open spec fn obeys_try_from_spec() -> bool {
        false
    }

    open spec fn try_from_spec(value: &[u64]) -> Result<Self, Self::Error> {
        arbitrary()
    }
}

/// Writes an order as its words, for allocation, sharing and serialization.
impl From<&Order> for Vec<u64> {
    fn from(o: &Order) -> (words: Self)
        ensures
            words@ == order_words(*o),
            words@.len() == 5,
            words@[0] == o.quote_mint,
            words@[1] == o.base_mint,
            words@[2] == (if o.side is Buy {
                0u64
            } else {
                1u64
            }),
            words@[3] == o.price,
            words@[4] == o.amount,
    {
        let side: u64 = o.side.into();
        vec![o.quote_mint, o.base_mint, side, o.price, o.amount]
    }
}

impl vstd::std_specs::convert::FromSpecImpl<&Order> for Vec<u64> {
    open spec fn obeys_from_spec() -> bool {
        false
    }

    open spec fn from_spec(o: &Order) -> Vec<u64> {
        arbitrary()
    }
}

/// What a wallet holds, with the sizes that it is padded to when it is matched.
#[derive(Clone, Debug, PartialEq, Eq)]
pub struct Wallet {
    /// The balances held.
    pub balances: Vec<Balance>,
    /// The open orders.
    pub orders: Vec<Order>,
    /// The number of orders to pad up to, which small circuits lower.
    _max_orders: usize,
    /// The number of balances to pad up to.
    _max_balances: usize,
}

impl Wallet {
    /// The number of orders that the wallet is padded to.
    pub closed spec fn max_orders(&self) -> usize {
        self._max_orders
    }

    /// The number of balances that the wallet is padded to.
    pub closed spec fn max_balances(&self) -> usize {
        self._max_balances
    }

    /// The balances that the wallet holds.
    pub closed spec fn held_balances(&self) -> Seq<Balance> {
        self.balances@
    }

    /// The orders that the wallet holds.
    pub closed spec fn held_orders(&self) -> Seq<Order> {
        self.orders@
    }

    /// A wallet padded to the default sizes.
    pub fn new(balances: Vec<Balance>, orders: Vec<Order>) -> (wallet: Self)
        ensures
            wallet.held_balances() == balances@,
            wallet.held_orders() == orders@,
            wallet.max_balances() == MAX_BALANCES,
            wallet.max_orders() == MAX_ORDERS,
    {
        Self::new_with_bounds(balances, orders, MAX_BALANCES, MAX_ORDERS)
    }

    /// A wallet padded to the given sizes. They are taken as they are, also
    /// where the wallet holds more than they allow.
    pub fn new_with_bounds(
        balances: Vec<Balance>,
        orders: Vec<Order>,
        max_balances: usize,
        max_orders: usize,
    ) -> (wallet: Self)
        ensures
            wallet.held_balances() == balances@,
            wallet.held_orders() == orders@,
            wallet.max_balances() == max_balances,
            wallet.max_orders() == max_orders,
    {
        Self { balances, orders, _max_balances: max_balances, _max_orders: max_orders }
    }

    /// Sets the number of orders that the wallet is padded to, which may not be
    /// less than the orders it holds.
    pub fn set_max_orders(&mut self, max_orders: usize)
        requires
            max_orders >= old(self).held_orders().len(),
        ensures
            final(self).max_orders() == max_orders,
            final(self).held_orders().len() <= final(self).max_orders(),
            final(self).max_balances() == old(self).max_balances(),
            final(self).held_balances() == old(self).held_balances(),
            final(self).held_orders() == old(self).held_orders(),
    {
        self._max_orders = max_orders;
    }

    /// Sets the number of balances that the wallet is padded to, which may not
    /// be less than the balances it holds.
    pub fn set_max_balances(&mut self, max_balances: usize)
        requires
            max_balances >= old(self).held_balances().len(),
        ensures
            final(self).max_balances() == max_balances,
            final(self).held_balances().len() <= final(self).max_balances(),
            final(self).max_orders() == old(self).max_orders(),
            final(self).held_balances() == old(self).held_balances(),
            final(self).held_orders() == old(self).held_orders(),
    {
        self._max_balances = max_balances;
    }
}

impl Default for Wallet {
    fn default() -> (wallet: Self)
        ensures
            wallet.held_balances() == Seq::<Balance>::empty(),
            wallet.held_orders() == Seq::<Order>::empty(),
            wallet.max_balances() == 0,
            wallet.max_orders() == 0,
    {
        Self { balances: Vec::new(), orders: Vec::new(), _max_orders: 0, _max_balances: 0 }
    }
}

/// The fee that a relayer cluster takes for matching a wallet.
#[derive(Clone, Copy, Debug, PartialEq, Eq, Structural)]
pub struct Fee {
    /// The public settle key of the cluster collecting the fee.
    pub settle_key: u64,
    /// The mint (ERC-20 contract address) of the token that pays for gas.
    pub gas_addr: u64,
    /// The amount of the gas token to pay.
    pub gas_token_amount: u64,
    /// The share of a match that the cluster may take.
    pub percentage_fee: u64,
}

impl Fee {
    /// The fee of nothing to nobody.
    pub open spec fn zero() -> Fee {
        Fee { settle_key: 0, gas_addr: 0, gas_token_amount: 0, percentage_fee: 0 }
    }
}

impl Default for Fee {
    fn default() -> (fee: Self)
        ensures
            fee == Fee::zero(),
            fee.settle_key == 0,
            fee.gas_addr == 0,
            fee.gas_token_amount == 0,
            fee.percentage_fee == 0,
    {
        Fee { settle_key: 0, gas_addr: 0, gas_token_amount: 0, percentage_fee: 0 }
    }
}

/// One leg of a match: an amount of a token that changes hands.
#[derive(Clone, Copy, Debug, PartialEq, Eq, Structural)]
pub struct Match {
    /// The mint (ERC-20 contract address) of the token.
    pub mint: u64,
    /// The amount that changes hands.
    pub amount: u64,
    /// The side that the party takes.
    pub side: OrderSide,
}

impl Match {
    /// A match of nothing, on the buy side.
    pub open spec fn zero() -> Match {
        Match { mint: 0, amount: 0, side: OrderSide::Buy }
    }
}

impl Default for Match {
    fn default() -> (leg: Self)
        ensures
            leg == Match::zero(),
            leg.mint == 0,
            leg.amount == 0,
            leg.side is Buy,
    {
        Match { mint: 0, amount: 0, side: OrderSide::Buy }
    }
}

/// The matches of two wallets, one list for each party.
#[derive(Clone, Debug, PartialEq, Eq)]
pub struct MatchResult {
    pub matches1: Vec<Match>,
    pub matches2: Vec<Match>,
}

impl Default for MatchResult {
    fn default() -> (result: Self)
        ensures
            result.matches1@ == Seq::<Match>::empty(),
            result.matches2@ == Seq::<Match>::empty(),
    {
        MatchResult { matches1: Vec::new(), matches2: Vec::new() }
    }
}

/// A match on a single set of overlapping orders.
#[derive(Clone, Copy, Debug, PartialEq, Eq, Structural)]
pub struct SingleMatchResult {
    /// Specifies the asset party 1 buys.
    pub buy_side1: Match,
    /// Specifies the asset party 1 sells.
    pub sell_side1: Match,
    /// Specifies the asset party 2 buys.
    pub buy_side2: Match,
    /// Specifies the asset party 2 sells.
    pub sell_side2: Match,
}

impl Default for SingleMatchResult {
    fn default() -> (result: Self)
        ensures
            result.buy_side1 == Match::zero(),
            result.sell_side1 == Match::zero(),
            result.buy_side2 == Match::zero(),
            result.sell_side2 == Match::zero(),
    {
        SingleMatchResult {
            buy_side1: Match::default(),
            sell_side1: Match::default(),
            buy_side2: Match::default(),
            sell_side2: Match::default(),
        }
    }
}

/// An order that has been allocated in an MPC network, where `S` is the
/// network's authenticated scalar.
#[derive(Clone, Debug, PartialEq, Eq)]
pub struct AuthenticatedOrder<S> {
    /// The mint (ERC-20 contract address) of the quote token.
    pub quote_mint: S,
    /// The mint (ERC-20 contract address) of the base token.
    pub base_mint: S,
    /// The side this order is for (0 = buy, 1 = sell).
    pub side: S,
    /// The limit price to be executed at, in units of quote.
    pub price: S,
    /// The amount of base currency to buy or sell.
    pub amount: S,
}

impl<S> AuthenticatedOrder<S> {
    /// The scalars of an order, in the order of its fields.
    pub open spec fn scalars(self) -> Seq<S> {
        seq![self.quote_mint, self.base_mint, self.side, self.price, self.amount]
    }
}

/// Reads an authenticated order from its scalars.
impl<S> TryFrom<Vec<S>> for AuthenticatedOrder<S> {
    type Error = MpcError;

    fn try_from(value: Vec<S>) -> (order: Result<Self, Self::Error>)
        ensures
            value@.len() == 5 ==> order is Ok && order->Ok_0.scalars() == value@,
            order is Ok ==> {
                &&& order->Ok_0.quote_mint == value@[0]
                &&& order->Ok_0.base_mint == value@[1]
                &&& order->Ok_0.side == value@[2]
                &&& order->Ok_0.price == value@[3]
                &&& order->Ok_0.amount == value@[4]
            },
            value@.len() != 5 ==> (order matches Err(MpcError::SerializationError(text)) && text@
                == "Expected 5 elements, got "@ + errors::decimal(value@.len())),
    {
        if value.len() != 5 {
            return Err(
                MpcError::SerializationError(
                    counted("Expected 5 elements, got ", value.len() as u64),
                ),
            );
        }
        let mut rest: Vec<S> = value;
        let amount = rest.swap_remove(4);
        let price = rest.swap_remove(3);
        let side = rest.swap_remove(2);
        let base_mint = rest.swap_remove(1);
        let quote_mint = rest.swap_remove(0);
        let order = AuthenticatedOrder { quote_mint, base_mint, side, price, amount };
        assert(order.scalars() =~= value@);
        Ok(order)
    }
}

impl<S> vstd::std_specs::convert::TryFromSpecImpl<Vec<S>> for AuthenticatedOrder<S> {
    open spec fn obeys_try_from_spec() -> bool {
        false
    }

    open spec fn try_from_spec(value: Vec<S>) -> Result<Self, Self::Error> {
        arbitrary()
    }
}

impl Order {
    /// The words to allocate in an MPC network for this order.
    pub fn values_to_allocate(&self) -> (words: Vec<u64>)
        ensures
            words@ == order_words(*self),
            words@.len() == 5,
            words@[0] == self.quote_mint,
            words@[1] == self.base_mint,
            words@[2] == (if self.side is Buy {
                0u64
            } else {
                1u64
            }),
            words@[3] == self.price,
            words@[4] == self.amount,
    {
        Vec::from(self)
    }

    /// The allocated order, once the network has shared the values of
    /// `values_to_allocate`: `shared` holds one scalar for each of them, or
    /// the text of the network's error.
    pub fn allocated<S>(shared: Result<Vec<S>, String>) -> (order: Result<
        AuthenticatedOrder<S>,
        MpcError,
    >)
        requires
            shared is Ok ==> shared->Ok_0@.len() == 5,
        ensures
            match shared {
                Ok(scalars) => order is Ok && order->Ok_0.scalars() == scalars@,
                Err(text) => order == Err::<AuthenticatedOrder<S>, MpcError>(
                    MpcError::SharingError(text),
                ),
            },
            order is Ok ==> {
                &&& order->Ok_0.quote_mint == shared->Ok_0@[0]
                &&& order->Ok_0.base_mint == shared->Ok_0@[1]
                &&& order->Ok_0.side == shared->Ok_0@[2]
                &&& order->Ok_0.price == shared->Ok_0@[3]
                &&& order->Ok_0.amount == shared->Ok_0@[4]
            },
    {
        match shared {
            Ok(scalars) => AuthenticatedOrder::try_from(scalars),
            Err(text) => Err(MpcError::SharingError(text)),
        }
    }
}

/// One leg of a match whose values are allocated in an MPC network.
#[derive(Clone, Debug, PartialEq, Eq)]
pub struct AuthenticatedMatch<S> {
    /// The mint (ERC-20 token) that this match result swaps.
    pub mint: S,
    /// The amount of the mint token to swap.
    pub amount: S,
    /// The side (0 is buy, 1 is sell).
    pub side: S,
}

/// A match on a single set of overlapping orders, with values allocated in an
/// MPC network.
#[derive(Clone, Debug, PartialEq, Eq)]
pub struct AuthenticatedSingleMatchResult<S> {
    /// Specifies the asset party 1 buys.
    pub buy_side1: AuthenticatedMatch<S>,
    /// Specifies the asset party 1 sells.
    pub sell_side1: AuthenticatedMatch<S>,
    /// Specifies the asset party 2 buys.
    pub buy_side2: AuthenticatedMatch<S>,
    /// Specifies the asset party 2 sells.
    pub sell_side2: AuthenticatedMatch<S>,
}

/// Writing an order and reading the words back gives the order.
pub proof fn law_order_survives_its_words(order: Order)
    ensures
        is_order(order_words(order)),
        order_of(order_words(order)) == order,
{
}

/// Reading words as an order and writing the order gives the words back.
pub proof fn law_words_survive_their_order(words: Seq<u64>)
    requires
        is_order(words),
    ensures
        order_words(order_of(words)) == words,
{
    assert(order_words(order_of(words)) =~= words);
}

/// Two orders with the same words are the same order.
pub proof fn law_words_tell_orders_apart(a: Order, b: Order)
    requires
        order_words(a) == order_words(b),
    ensures
        a == b,
{
    law_order_survives_its_words(a);
    law_order_survives_its_words(b);
}

/// The words of an order are five: its quote mint, its base mint, zero for a
/// buy and one for a sell, its price and its amount.
pub proof fn law_words_are_the_fields_in_order(order: Order)
    ensures
        order_words(order).len() == 5,
        order_words(order)[0] == order.quote_mint,
        order_words(order)[1] == order.base_mint,
        order_words(order)[2] == 0 <==> order.side == OrderSide::Buy,
        order_words(order)[2] == 1 <==> order.side == OrderSide::Sell,
        order_words(order)[3] == order.price,
        order_words(order)[4] == order.amount,
{
}

/// Five words with a side of zero or one are an order, whose fields are the
/// words in order; nothing else is.
pub proof fn law_fields_are_the_words_in_order(words: Seq<u64>)
    ensures
        is_order(words) <==> words.len() == 5 && words[2] <= 1,
        is_order(words) ==> {
            &&& order_of(words).quote_mint == words[0]
            &&& order_of(words).base_mint == words[1]
            &&& order_of(words).side == OrderSide::Buy <==> words[2] == 0
            &&& order_of(words).price == words[3]
            &&& order_of(words).amount == words[4]
        },
{
}

/// An order is allocated field by field: where the network shares each of its
/// words by `share`, each field of the allocated order is the share of the
/// same field of the order.
pub proof fn law_allocation_shares_each_field<S>(
    order: Order,
    share: spec_fn(u64) -> S,
    allocated: AuthenticatedOrder<S>,
)
    requires
        allocated.scalars() == order_words(order).map_values(share),
    ensures
        allocated.quote_mint == share(order.quote_mint),
        allocated.base_mint == share(order.base_mint),
        allocated.side == share(
            match order.side {
                OrderSide::Buy => 0u64,
                OrderSide::Sell => 1u64,
            },
        ),
        allocated.price == share(order.price),
        allocated.amount == share(order.amount),
{
    let shared = order_words(order).map_values(share);
    assert(allocated.scalars()[0] == shared[0]);
    assert(allocated.scalars()[1] == shared[1]);
    assert(allocated.scalars()[2] == shared[2]);
    assert(allocated.scalars()[3] == shared[3]);
    assert(allocated.scalars()[4] == shared[4]);
}

/// The scalars of an authenticated order are its fields in order.
pub proof fn law_scalars_are_the_fields_in_order<S>(order: AuthenticatedOrder<S>)
    ensures
        order.scalars().len() == 5,
        order.scalars()[0] == order.quote_mint,
        order.scalars()[1] == order.base_mint,
        order.scalars()[2] == order.side,
        order.scalars()[3] == order.price,
        order.scalars()[4] == order.amount,
{
}

/// A buy is zero and a sell is one.
pub proof fn law_sides_are_numbered(side: OrderSide)
    ensures
        side.number() == 0 <==> side == OrderSide::Buy,
        side.number() == 1 <==> side == OrderSide::Sell,
{
}

/// A zero fee and a zero match are zero in every field.
pub proof fn law_zeros_are_zero()
    ensures
        Fee::zero().settle_key == 0,
        Fee::zero().gas_addr == 0,
        Fee::zero().gas_token_amount == 0,
        Fee::zero().percentage_fee == 0,
        Match::zero().mint == 0,
        Match::zero().amount == 0,
        Match::zero().side == OrderSide::Buy,
{
}

/// What a wallet is said to hold is what stands in its fields.
proof fn law_wallet_holds_its_fields(wallet: Wallet)
    ensures
        wallet.held_balances() == wallet.balances@,
        wallet.held_orders() == wallet.orders@,
        wallet.max_balances() == wallet._max_balances,
        wallet.max_orders() == wallet._max_orders,
{
}

} // verus!
