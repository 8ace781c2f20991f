use relayer::circuits::constants::{MAX_BALANCES, MAX_ORDERS};
use relayer::circuits::errors::{MpcError, TypeConversionError};
use relayer::circuits::types::{
    AuthenticatedOrder, Balance, Fee, Match, MatchResult, Order, OrderSide, SingleMatchResult,
    Wallet, WALLET_TREE_DEPTH,
};

fn sell_order() -> Order {
    Order { quote_mint: 11, base_mint: 22, side: OrderSide::Sell, price: 33, amount: 44 }
}

#[test]
fn order_is_written_as_its_words() {
    let words: Vec<u64> = Vec::from(&sell_order());
    assert_eq!(words, vec![11, 22, 1, 33, 44]);
    assert_eq!(sell_order().values_to_allocate(), vec![11, 22, 1, 33, 44]);
}

#[test]
fn order_survives_its_words() {
    let words: Vec<u64> = Vec::from(&sell_order());
    assert_eq!(Order::try_from(words.as_slice()), Ok(sell_order()));
    let buy = Order { side: OrderSide::Buy, ..sell_order() };
    let words: Vec<u64> = Vec::from(&buy);
    assert_eq!(words[2], 0);
    assert_eq!(Order::try_from(words.as_slice()), Ok(buy));
}

#[test]
fn words_survive_their_order() {
    let words: [u64; 5] = [u64::MAX, 0, 1, 7, u64::MAX - 1];
    let order = Order::try_from(&words[..]).unwrap();
    assert_eq!(Vec::<u64>::from(&order), words.to_vec());
}

#[test]
fn too_few_words_are_refused() {
    let short: [u64; 4] = [1, 2, 0, 4];
    assert_eq!(
        Order::try_from(&short[..]),
        Err(TypeConversionError("expected array of length 5, got 4".to_string()))
    );
    let long: Vec<u64> = vec![0; 120];
    assert_eq!(
        Order::try_from(long.as_slice()),
        Err(TypeConversionError("expected array of length 5, got 120".to_string()))
    );
    let empty: [u64; 0] = [];
    assert_eq!(
        Order::try_from(&empty[..]),
        Err(TypeConversionError("expected array of length 5, got 0".to_string()))
    );
}

#[test]
fn an_unknown_side_is_refused() {
    let words: [u64; 5] = [1, 2, 2, 4, 5];
    assert_eq!(
        Order::try_from(&words[..]),
        Err(TypeConversionError("Order side must be 0 or 1, got 2".to_string()))
    );
    let words: [u64; 5] = [1, 2, u64::MAX, 4, 5];
    assert_eq!(
        Order::try_from(&words[..]),
        Err(TypeConversionError(
            "Order side must be 0 or 1, got 18446744073709551615".to_string()
        ))
    );
}

#[test]
fn sides_have_numbers() {
    assert_eq!(u8::from(OrderSide::Buy), 0);
    assert_eq!(u8::from(OrderSide::Sell), 1);
    assert_eq!(u64::from(OrderSide::Buy), 0);
    assert_eq!(u64::from(OrderSide::Sell), 1);
    assert_eq!(OrderSide::default(), OrderSide::Buy);
}

#[test]
fn authenticated_order_takes_five_scalars() {
    let scalars: Vec<String> =
        vec!["q".to_string(), "b".to_string(), "s".to_string(), "p".to_string(), "a".to_string()];
    let order = AuthenticatedOrder::try_from(scalars).unwrap();
    assert_eq!(order.quote_mint, "q");
    assert_eq!(order.base_mint, "b");
    assert_eq!(order.side, "s");
    assert_eq!(order.price, "p");
    assert_eq!(order.amount, "a");
    assert_eq!(
        AuthenticatedOrder::try_from(vec![1u8; 6]),
        Err(MpcError::SerializationError("Expected 5 elements, got 6".to_string()))
    );
}

#[test]
fn allocation_reports_what_the_network_says() {
    let order = Order::allocated(Ok(vec![1u64, 2, 3, 4, 5])).unwrap();
    assert_eq!(order.amount, 5);
    let failed: Result<AuthenticatedOrder<u64>, MpcError> = Order::allocated(Err("down".to_string()));
    assert_eq!(failed, Err(MpcError::SharingError("down".to_string())));
}

#[test]
fn wallets_hold_what_they_are_given() {
    let balances = vec![Balance { mint: 1, amount: 10 }];
    let orders = vec![sell_order(), sell_order()];
    let wallet = Wallet::new(balances.clone(), orders.clone());
    assert_eq!(wallet.balances, balances);
    assert_eq!(wallet.orders, orders);
    assert_eq!(wallet, Wallet::new_with_bounds(balances, orders, MAX_BALANCES, MAX_ORDERS));
}

#[test]
fn wallet_bounds_can_be_set() {
    let orders = vec![sell_order(), sell_order()];
    let mut wallet = Wallet::new(vec![], orders.clone());
    wallet.set_max_orders(2);
    wallet.set_max_balances(0);
    assert_eq!(wallet, Wallet::new_with_bounds(vec![], orders.clone(), 0, 2));
    assert_ne!(wallet, Wallet::new(vec![], orders));
}

#[test]
fn defaults_are_empty() {
    assert_eq!(Wallet::default(), Wallet::new_with_bounds(vec![], vec![], 0, 0));
    assert_eq!(Balance::default(), Balance { mint: 0, amount: 0 });
    assert_eq!(Vec::<u64>::from(&Order::default()), vec![0; 5]);
    assert_eq!(MatchResult::default(), MatchResult { matches1: vec![], matches2: vec![] });
    assert_eq!(Match::default(), Match { mint: 0, amount: 0, side: OrderSide::Buy });
    assert_eq!(SingleMatchResult::default().sell_side2, Match::default());
    assert_eq!(Fee::default().percentage_fee, 0);
    assert_eq!(WALLET_TREE_DEPTH, 8);
}
