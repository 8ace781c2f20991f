use relayer::api_server::error::ApiServerError;
use relayer::api_server::http::{
    CreateWalletRequest, GetExchangeHealthStatesRequest, GetReplicasRequest, OrderBookListRequest,
    OrderCreateRequest, PingRequest, Wallet, WalletAddRequest,
};
use relayer::api_server::http_handlers::{
    index_wallet, pad_fees, ExchangeHealthStatesHandler, OrderBookListHandler, OrderCreateHandler,
    PingHandler, ReplicasHandler, WalletAddHandler, WalletCreateHandler,
};
use relayer::api_server::jobs::{PriceReporterManagerJob, ProofJob};
use relayer::api_server::routes::{Method, Router};
use relayer::api_server::server;
use relayer::api_server::server::{WebsocketAction, WebsocketEvent};
use relayer::api_server::worker::ApiServerConfig;
use relayer::circuits::constants::MAX_FEES;
use relayer::circuits::types::{Balance, Fee, Order, OrderSide};
use relayer::crypto::{biguint_to_scalar, Scalar};
use relayer::external_events::tokens::Token;
use relayer::state::{NetworkOrder, PublicKeyChain, RelayerState};

fn order(amount: u64) -> Order {
    Order { quote_mint: 1, base_mint: 2, side: OrderSide::Sell, price: 3, amount }
}

fn keys() -> PublicKeyChain {
    PublicKeyChain {
        pk_root: biguint_to_scalar(&vec![1]),
        pk_match: biguint_to_scalar(&vec![2]),
        pk_settle: biguint_to_scalar(&vec![3]),
        pk_view: biguint_to_scalar(&vec![4]),
    }
}

fn fee(amount: u64) -> Fee {
    Fee { settle_key: 1, gas_addr: 2, gas_token_amount: amount, percentage_fee: 4 }
}

fn wallet() -> Wallet {
    Wallet {
        balances: vec![
            Balance { mint: 5, amount: 50 },
            Balance { mint: 6, amount: 60 },
            Balance { mint: 5, amount: 55 },
        ],
        orders: vec![order(10), order(20)],
        fees: vec![fee(1)],
        public_keys: keys(),
        randomness: vec![9, 9],
    }
}

fn is_random_uuid(id: u128) -> bool {
    (id >> 76) & 0xf == 4 && (id >> 62) & 0x3 == 2
}

#[test]
fn ping_answers_with_the_time() {
    let response = PingHandler::new().handle_typed(PingRequest, 12, 345_999_999).unwrap();
    assert_eq!(response.timestamp, 12_345);
    let response = PingHandler::new().handle_typed(PingRequest, u64::MAX, 999_999_999).unwrap();
    assert_eq!(response.timestamp, u64::MAX as u128 * 1000 + 999);
    let time = std::time::Duration::new(1_700_000_000, 1_234_567);
    let response = PingHandler::new()
        .handle_typed(PingRequest, time.as_secs(), time.subsec_nanos())
        .unwrap();
    assert_eq!(response.timestamp, time.as_millis());
}

#[test]
fn indexed_wallet_is_what_was_described() {
    let indexed = index_wallet(77, &vec![100, 200], wallet());
    assert_eq!(indexed.wallet_id, 77);
    assert_eq!(indexed.orders.len(), 2);
    assert_eq!(indexed.orders.get(&100), Some(&order(10)));
    assert_eq!(indexed.orders.get(&200), Some(&order(20)));
    assert!(indexed.matched_orders.is_empty());
    assert_eq!(indexed.balances.len(), 2);
    assert_eq!(indexed.balances.get(&5), Some(&Balance { mint: 5, amount: 55 }));
    assert_eq!(indexed.balances.get(&6), Some(&Balance { mint: 6, amount: 60 }));
    assert_eq!(indexed.fees, vec![fee(1)]);
    assert_eq!(indexed.public_keys, keys());
    assert_eq!(indexed.secret_keys.sk_root, None);
    assert_eq!(indexed.secret_keys.sk_match, Scalar::zero());
    assert_eq!(indexed.secret_keys.sk_settle, Scalar::zero());
    assert_eq!(indexed.secret_keys.sk_view, Scalar::zero());
    assert_eq!(indexed.randomness, vec![9, 9]);
    assert!(indexed.metadata.replicas.is_empty());
}

#[test]
fn of_two_orders_with_one_identifier_the_later_counts() {
    let indexed = index_wallet(1, &vec![100, 100], wallet());
    assert_eq!(indexed.orders.len(), 1);
    assert_eq!(indexed.orders.get(&100), Some(&order(20)));
}

#[test]
fn added_wallets_are_found() {
    let mut handler = WalletAddHandler::new(RelayerState::new());
    let first = handler.handle_typed(WalletAddRequest { wallet: wallet() }).unwrap();
    let second = handler.handle_typed(WalletAddRequest { wallet: wallet() }).unwrap();
    assert_ne!(first.wallet_id, second.wallet_id);
    assert!(is_random_uuid(first.wallet_id));
    let added = handler.global_state.read_wallet(first.wallet_id).unwrap();
    assert_eq!(added.wallet_id, first.wallet_id);
    assert_eq!(added.orders.len(), 2);
    assert!(added.orders.keys().all(|id| is_random_uuid(*id)));
    assert_eq!(added.balances.get(&5).unwrap().amount, 55);
    assert!(handler.global_state.read_wallet(second.wallet_id).is_some());
    assert!(handler.global_state.read_wallet(0).is_none());
}

#[test]
fn fees_are_padded() {
    let mut expected = vec![fee(1)];
    while expected.len() < MAX_FEES {
        expected.push(Fee::default());
    }
    assert_eq!(pad_fees(vec![fee(1)]), expected);
    assert_eq!(pad_fees(expected.clone()), expected);
    assert_eq!(pad_fees(vec![]), vec![Fee::default(); MAX_FEES]);
}

#[test]
fn fees_beyond_the_number_are_dropped() {
    let many: Vec<Fee> = (0..10).map(fee).collect();
    assert_eq!(pad_fees(many.clone()), many[..MAX_FEES].to_vec());
}

#[test]
fn wallet_creation_asks_for_a_proof() {
    let handler = WalletCreateHandler::new("queue");
    assert_eq!(handler.proof_job_queue, "queue");
    let request = CreateWalletRequest { fees: vec![fee(3)], keys: keys(), randomness: vec![1, 2] };
    let job = handler.proof_job(request, "reply");
    assert_eq!(job.response_channel, "reply");
    let ProofJob::ValidWalletCreate { fees, keys: job_keys, randomness } = job.type_;
    assert_eq!(fees, pad_fees(vec![fee(3)]));
    assert_eq!(job_keys, keys());
    assert_eq!(randomness.bytes[..3], [1, 2, 0]);
}

#[test]
fn a_full_queue_is_an_error() {
    let handler = WalletCreateHandler::new(());
    assert_eq!(handler.enqueued(Ok(())), Ok(()));
    assert_eq!(
        handler.enqueued(Err("closed".to_string())),
        Err(ApiServerError::EnqueueJob("closed".to_string()))
    );
}

#[test]
fn created_orders_are_found() {
    let mut add = WalletAddHandler::new(RelayerState::new());
    let wallet_id = add.handle_typed(WalletAddRequest { wallet: wallet() }).unwrap().wallet_id;
    let mut create = OrderCreateHandler::new(add.global_state);
    let order_id = create
        .handle_typed(OrderCreateRequest { wallet_id, order: order(99) })
        .unwrap()
        .order_id;
    assert!(is_random_uuid(order_id));
    let changed = create.global_state.read_wallet(wallet_id).unwrap();
    assert_eq!(changed.orders.len(), 3);
    assert_eq!(changed.orders.get(&order_id), Some(&order(99)));
}

#[test]
fn orders_for_unknown_wallets_change_nothing() {
    let mut create = OrderCreateHandler::new(RelayerState::new());
    let response = create.handle_typed(OrderCreateRequest { wallet_id: 5, order: order(1) });
    assert!(response.is_ok());
    assert!(create.global_state.read_wallet(5).is_none());
}

#[test]
fn the_order_book_is_listed_without_proofs() {
    let mut state = RelayerState::new();
    state.add_order(NetworkOrder { id: 1, local: true, valid_commit_proof: Some(vec![1, 2, 3]) });
    state.add_order(NetworkOrder { id: 2, local: false, valid_commit_proof: None });
    let handler = OrderBookListHandler::new(&state);
    let orders = handler.handle_typed(OrderBookListRequest).unwrap().orders;
    assert_eq!(orders.len(), 2);
    assert_eq!((orders[0].id, orders[0].local), (1, true));
    assert_eq!((orders[1].id, orders[1].local), (2, false));
    assert!(orders.iter().all(|order| order.valid_commit_proof.is_none()));
    // The book itself keeps its proofs.
    let kept = state.get_all_orders();
    assert_eq!(kept[0].valid_commit_proof, Some(vec![1, 2, 3]));
}

#[test]
fn health_checks_ask_for_both_states() {
    let base = Token { addr: "b".to_string(), named: true, decimals: Some(1) };
    let quote = Token { addr: "q".to_string(), named: false, decimals: None };
    let handler =
        ExchangeHealthStatesHandler::new(ApiServerConfig { price_reporter_work_queue: "queue" });
    assert_eq!(handler.config.price_reporter_work_queue, "queue");
    let request =
        GetExchangeHealthStatesRequest { base_token: base.clone(), quote_token: quote.clone() };
    let (median, all) = handler.price_reporter_jobs(request, 1u8, 2u16);
    assert!(matches!(
        median,
        PriceReporterManagerJob::PeekMedian { base_token, quote_token, channel: 1 }
            if base_token == base && quote_token == quote
    ));
    assert!(matches!(
        all,
        PriceReporterManagerJob::PeekAllExchanges { base_token, quote_token, channel: 2 }
            if base_token == base && quote_token == quote
    ));
    let response = handler.respond("nominal", vec![3]).unwrap();
    assert_eq!(response.median, "nominal");
    assert_eq!(response.all_exchanges, vec![3]);
}

#[test]
fn replicas_are_listed_once_each() {
    let mut indexed = index_wallet(8, &vec![1, 2], wallet());
    indexed.metadata.replicas.insert(30);
    indexed.metadata.replicas.insert(40);
    indexed.metadata.replicas.insert(30);
    let mut state = RelayerState::new();
    state.add_wallets(vec![indexed]);
    let handler = ReplicasHandler::new(&state);
    let mut replicas = handler.handle_typed(GetReplicasRequest { wallet_id: 8 }).unwrap().replicas;
    replicas.sort();
    assert_eq!(replicas, vec![30, 40]);
    let unknown = handler.handle_typed(GetReplicasRequest { wallet_id: 9 }).unwrap();
    assert_eq!(unknown.replicas, Vec::<u128>::new());
}

#[test]
fn later_wallets_replace_earlier_ones() {
    let mut state = RelayerState::new();
    let mut later = wallet();
    later.randomness = vec![1];
    state.add_wallets(vec![
        index_wallet(8, &vec![1, 2], wallet()),
        index_wallet(8, &vec![3, 4], later),
    ]);
    assert_eq!(state.read_wallet(8).unwrap().randomness, vec![1]);
}

#[test]
fn websocket_events_are_answered() {
    assert_eq!(server::serve_websocket(WebsocketEvent::Close), WebsocketAction::HangUp);
    assert_eq!(server::serve_websocket(WebsocketEvent::Disconnected), WebsocketAction::HangUp);
    assert_eq!(server::serve_websocket(WebsocketEvent::Message), WebsocketAction::LogMessage);
    assert_eq!(server::serve_websocket(WebsocketEvent::ReadFailed), WebsocketAction::LogMessage);
    assert_eq!(
        server::serve_websocket(WebsocketEvent::Tick),
        WebsocketAction::Push("test".to_string())
    );
    assert_eq!(server::PUSH_INTERVAL_MILLIS, 5000);
}

#[test]
fn websocket_failures_are_named() {
    assert_eq!(server::websocket_bound::<u8>(Ok(1)), Ok(1));
    assert_eq!(
        server::websocket_bound::<u8>(Err("in use".to_string())),
        Err(ApiServerError::Setup("in use".to_string()))
    );
    assert_eq!(server::websocket_accepted::<u8>(Ok(1)), Ok(1));
    assert_eq!(
        server::websocket_accepted::<u8>(Err("no".to_string())),
        Err(ApiServerError::WebsocketHandlerFailure("no".to_string()))
    );
    assert_eq!(server::websocket_execution_loop(Some(1)), Ok(1));
    assert_eq!(
        server::websocket_execution_loop::<u8>(None),
        Err(ApiServerError::WebsocketServerFailure(
            "websocket server spuriously shutdown".to_string()
        ))
    );
}

#[test]
fn only_replicas_are_routed() {
    let mut indexed = index_wallet(8, &vec![1, 2], wallet());
    indexed.metadata.replicas.insert(30);
    let mut state = RelayerState::new();
    state.add_wallets(vec![indexed]);
    let mut router = Router::new();
    server::setup_routes(&mut router, &state);
    let handler = server::handle_http_req(Method::Post, "/replicas".to_string(), &router).unwrap();
    let response = handler.handle_typed(GetReplicasRequest { wallet_id: 8 }).unwrap();
    assert_eq!(response.replicas, vec![30]);
    assert!(server::handle_http_req(Method::Get, "/replicas".to_string(), &router).is_none());
    assert!(server::handle_http_req(Method::Post, "/replica".to_string(), &router).is_none());
}

#[test]
fn the_oldest_matching_route_serves() {
    let mut router = Router::new();
    router.add_route(Method::Get, "/a".to_string(), 1);
    router.add_route(Method::Get, "/b".to_string(), 2);
    router.add_route(Method::Get, "/b".to_string(), 3);
    assert_eq!(router.handler(Method::Get, &"/b".to_string()), Some(&2));
    assert_eq!(router.handler(Method::Get, &"/c".to_string()), None);
}

#[test]
fn the_order_of_two_creations_does_not_matter() {
    let mut states: Vec<RelayerState> = Vec::new();
    for ids in [[1u128, 2], [2, 1]] {
        let mut state = RelayerState::new();
        state.add_wallets(vec![index_wallet(8, &vec![10, 20], wallet())]);
        for id in ids {
            state.add_order_to_wallet(8, id, order(id as u64));
        }
        states.push(state);
    }
    let first = &states[0].read_wallet(8).unwrap().orders;
    assert_eq!(first.len(), 4);
    assert_eq!(first.get(&1), Some(&order(1)));
    assert_eq!(*first, states[1].read_wallet(8).unwrap().orders);
}
