//! The requests and responses of the HTTP API.

use vstd::prelude::*;
use crate::circuits::types::{Balance, Fee, Order};
use crate::external_events::tokens::Token;
use crate::state::{
    NetworkOrder, OrderIdentifier, PeerIdentifier, PublicKeyChain, WalletIdentifier,
};

verus! {

/// Asks whether the server is up.
pub struct PingRequest;

/// Says that the server is up.
#[derive(Clone, Copy, Debug, PartialEq, Eq, Structural)]
pub struct PingResponse {
    /// The time of the response, in milliseconds since the Unix epoch.
    pub timestamp: u128,
}

/// A wallet as a client describes it.
pub struct Wallet {
    pub balances: Vec<Balance>,
    pub orders: Vec<Order>,
    pub fees: Vec<Fee>,
    pub public_keys: PublicKeyChain,
    /// The wallet's randomness, the least significant byte first.
    pub randomness: Vec<u8>,
}

/// Asks the relayer to manage a wallet.
pub struct WalletAddRequest {
    pub wallet: Wallet,
}

/// Names the wallet that was added.
#[derive(Clone, Copy, Debug, PartialEq, Eq, Structural)]
pub struct WalletAddResponse {
    pub wallet_id: WalletIdentifier,
}

/// Asks for the proof that creates a wallet.
pub struct CreateWalletRequest {
    pub fees: Vec<Fee>,
    pub keys: PublicKeyChain,
    /// The wallet's randomness, the least significant byte first.
    pub randomness: Vec<u8>,
}

/// Asks for an order to be added to a wallet.
pub struct OrderCreateRequest {
    pub wallet_id: WalletIdentifier,
    pub order: Order,
}

/// Names the order that was added.
#[derive(Clone, Copy, Debug, PartialEq, Eq, Structural)]
pub struct OrderCreateResponse {
    pub order_id: OrderIdentifier,
}

/// Asks for the orders of the book.
pub struct OrderBookListRequest;

/// Lists the orders of the book.
pub struct OrderBookListResponse {
    pub orders: Vec<NetworkOrder>,
}

/// Asks for the health of the price feeds of a token pair.
pub struct GetExchangeHealthStatesRequest {
    pub base_token: Token,
    pub quote_token: Token,
}

/// The health of the price feeds, where `M` and `A` are the states that the
/// price reporter gives of the median and of all exchanges.
#[derive(Clone, Debug, PartialEq, Eq)]
pub struct GetExchangeHealthStatesResponse<M, A> {
    pub median: M,
    pub all_exchanges: A,
}

/// Asks for the replicas of a wallet.
pub struct GetReplicasRequest {
    pub wallet_id: WalletIdentifier,
}

/// Lists the replicas of a wallet.
#[derive(Clone, Debug, PartialEq, Eq)]
pub struct GetReplicasResponse {
    pub replicas: Vec<PeerIdentifier>,
}

} // verus!
