//! The handlers of the HTTP API.
//!
//! A handler that changes the state owns it while it handles a request; one
//! that only reads the state borrows it. What a handler would have to wait
//! for, its caller does: it reads the clock, and sends the jobs that a handler
//! gives and hands back the answers.

use std::collections::{HashMap, HashSet};
use vstd::prelude::*;
use crate::api_server::error::ApiServerError;
use crate::api_server::http::{
    CreateWalletRequest, GetExchangeHealthStatesRequest, GetExchangeHealthStatesResponse,
    GetReplicasRequest, GetReplicasResponse, OrderBookListRequest, OrderBookListResponse,
    OrderCreateRequest, OrderCreateResponse, PingRequest, PingResponse, Wallet, WalletAddRequest,
    WalletAddResponse,
};
use crate::api_server::jobs::{PriceReporterManagerJob, ProofJob, ProofManagerJob};
use crate::api_server::worker::ApiServerConfig;
use crate::circuits::constants::MAX_FEES;
use crate::circuits::types::{Balance, Fee, Order};
#[allow(unused_imports)]
use crate::crypto;
use crate::crypto::{biguint_to_scalar, Scalar};
#[allow(unused_imports)]
use crate::state;
use crate::state::{
    new_identifier, NetworkOrder, OrderIdentifier, PeerIdentifier, PrivateKeyChain, RelayerState,
    WalletIdentifier, WalletMetadata,
};

verus! {

// ----------------
// | Generic APIs |
// ----------------

/// Handler for the ping route, returns a pong.
#[derive(Clone, Debug)]
pub struct PingHandler;

impl PingHandler {
    /// Create a new handler for "/ping".
    pub fn new() -> (handler: Self)
        ensures
            handler == PingHandler,
    {
        PingHandler
    }

    /// Answers with the time of the response in whole milliseconds, given the
    /// seconds since the Unix epoch and the nanoseconds of the current second.
    pub fn handle_typed(&self, _req: PingRequest, secs: u64, nanos: u32) -> (response: Result<
        PingResponse,
        ApiServerError,
    >)
        ensures
            response is Ok,
            response->Ok_0.timestamp == secs * 1000 + nanos as int / 1_000_000,
    {
        let timestamp: u128 = secs as u128 * 1000 + (nanos / 1_000_000) as u128;
        Ok(PingResponse { timestamp })
    }
}

// --------------------------
// | Wallet Operations APIs |
// --------------------------

/// The orders by their identifiers. Of two orders with one identifier the
/// later counts.
pub open spec fn indexed_orders(ids: Seq<OrderIdentifier>, orders: Seq<Order>) -> Map<
    OrderIdentifier,
    Order,
>
    recommends
        ids.len() == orders.len(),
    decreases orders.len(),
{
    if orders.len() == 0 {
        Map::empty()
    } else {
        indexed_orders(ids.drop_last(), orders.drop_last()).insert(ids.last(), orders.last())
    }
}

/// The balances by their mints. Of two balances of one mint the later counts.
pub open spec fn indexed_balances(balances: Seq<Balance>) -> Map<u64, Balance>
    decreases balances.len(),
{
    if balances.len() == 0 {
        Map::empty()
    } else {
        indexed_balances(balances.drop_last()).insert(balances.last().mint, balances.last())
    }
}

/// Secret keys that are not known: no root key, and zeros for the others.
pub open spec fn are_dummy_keys(keys: PrivateKeyChain) -> bool {
    &&& keys.sk_root is None
    &&& keys.sk_match.value() == 0
    &&& keys.sk_settle.value() == 0
    &&& keys.sk_view.value() == 0
}

/// `indexed` is the wallet that a client described, under the given
/// identifiers, with no matches, no secret keys and no replicas.
pub open spec fn is_indexed_wallet(
    indexed: state::WalletView,
    wallet_id: WalletIdentifier,
    order_ids: Seq<OrderIdentifier>,
    wallet: Wallet,
) -> bool {
    &&& indexed.wallet_id == wallet_id
    &&& indexed.orders == indexed_orders(order_ids, wallet.orders@)
    &&& indexed.matched_orders == Map::<OrderIdentifier, Order>::empty()
    &&& indexed.balances == indexed_balances(wallet.balances@)
    &&& indexed.fees == wallet.fees@
    &&& indexed.public_keys == wallet.public_keys
    &&& are_dummy_keys(indexed.secret_keys)
    &&& indexed.randomness == wallet.randomness@
    &&& indexed.replicas == Set::<PeerIdentifier>::empty()
}

/// Brings a wallet into the form that the relayer looks things up in, with one
/// identifier for each of its orders.
pub fn index_wallet(
    wallet_id: WalletIdentifier,
    order_ids: &Vec<OrderIdentifier>,
    wallet: Wallet,
) -> (indexed: state::Wallet)
    requires
        order_ids@.len() == wallet.orders@.len(),
    ensures
        is_indexed_wallet(indexed@, wallet_id, order_ids@, wallet),
        indexed.wallet_id == wallet_id,
        order_ids@.no_duplicates() ==> forall|i: int|
            0 <= i < order_ids@.len() ==> indexed.orders@.contains_key(#[trigger] order_ids@[i])
                && indexed.orders@[order_ids@[i]] == wallet.orders@[i],
        indexed.matched_orders@.len() == 0,
        indexed.fees@ == wallet.fees@,
        indexed.public_keys == wallet.public_keys,
        indexed.secret_keys.sk_root is None,
        forall|i: int|
            0 <= i < 32 ==> #[trigger] indexed.secret_keys.sk_match.bytes@[i] == 0
                && indexed.secret_keys.sk_settle.bytes@[i] == 0
                && indexed.secret_keys.sk_view.bytes@[i] == 0,
        indexed.randomness@ == wallet.randomness@,
        indexed.metadata.replicas@.len() == 0,
{
    broadcast use vstd::std_specs::hash::group_hash_axioms;

    let mut orders: HashMap<OrderIdentifier, Order> = HashMap::new();
    let mut n: usize = 0;
    while n < wallet.orders.len()
        invariant
            order_ids@.len() == wallet.orders@.len(),
            n <= wallet.orders@.len(),
            orders@ == indexed_orders(
                order_ids@.take(n as int),
                wallet.orders@.take(n as int),
            ),
        decreases wallet.orders@.len() - n,
    {
        orders.insert(order_ids[n], wallet.orders[n]);
        n += 1;
        assert(order_ids@.take(n as int).drop_last() =~= order_ids@.take(n - 1));
        assert(wallet.orders@.take(n as int).drop_last() =~= wallet.orders@.take(n - 1));
    }
    assert(order_ids@.take(n as int) =~= order_ids@);
    assert(wallet.orders@.take(n as int) =~= wallet.orders@);
    proof {
        if order_ids@.no_duplicates() {
            assert forall|i: int| 0 <= i < order_ids@.len() implies orders@.contains_key(
                #[trigger] order_ids@[i],
            ) && orders@[order_ids@[i]] == wallet.orders@[i] by {
                law_every_order_is_found(order_ids@, wallet.orders@, i);
            }
        }
    }

    let mut balances: HashMap<u64, Balance> = HashMap::new();
    let mut m: usize = 0;
    while m < wallet.balances.len()
        invariant
            m <= wallet.balances@.len(),
            balances@ == indexed_balances(wallet.balances@.take(m as int)),
        decreases wallet.balances@.len() - m,
    {
        balances.insert(wallet.balances[m].mint, wallet.balances[m]);
        m += 1;
        assert(wallet.balances@.take(m as int).drop_last() =~= wallet.balances@.take(m - 1));
    }
    assert(wallet.balances@.take(m as int) =~= wallet.balances@);

    let dummy_secret_keys = PrivateKeyChain {
        sk_root: None,
        sk_match: Scalar::zero(),
        sk_settle: Scalar::zero(),
        sk_view: Scalar::zero(),
    };
    state::Wallet {
        wallet_id,
        orders,
        matched_orders: HashMap::new(),
        balances,
        fees: wallet.fees,
        public_keys: wallet.public_keys,
        secret_keys: dummy_secret_keys,
        randomness: wallet.randomness,
        metadata: WalletMetadata { replicas: HashSet::new() },
    }
}

/// The step from `before` to `after` adds the wallet that a client described,
/// indexed under random identifiers, and changes nothing else.
pub open spec fn adds_wallet(
    before: state::RelayerStateView,
    after: state::RelayerStateView,
    wallet_id: WalletIdentifier,
    order_ids: Seq<OrderIdentifier>,
    wallet: Wallet,
    indexed: state::WalletView,
) -> bool {
    &&& order_ids.len() == wallet.orders@.len()
    &&& state::are_random_identifiers(order_ids)
    &&& is_indexed_wallet(indexed, wallet_id, order_ids, wallet)
    &&& after == before.with_wallet(indexed)
}

/// Handler for the /wallet/add route.
pub struct WalletAddHandler {
    /// The relayer-global state.
    pub global_state: RelayerState,
}

impl WalletAddHandler {
    /// Create a new handler for the /wallet/add route.
    pub fn new(global_state: RelayerState) -> (handler: Self)
        ensures
            handler.global_state == global_state,
    {
        Self { global_state }
    }

    /// Adds the wallet to the state under a new identifier, and its orders
    /// under new identifiers of their own.
    pub fn handle_typed(&mut self, req: WalletAddRequest) -> (response: Result<
        WalletAddResponse,
        ApiServerError,
    >)
        ensures
            response is Ok,
            state::is_random_identifier(response->Ok_0.wallet_id),
            exists|order_ids: Seq<OrderIdentifier>, indexed: state::WalletView|
                #[trigger] adds_wallet(
                    old(self).global_state@,
                    final(self).global_state@,
                    response->Ok_0.wallet_id,
                    order_ids,
                    req.wallet,
                    indexed,
                ),
    {
        let wallet_id: WalletIdentifier = new_identifier();
        let mut order_ids: Vec<OrderIdentifier> = Vec::new();
        while order_ids.len() < req.wallet.orders.len()
            invariant
                order_ids@.len() <= req.wallet.orders@.len(),
                state::are_random_identifiers(order_ids@),
            decreases req.wallet.orders@.len() - order_ids@.len(),
        {
            order_ids.push(new_identifier());
        }
        let indexed = index_wallet(wallet_id, &order_ids, req.wallet);
        let ghost view = indexed@;
        let wallets: Vec<state::Wallet> = vec![indexed];
        proof {
            let views = wallets@.map_values(|wallet: state::Wallet| wallet@);
            assert(views.drop_last() =~= Seq::<state::WalletView>::empty());
            reveal_with_fuel(state::RelayerStateView::with_wallets, 2);
            assert(views.last() == view);
        }
        self.global_state.add_wallets(wallets);
        let response: Result<WalletAddResponse, ApiServerError> = Ok(
            WalletAddResponse { wallet_id },
        );
        assert(adds_wallet(
            old(self).global_state@,
            self.global_state@,
            response->Ok_0.wallet_id,
            order_ids@,
            req.wallet,
            view,
        ));
        response
    }
}

/// The first `n` fees, with zero fees where there are fewer.
pub open spec fn padded_fees(fees: Seq<Fee>, n: nat) -> Seq<Fee> {
    Seq::new(
        n,
        |i: int|
            if i < fees.len() {
                fees[i]
            } else {
                Fee::zero()
            },
    )
}

/// Pads the fees with zero fees to the number that a wallet is created with.
/// Fees beyond that number are dropped.
pub fn pad_fees(fees: Vec<Fee>) -> (padded: Vec<Fee>)
    ensures
        padded@ == padded_fees(fees@, MAX_FEES as nat),
        padded@.len() == MAX_FEES,
        forall|i: int|
            0 <= i < MAX_FEES && i < fees@.len() ==> #[trigger] padded@[i] == fees@[i],
        forall|i: int|
            fees@.len() <= i < MAX_FEES ==> {
                &&& (#[trigger] padded@[i]).settle_key == 0
                &&& padded@[i].gas_addr == 0
                &&& padded@[i].gas_token_amount == 0
                &&& padded@[i].percentage_fee == 0
            },
{
    let mut padded: Vec<Fee> = Vec::new();
    while padded.len() < MAX_FEES
        invariant
            padded@.len() <= MAX_FEES,
            padded@ == padded_fees(fees@, padded@.len()),
        decreases MAX_FEES - padded@.len(),
    {
        let n: usize = padded.len();
        if n < fees.len() {
            padded.push(fees[n]);
        } else {
            padded.push(Fee::default());
        }
        assert(padded@ =~= padded_fees(fees@, padded@.len()));
    }
    padded
}

/// Handler for the /wallet/create route, where `Q` is the sending end of the
/// proof manager's job queue.
#[derive(Debug)]
pub struct WalletCreateHandler<Q> {
    /// The channel to enqueue a proof generation request of
    /// `VALID WALLET CREATE` on.
    pub proof_job_queue: Q,
}

impl<Q> WalletCreateHandler<Q> {
    /// Create a new handler for the /wallet/create route.
    pub fn new(proof_manager_job_queue: Q) -> (handler: Self)
        ensures
            handler.proof_job_queue == proof_manager_job_queue,
    {
        Self { proof_job_queue: proof_manager_job_queue }
    }

    /// The job to enqueue for a request: to prove `VALID WALLET CREATE`, and to
    /// return the proof on the given channel.
    pub fn proof_job<R>(&self, req: CreateWalletRequest, response_channel: R) -> (job:
        ProofManagerJob<R>)
        ensures
            job.response_channel == response_channel,
            job.type_ matches ProofJob::ValidWalletCreate { fees, keys, randomness } && fees@
                == padded_fees(req.fees@, MAX_FEES as nat) && keys == req.keys
                && randomness.value() == crypto::le_value(req.randomness@)
                % crypto::group_order(),
    {
        ProofManagerJob {
            type_: ProofJob::ValidWalletCreate {
                fees: pad_fees(req.fees),
                keys: req.keys,
                randomness: biguint_to_scalar(&req.randomness),
            },
            response_channel,
        }
    }

    /// The outcome of enqueueing the job, given the text of the queue's error
    /// if it failed.
    pub fn enqueued(&self, sent: Result<(), String>) -> (result: Result<(), ApiServerError>)
        ensures
            result == (match sent {
                Ok(_) => Ok(()),
                Err(text) => Err(ApiServerError::EnqueueJob(text)),
            }),
    {
        match sent {
            Ok(_) => Ok(()),
            Err(text) => Err(ApiServerError::EnqueueJob(text)),
        }
    }
}

/// Handler for the /wallet/orders/create endpoint.
///
/// Adds a new order to the given wallet.
pub struct OrderCreateHandler {
    /// The relayer-global state.
    pub global_state: RelayerState,
}

impl OrderCreateHandler {
    /// Create a new handler for "/wallet/orders/create".
    pub fn new(global_state: RelayerState) -> (handler: Self)
        ensures
            handler.global_state == global_state,
    {
        Self { global_state }
    }

    /// Adds the order to the wallet under a new identifier.
    pub fn handle_typed(&mut self, req: OrderCreateRequest) -> (response: Result<
        OrderCreateResponse,
        ApiServerError,
    >)
        ensures
            response is Ok,
            state::is_random_identifier(response->Ok_0.order_id),
            final(self).global_state@ == old(self).global_state@.with_order(
                req.wallet_id,
                response->Ok_0.order_id,
                req.order,
            ),
            old(self).global_state@.wallets.contains_key(req.wallet_id)
                ==> final(self).global_state@.wallets[req.wallet_id].orders
                == old(self).global_state@.wallets[req.wallet_id].orders.insert(
                response->Ok_0.order_id,
                req.order,
            ),
            final(self).global_state@.wallets.dom() == old(self).global_state@.wallets.dom(),
            final(self).global_state@.orders == old(self).global_state@.orders,
    {
        let order_id: OrderIdentifier = new_identifier();
        self.global_state.add_order_to_wallet(req.wallet_id, order_id, req.order);
        Ok(OrderCreateResponse { order_id })
    }
}

// -------------------
// | Order Book APIs |
// -------------------

/// The order without its proof.
pub open spec fn without_proof(order: state::NetworkOrderView) -> state::NetworkOrderView {
    state::NetworkOrderView { valid_commit_proof: None, ..order }
}

/// Handler for the /orderbook/list endpoint.
#[derive(Clone)]
pub struct OrderBookListHandler<'a> {
    /// The relayer-global state.
    pub global_state: &'a RelayerState,
}

impl<'a> OrderBookListHandler<'a> {
    /// Create a new handler for "/orderbook/list".
    pub fn new(global_state: &'a RelayerState) -> (handler: Self)
        ensures
            handler.global_state == global_state,
    {
        Self { global_state }
    }

    /// Lists all orders of the book, without their validity proofs, which
    /// saves bandwidth.
    pub fn handle_typed(&self, _req: OrderBookListRequest) -> (response: Result<
        OrderBookListResponse,
        ApiServerError,
    >)
        ensures
            response is Ok,
            response->Ok_0.orders@.map_values(|order: NetworkOrder| order@)
                == self.global_state@.orders.map_values(
                |order: state::NetworkOrderView| without_proof(order),
            ),
            response->Ok_0.orders@.len() == self.global_state@.orders.len(),
            forall|i: int|
                0 <= i < self.global_state@.orders.len() ==> {
                    &&& (#[trigger] response->Ok_0.orders@[i]).id == self.global_state@.orders[i].id
                    &&& response->Ok_0.orders@[i].local == self.global_state@.orders[i].local
                    &&& response->Ok_0.orders@[i].valid_commit_proof is None
                },
    {
        let mut orders: Vec<NetworkOrder> = self.global_state.get_all_orders();
        let ghost all = orders@;
        let mut n: usize = 0;
        while n < orders.len()
            invariant
                n <= orders@.len(),
                orders@.len() == all.len(),
                forall|i: int| 0 <= i < n ==> #[trigger] orders@[i]@ == without_proof(all[i]@),
                forall|i: int|
                    0 <= i < n ==> (#[trigger] orders@[i]).id == all[i].id && orders@[i].local
                        == all[i].local && orders@[i].valid_commit_proof is None,
                forall|i: int| n <= i < all.len() ==> #[trigger] orders@[i] == all[i],
            decreases orders@.len() - n,
        {
            orders[n].valid_commit_proof = None;
            n += 1;
        }
        proof {
            let views = all.map_values(|order: NetworkOrder| order@);
            assert(orders@.map_values(|order: NetworkOrder| order@) =~= views.map_values(
                |order: state::NetworkOrderView| without_proof(order),
            ));
        }
        Ok(OrderBookListResponse { orders })
    }
}

// ------------------------
// | Price Reporting APIs |
// ------------------------

/// Handler for the /exchange/health_check/ route, returns the health report
/// for each individual exchange and the aggregate median.
#[derive(Clone, Debug)]
pub struct ExchangeHealthStatesHandler<Q> {
    /// The config for the API server.
    pub config: ApiServerConfig<Q>,
}

impl<Q> ExchangeHealthStatesHandler<Q> {
    /// Create a new handler for "/exchange/health".
    pub fn new(config: ApiServerConfig<Q>) -> (handler: Self)
        ensures
            handler.config == config,
    {
        Self { config }
    }

    /// The two jobs to enqueue for a request, in order: one for the state of
    /// the median, to be returned on the first channel, and one for the states
    /// of all exchanges, to be returned on the second.
    pub fn price_reporter_jobs<M, A>(
        &self,
        req: GetExchangeHealthStatesRequest,
        median_channel: M,
        all_exchanges_channel: A,
    ) -> (jobs: (PriceReporterManagerJob<M, A>, PriceReporterManagerJob<M, A>))
        ensures
            jobs.0 == (PriceReporterManagerJob::<M, A>::PeekMedian {
                base_token: req.base_token,
                quote_token: req.quote_token,
                channel: median_channel,
            }),
            jobs.1 == (PriceReporterManagerJob::<M, A>::PeekAllExchanges {
                base_token: req.base_token,
                quote_token: req.quote_token,
                channel: all_exchanges_channel,
            }),
    {
        let peek_median = PriceReporterManagerJob::PeekMedian {
            base_token: req.base_token.clone(),
            quote_token: req.quote_token.clone(),
            channel: median_channel,
        };
        let peek_all = PriceReporterManagerJob::PeekAllExchanges {
            base_token: req.base_token,
            quote_token: req.quote_token,
            channel: all_exchanges_channel,
        };
        (peek_median, peek_all)
    }

    /// The response, once both jobs have been answered.
    pub fn respond<M, A>(&self, median: M, all_exchanges: A) -> (response: Result<
        GetExchangeHealthStatesResponse<M, A>,
        ApiServerError,
    >)
        ensures
            response == Ok::<GetExchangeHealthStatesResponse<M, A>, ApiServerError>(
                GetExchangeHealthStatesResponse { median, all_exchanges },
            ),
    {
        Ok(GetExchangeHealthStatesResponse { median, all_exchanges })
    }
}

// ---------------------
// | Cluster Info APIs |
// ---------------------

/// Handler for the replicas route, returns the replicas that a given wallet
/// has.
#[derive(Clone)]
pub struct ReplicasHandler<'a> {
    /// The global state of the relayer, used to query information for requests.
    pub global_state: &'a RelayerState,
}

impl<'a> ReplicasHandler<'a> {
    /// Create a new handler for "/replicas".
    pub fn new(global_state: &'a RelayerState) -> (handler: Self)
        ensures
            handler.global_state == global_state,
    {
        Self { global_state }
    }

    /// Lists the replicas of a wallet, each once, in no particular order. A
    /// wallet that is not known has none.
    pub fn handle_typed(&self, req: GetReplicasRequest) -> (response: Result<
        GetReplicasResponse,
        ApiServerError,
    >)
        ensures
            response is Ok,
            response->Ok_0.replicas@.no_duplicates(),
            response->Ok_0.replicas@.to_set() == self.global_state@.replicas_of(req.wallet_id),
    {
        Ok(GetReplicasResponse { replicas: self.global_state.replicas(req.wallet_id) })
    }
}

// --------
// | Laws |
// --------

/// A wallet that has been added is found under its identifier and has no
/// replicas. The other wallets and the order book have not changed.
pub proof fn law_added_wallet_is_found(
    before: state::RelayerStateView,
    after: state::RelayerStateView,
    wallet_id: WalletIdentifier,
    order_ids: Seq<OrderIdentifier>,
    wallet: Wallet,
    indexed: state::WalletView,
)
    requires
        adds_wallet(before, after, wallet_id, order_ids, wallet, indexed),
    ensures
        after.wallets.contains_key(wallet_id),
        after.wallets[wallet_id] == indexed,
        after.replicas_of(wallet_id) == Set::<PeerIdentifier>::empty(),
        after.orders == before.orders,
        forall|other: WalletIdentifier|
            other != wallet_id ==> (#[trigger] after.wallets.contains_key(other)
                <==> before.wallets.contains_key(other)) && after.wallets[other]
                == before.wallets[other],
{
}

/// The balance of a mint is the last one that was given for it.
pub proof fn law_last_balance_of_a_mint_counts(balances: Seq<Balance>, i: int)
    requires
        0 <= i < balances.len(),
        forall|j: int| i < j < balances.len() ==> (#[trigger] balances[j]).mint != balances[i].mint,
    ensures
        indexed_balances(balances).contains_key(balances[i].mint),
        indexed_balances(balances)[balances[i].mint] == balances[i],
    decreases balances.len(),
{
    let last = balances.len() - 1;
    if i < last {
        assert forall|j: int| i < j < last implies (#[trigger] balances.drop_last()[j]).mint
            != balances[i].mint by {
            assert(balances[j].mint != balances[i].mint);
        }
        law_last_balance_of_a_mint_counts(balances.drop_last(), i);
        assert(balances[last].mint != balances[i].mint);
    }
}

/// A mint has a balance only if one was given for it.
pub proof fn law_only_given_mints_have_balances(balances: Seq<Balance>, mint: u64)
    requires
        indexed_balances(balances).contains_key(mint),
    ensures
        exists|i: int|
            0 <= i < balances.len() && (#[trigger] balances[i]).mint == mint && balances[i]
                == indexed_balances(balances)[mint],
    decreases balances.len(),
{
    if balances.len() > 0 {
        let last = balances.len() - 1;
        if balances[last].mint != mint {
            law_only_given_mints_have_balances(balances.drop_last(), mint);
            let i = choose|i: int|
                0 <= i < last && (#[trigger] balances.drop_last()[i]).mint == mint
                    && balances.drop_last()[i] == indexed_balances(balances.drop_last())[mint];
            assert(balances[i].mint == mint);
        } else {
            assert(balances[last].mint == mint);
        }
    }
}

/// Where the identifiers are distinct, every order is found under its own.
pub proof fn law_every_order_is_found(ids: Seq<OrderIdentifier>, orders: Seq<Order>, i: int)
    requires
        ids.len() == orders.len(),
        ids.no_duplicates(),
        0 <= i < orders.len(),
    ensures
        indexed_orders(ids, orders).contains_key(ids[i]),
        indexed_orders(ids, orders)[ids[i]] == orders[i],
    decreases orders.len(),
{
    let last = orders.len() - 1;
    if i < last {
        law_every_order_is_found(ids.drop_last(), orders.drop_last(), i);
        assert(ids[last] != ids[i]);
    }
}

/// Padding keeps the fees that fit, and padded fees are left alone.
pub proof fn law_padding_keeps_fees(fees: Seq<Fee>, n: nat)
    ensures
        padded_fees(fees, n).len() == n,
        fees.len() <= n ==> padded_fees(fees, n).take(fees.len() as int) == fees,
        fees.len() == n ==> padded_fees(fees, n) == fees,
        padded_fees(padded_fees(fees, n), n) == padded_fees(fees, n),
{
    if fees.len() <= n {
        assert(padded_fees(fees, n).take(fees.len() as int) =~= fees);
    }
    if fees.len() == n {
        assert(padded_fees(fees, n) =~= fees);
    }
    assert(padded_fees(padded_fees(fees, n), n) =~= padded_fees(fees, n));
}

/// An order that was added to a known wallet is found in it, and neither the
/// wallet's other contents nor the other wallets have changed.
pub proof fn law_created_order_is_found(
    before: state::RelayerStateView,
    wallet_id: WalletIdentifier,
    order_id: OrderIdentifier,
    order: Order,
    other_wallet: WalletIdentifier,
    other_order: OrderIdentifier,
)
    requires
        before.wallets.contains_key(wallet_id),
    ensures
        ({
            let after = before.with_order(wallet_id, order_id, order);
            let wallet = after.wallets[wallet_id];
            &&& after.wallets.contains_key(wallet_id)
            &&& wallet.orders.contains_key(order_id)
            &&& wallet.orders[order_id] == order
            &&& other_order != order_id ==> (wallet.orders.contains_key(other_order)
                <==> before.wallets[wallet_id].orders.contains_key(other_order))
                && wallet.orders[other_order] == before.wallets[wallet_id].orders[other_order]
            &&& wallet.wallet_id == before.wallets[wallet_id].wallet_id
            &&& wallet.matched_orders == before.wallets[wallet_id].matched_orders
            &&& wallet.balances == before.wallets[wallet_id].balances
            &&& wallet.fees == before.wallets[wallet_id].fees
            &&& wallet.public_keys == before.wallets[wallet_id].public_keys
            &&& wallet.secret_keys == before.wallets[wallet_id].secret_keys
            &&& wallet.randomness == before.wallets[wallet_id].randomness
            &&& wallet.replicas == before.wallets[wallet_id].replicas
            &&& other_wallet != wallet_id ==> (after.wallets.contains_key(other_wallet)
                <==> before.wallets.contains_key(other_wallet)) && after.wallets[other_wallet]
                == before.wallets[other_wallet]
            &&& after.orders == before.orders
        }),
{
}

/// The order in which two orders of different identifiers are added does not
/// matter.
pub proof fn law_order_creation_commutes(
    before: state::RelayerStateView,
    wallet_a: WalletIdentifier,
    id_a: OrderIdentifier,
    order_a: Order,
    wallet_b: WalletIdentifier,
    id_b: OrderIdentifier,
    order_b: Order,
)
    requires
        id_a != id_b,
    ensures
        before.with_order(wallet_a, id_a, order_a).with_order(wallet_b, id_b, order_b)
            == before.with_order(wallet_b, id_b, order_b).with_order(wallet_a, id_a, order_a),
{
    let ab = before.with_order(wallet_a, id_a, order_a).with_order(wallet_b, id_b, order_b);
    let ba = before.with_order(wallet_b, id_b, order_b).with_order(wallet_a, id_a, order_a);
    assert(ab.wallets =~~= ba.wallets);
}

/// Orders without proofs are listed as they are, so listing a listing changes
/// nothing.
pub proof fn law_listing_is_idempotent(orders: Seq<state::NetworkOrderView>)
    ensures
        ({
            let listed = orders.map_values(|order: state::NetworkOrderView| without_proof(order));
            listed.map_values(|order: state::NetworkOrderView| without_proof(order)) == listed
        }),
{
    let listed = orders.map_values(|order: state::NetworkOrderView| without_proof(order));
    assert(listed.map_values(|order: state::NetworkOrderView| without_proof(order)) =~= listed);
}

/// Every order of a wallet that was added is stored under its own identifier,
/// where the identifiers are distinct, and no other order is stored.
pub proof fn law_added_wallet_holds_every_order(
    before: state::RelayerStateView,
    after: state::RelayerStateView,
    wallet_id: WalletIdentifier,
    order_ids: Seq<OrderIdentifier>,
    wallet: Wallet,
    indexed: state::WalletView,
)
    requires
        adds_wallet(before, after, wallet_id, order_ids, wallet, indexed),
        order_ids.no_duplicates(),
    ensures
        order_ids.len() == wallet.orders@.len(),
        forall|i: int|
            0 <= i < wallet.orders@.len() ==> {
                &&& after.wallets[wallet_id].orders.contains_key(#[trigger] order_ids[i])
                &&& after.wallets[wallet_id].orders[order_ids[i]] == wallet.orders@[i]
            },
        forall|id: OrderIdentifier| #[trigger]
            after.wallets[wallet_id].orders.contains_key(id) ==> order_ids.contains(id),
{
    assert forall|i: int| 0 <= i < wallet.orders@.len() implies {
        &&& after.wallets[wallet_id].orders.contains_key(#[trigger] order_ids[i])
        &&& after.wallets[wallet_id].orders[order_ids[i]] == wallet.orders@[i]
    } by {
        law_every_order_is_found(order_ids, wallet.orders@, i);
    }
    assert forall|id: OrderIdentifier| #[trigger]
        after.wallets[wallet_id].orders.contains_key(id) implies order_ids.contains(id) by {
        law_only_given_orders_are_found(order_ids, wallet.orders@, id);
    }
}

/// Of two orders with one identifier the later is stored.
pub proof fn law_last_order_of_an_identifier_counts(
    ids: Seq<OrderIdentifier>,
    orders: Seq<Order>,
    i: int,
)
    requires
        ids.len() == orders.len(),
        0 <= i < orders.len(),
        forall|j: int| i < j < ids.len() ==> #[trigger] ids[j] != ids[i],
    ensures
        indexed_orders(ids, orders).contains_key(ids[i]),
        indexed_orders(ids, orders)[ids[i]] == orders[i],
    decreases orders.len(),
{
    let last = orders.len() - 1;
    if i < last {
        assert forall|j: int| i < j < last implies #[trigger] ids.drop_last()[j] != ids[i] by {
            assert(ids[j] != ids[i]);
        }
        law_last_order_of_an_identifier_counts(ids.drop_last(), orders.drop_last(), i);
        assert(ids[last] != ids[i]);
    }
}

/// An order is found only under an identifier that was given for it.
pub proof fn law_only_given_orders_are_found(
    ids: Seq<OrderIdentifier>,
    orders: Seq<Order>,
    id: OrderIdentifier,
)
    requires
        ids.len() == orders.len(),
        indexed_orders(ids, orders).contains_key(id),
    ensures
        exists|i: int|
            0 <= i < ids.len() && #[trigger] ids[i] == id && orders[i] == indexed_orders(
                ids,
                orders,
            )[id],
    decreases orders.len(),
{
    if orders.len() > 0 {
        let last = orders.len() - 1;
        if ids[last] != id {
            let front = ids.drop_last();
            law_only_given_orders_are_found(front, orders.drop_last(), id);
            let i = choose|i: int|
                0 <= i < last && #[trigger] front[i] == id && orders.drop_last()[i]
                    == indexed_orders(front, orders.drop_last())[id];
            assert(ids[i] == id);
        } else {
            assert(ids[last] == id);
        }
    }
}

/// Of each mint, a wallet that was added holds the last balance that was given,
/// and it holds balances of no other mints.
pub proof fn law_added_wallet_holds_every_balance(
    before: state::RelayerStateView,
    after: state::RelayerStateView,
    wallet_id: WalletIdentifier,
    order_ids: Seq<OrderIdentifier>,
    wallet: Wallet,
    indexed: state::WalletView,
    i: int,
    mint: u64,
)
    requires
        adds_wallet(before, after, wallet_id, order_ids, wallet, indexed),
        0 <= i < wallet.balances@.len(),
        forall|j: int|
            i < j < wallet.balances@.len() ==> (#[trigger] wallet.balances@[j]).mint
                != wallet.balances@[i].mint,
    ensures
        after.wallets[wallet_id].balances.contains_key(wallet.balances@[i].mint),
        after.wallets[wallet_id].balances[wallet.balances@[i].mint] == wallet.balances@[i],
        after.wallets[wallet_id].balances.contains_key(mint) ==> exists|k: int|
            0 <= k < wallet.balances@.len() && (#[trigger] wallet.balances@[k]).mint == mint,
{
    law_last_balance_of_a_mint_counts(wallet.balances@, i);
    if after.wallets[wallet_id].balances.contains_key(mint) {
        law_only_given_mints_have_balances(wallet.balances@, mint);
    }
}

/// A wallet that was added has the fees, the public keys and the randomness
/// that were given, and starts without matches, secret keys and replicas.
pub proof fn law_added_wallet_is_as_described(
    before: state::RelayerStateView,
    after: state::RelayerStateView,
    wallet_id: WalletIdentifier,
    order_ids: Seq<OrderIdentifier>,
    wallet: Wallet,
    indexed: state::WalletView,
)
    requires
        adds_wallet(before, after, wallet_id, order_ids, wallet, indexed),
    ensures
        ({
            let added = after.wallets[wallet_id];
            &&& added.wallet_id == wallet_id
            &&& added.fees == wallet.fees@
            &&& added.public_keys == wallet.public_keys
            &&& added.randomness == wallet.randomness@
            &&& added.matched_orders == Map::<OrderIdentifier, Order>::empty()
            &&& added.replicas == Set::<PeerIdentifier>::empty()
            &&& added.secret_keys.sk_root is None
            &&& crypto::le_value(added.secret_keys.sk_match.bytes@) == 0
            &&& crypto::le_value(added.secret_keys.sk_settle.bytes@) == 0
            &&& crypto::le_value(added.secret_keys.sk_view.bytes@) == 0
            &&& wallet.orders@.len() == 0 ==> added.orders == Map::<OrderIdentifier, Order>::empty()
            &&& wallet.balances@.len() == 0 ==> added.balances == Map::<u64, Balance>::empty()
        }),
        forall|i: int|
            0 <= i < order_ids.len() ==> state::is_random_identifier(#[trigger] order_ids[i]),
{
}

/// A listing has as many orders as the book, each in its place, with the same
/// identifier and the same locality, and without a proof.
pub proof fn law_listing_keeps_every_order(
    orders: Seq<state::NetworkOrderView>,
    listed: Seq<state::NetworkOrderView>,
    i: int,
)
    requires
        listed == orders.map_values(|order: state::NetworkOrderView| without_proof(order)),
        0 <= i < orders.len(),
    ensures
        listed.len() == orders.len(),
        listed[i].id == orders[i].id,
        listed[i].local == orders[i].local,
        listed[i].valid_commit_proof is None,
{
}

/// Each of padded fees is the fee that was given in its place, or zero in every
/// field where none was given.
pub proof fn law_padding_is_zero(fees: Seq<Fee>, n: nat, i: int)
    requires
        0 <= i < n,
    ensures
        padded_fees(fees, n).len() == n,
        i < fees.len() ==> padded_fees(fees, n)[i] == fees[i],
        i >= fees.len() ==> {
            &&& padded_fees(fees, n)[i].settle_key == 0
            &&& padded_fees(fees, n)[i].gas_addr == 0
            &&& padded_fees(fees, n)[i].gas_token_amount == 0
            &&& padded_fees(fees, n)[i].percentage_fee == 0
        },
{
}

} // verus!
