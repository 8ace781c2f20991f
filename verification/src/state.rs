//! The state of a relayer: the wallets that it manages and its order book.

use std::collections::{HashMap, HashSet};
use vstd::prelude::*;
use crate::circuits::types::{Balance, Fee, Order};
use crate::crypto::Scalar;

verus! {

/// Identifies a wallet.
pub type WalletIdentifier = u128;

/// Identifies an order.
pub type OrderIdentifier = u128;

/// Identifies a peer in the network.
pub type PeerIdentifier = u128;

/// A random (version 4) UUID: the four bits of the version are 4, and the two
/// bits of the variant are 2.
pub open spec fn is_random_identifier(id: u128) -> bool {
    (id >> 76) & 0xf == 4 && (id >> 62) & 0x3 == 2
}

/// All of them are random UUIDs.
pub open spec fn are_random_identifiers(ids: Seq<u128>) -> bool {
    forall|i: int| 0 <= i < ids.len() ==> is_random_identifier(#[trigger] ids[i])
}

/// Draws an identifier with `uuid::Uuid::new_v4`.
///
/// Trusted: it has the version and the variant of a random UUID. The other
/// bits are left to chance.
#[verifier::external_body]
pub(crate) fn new_identifier() -> (id: u128)
    ensures
        is_random_identifier(id),
{
    uuid::Uuid::new_v4().as_u128()
}

/// The public keys of a wallet.
#[derive(Clone, Copy, Debug, PartialEq, Eq)]
pub struct PublicKeyChain {
    pub pk_root: Scalar,
    pub pk_match: Scalar,
    pub pk_settle: Scalar,
    pub pk_view: Scalar,
}

/// The secret keys of a wallet, without the root key where it is not known.
#[derive(Clone, Copy, Debug, PartialEq, Eq)]
pub struct PrivateKeyChain {
    pub sk_root: Option<Scalar>,
    pub sk_match: Scalar,
    pub sk_settle: Scalar,
    pub sk_view: Scalar,
}

/// What a relayer knows of a wallet beside its contents.
pub struct WalletMetadata {
    /// The peers that replicate the wallet.
    pub replicas: HashSet<PeerIdentifier>,
}

/// A wallet in the form that the relayer looks things up in.
pub struct Wallet {
    pub wallet_id: WalletIdentifier,
    /// The open orders by identifier.
    pub orders: HashMap<OrderIdentifier, Order>,
    /// The orders that have been matched, by identifier.
    pub matched_orders: HashMap<OrderIdentifier, Order>,
    /// The balances by mint.
    pub balances: HashMap<u64, Balance>,
    pub fees: Vec<Fee>,
    pub public_keys: PublicKeyChain,
    pub secret_keys: PrivateKeyChain,
    /// The wallet's randomness, the least significant byte first.
    pub randomness: Vec<u8>,
    pub metadata: WalletMetadata,
}

/// The contents of a wallet.
#[verifier::ext_equal]
pub struct WalletView {
    pub wallet_id: WalletIdentifier,
    pub orders: Map<OrderIdentifier, Order>,
    pub matched_orders: Map<OrderIdentifier, Order>,
    pub balances: Map<u64, Balance>,
    pub fees: Seq<Fee>,
    pub public_keys: PublicKeyChain,
    pub secret_keys: PrivateKeyChain,
    pub randomness: Seq<u8>,
    pub replicas: Set<PeerIdentifier>,
}

impl View for Wallet {
    type V = WalletView;

    open spec fn view(&self) -> WalletView {
        WalletView {
            wallet_id: self.wallet_id,
            orders: self.orders@,
            matched_orders: self.matched_orders@,
            balances: self.balances@,
            fees: self.fees@,
            public_keys: self.public_keys,
            secret_keys: self.secret_keys,
            randomness: self.randomness@,
            replicas: self.metadata.replicas@,
        }
    }
}

/// An order as the network knows it.
pub struct NetworkOrder {
    pub id: OrderIdentifier,
    /// Whether the relayer manages the order itself.
    pub local: bool,
    /// The proof that the order is validly committed to, once it is known.
    pub valid_commit_proof: Option<Vec<u8>>,
}

/// The contents of a network order.
#[verifier::ext_equal]
pub struct NetworkOrderView {
    pub id: OrderIdentifier,
    pub local: bool,
    pub valid_commit_proof: Option<Seq<u8>>,
}

impl View for NetworkOrder {
    type V = NetworkOrderView;

    open spec fn view(&self) -> NetworkOrderView {
        NetworkOrderView {
            id: self.id,
            local: self.local,
            valid_commit_proof: match self.valid_commit_proof {
                Some(proof_bytes) => Some(proof_bytes@),
                None => None,
            },
        }
    }
}

impl Clone for NetworkOrder {
    fn clone(&self) -> (order: Self)
        ensures
            order@ == self@,
            order.id == self.id,
            order.local == self.local,
    {
        let valid_commit_proof: Option<Vec<u8>> = match &self.valid_commit_proof {
            Some(proof_bytes) => {
                let copy: Vec<u8> = proof_bytes.clone();
                assert(copy@ =~= proof_bytes@);
                Some(copy)
            },
            None => None,
        };
        NetworkOrder { id: self.id, local: self.local, valid_commit_proof }
    }
}

/// The state that the parts of a relayer share.
pub struct RelayerState {
    wallet_index: HashMap<WalletIdentifier, Wallet>,
    order_book: Vec<NetworkOrder>,
}

/// What the state holds.
#[verifier::ext_equal]
pub struct RelayerStateView {
    /// The wallets by identifier.
    pub wallets: Map<WalletIdentifier, WalletView>,
    /// The orders of the book.
    pub orders: Seq<NetworkOrderView>,
}

impl View for RelayerState {
    type V = RelayerStateView;

    closed spec fn view(&self) -> RelayerStateView {
        RelayerStateView {
            wallets: self.wallet_index@.map_values(|wallet: Wallet| wallet@),
            orders: self.order_book@.map_values(|order: NetworkOrder| order@),
        }
    }
}

impl RelayerStateView {
    /// The peers that replicate a wallet. A wallet that is not known has none.
    pub open spec fn replicas_of(self, wallet_id: WalletIdentifier) -> Set<PeerIdentifier> {
        if self.wallets.contains_key(wallet_id) {
            self.wallets[wallet_id].replicas
        } else {
            Set::empty()
        }
    }

    /// The state with a wallet added, in place of any of the same identifier.
    pub open spec fn with_wallet(self, wallet: WalletView) -> RelayerStateView {
        RelayerStateView { wallets: self.wallets.insert(wallet.wallet_id, wallet), ..self }
    }

    /// The state with wallets added one after the other.
    pub open spec fn with_wallets(self, wallets: Seq<WalletView>) -> RelayerStateView
        decreases wallets.len(),
    {
        if wallets.len() == 0 {
            self
        } else {
            self.with_wallets(wallets.drop_last()).with_wallet(wallets.last())
        }
    }

    /// The state with an order added to a wallet. Nothing changes if the
    /// wallet is not known.
    pub open spec fn with_order(
        self,
        wallet_id: WalletIdentifier,
        order_id: OrderIdentifier,
        order: Order,
    ) -> RelayerStateView {
        if self.wallets.contains_key(wallet_id) {
            let wallet = self.wallets[wallet_id];
            RelayerStateView {
                wallets: self.wallets.insert(
                    wallet_id,
                    WalletView { orders: wallet.orders.insert(order_id, order), ..wallet },
                ),
                ..self
            }
        } else {
            self
        }
    }
}

impl RelayerState {
    /// A state without wallets or orders.
    pub fn new() -> (state: Self)
        ensures
            state@.wallets == Map::<WalletIdentifier, WalletView>::empty(),
            state@.orders == Seq::<NetworkOrderView>::empty(),
    {
        let state = RelayerState { wallet_index: HashMap::new(), order_book: Vec::new() };
        assert(state@.wallets =~= Map::<WalletIdentifier, WalletView>::empty());
        assert(state@.orders =~= Seq::<NetworkOrderView>::empty());
        state
    }

    /// Adds a wallet, in place of any of the same identifier.
    pub fn add_wallet(&mut self, wallet: Wallet)
        ensures
            final(self)@ == old(self)@.with_wallet(wallet@),
            final(self)@.wallets == old(self)@.wallets.insert(wallet.wallet_id, wallet@),
            final(self)@.orders == old(self)@.orders,
    {
        broadcast use vstd::std_specs::hash::group_hash_axioms;

        let ghost view = wallet@;
        self.wallet_index.insert(wallet.wallet_id, wallet);
        assert(self@.wallets =~= old(self)@.wallets.insert(view.wallet_id, view));
    }

    /// Adds wallets one after the other.
    pub fn add_wallets(&mut self, wallets: Vec<Wallet>)
        ensures
            final(self)@ == old(self)@.with_wallets(
                wallets@.map_values(|wallet: Wallet| wallet@),
            ),
    {
        let ghost views = wallets@.map_values(|wallet: Wallet| wallet@);
        assert(views.take(0) =~= Seq::<WalletView>::empty());
        for wallet in rest: wallets
            invariant
                rest.seq() == wallets@,
                views == wallets@.map_values(|wallet: Wallet| wallet@),
                self@ == old(self)@.with_wallets(views.take(rest.index() as int)),
        {
            assert(views.take(rest.index() + 1).drop_last() =~= views.take(rest.index() as int));
            self.add_wallet(wallet);
        }
        assert(views.take(views.len() as int) =~= views);
    }

    /// Adds an order to a wallet, if the wallet is known.
    pub fn add_order_to_wallet(
        &mut self,
        wallet_id: WalletIdentifier,
        order_id: OrderIdentifier,
        order: Order,
    )
        ensures
            final(self)@ == old(self)@.with_order(wallet_id, order_id, order),
            final(self)@.wallets.dom() == old(self)@.wallets.dom(),
            final(self)@.orders == old(self)@.orders,
            old(self)@.wallets.contains_key(wallet_id) ==> final(self)@.wallets[wallet_id].orders
                == old(self)@.wallets[wallet_id].orders.insert(order_id, order),
    {
        broadcast use vstd::std_specs::hash::group_hash_axioms;

        if let Some(mut wallet) = self.wallet_index.remove(&wallet_id) {
            wallet.orders.insert(order_id, order);
            self.wallet_index.insert(wallet_id, wallet);
            assert(self@.wallets =~= old(self)@.with_order(wallet_id, order_id, order).wallets);
        } else {
            assert(self@.wallets =~= old(self)@.wallets);
        }
    }

    /// Adds an order to the book.
    pub fn add_order(&mut self, order: NetworkOrder)
        ensures
            final(self)@.wallets == old(self)@.wallets,
            final(self)@.orders == old(self)@.orders.push(order@),
            final(self)@.orders.last().id == order.id,
            final(self)@.orders.last().local == order.local,
    {
        self.order_book.push(order);
        assert(self@.orders =~= old(self)@.orders.push(order@));
    }

    /// The wallet of an identifier.
    pub fn read_wallet(&self, wallet_id: WalletIdentifier) -> (wallet: Option<&Wallet>)
        ensures
            wallet is Some <==> self@.wallets.contains_key(wallet_id),
            wallet is Some ==> wallet->Some_0@ == self@.wallets[wallet_id],
            wallet is Some ==> {
                &&& wallet->Some_0.wallet_id == self@.wallets[wallet_id].wallet_id
                &&& wallet->Some_0.orders@ == self@.wallets[wallet_id].orders
                &&& wallet->Some_0.matched_orders@ == self@.wallets[wallet_id].matched_orders
                &&& wallet->Some_0.balances@ == self@.wallets[wallet_id].balances
                &&& wallet->Some_0.fees@ == self@.wallets[wallet_id].fees
                &&& wallet->Some_0.public_keys == self@.wallets[wallet_id].public_keys
                &&& wallet->Some_0.secret_keys == self@.wallets[wallet_id].secret_keys
                &&& wallet->Some_0.randomness@ == self@.wallets[wallet_id].randomness
                &&& wallet->Some_0.metadata.replicas@ == self@.wallets[wallet_id].replicas
            },
    {
        broadcast use vstd::std_specs::hash::group_hash_axioms;

        self.wallet_index.get(&wallet_id)
    }

    /// All orders of the book.
    pub fn get_all_orders(&self) -> (orders: Vec<NetworkOrder>)
        ensures
            orders@.map_values(|order: NetworkOrder| order@) == self@.orders,
            orders@.len() == self@.orders.len(),
            forall|i: int|
                0 <= i < orders@.len() ==> {
                    &&& (#[trigger] orders@[i]).id == self@.orders[i].id
                    &&& orders@[i].local == self@.orders[i].local
                    &&& orders@[i].valid_commit_proof is Some
                        <==> self@.orders[i].valid_commit_proof is Some
                },
    {
        let mut orders: Vec<NetworkOrder> = Vec::new();
        let mut n: usize = 0;
        while n < self.order_book.len()
            invariant
                n <= self.order_book@.len(),
                orders@.len() == n,
                forall|i: int| 0 <= i < n ==> #[trigger] orders@[i]@ == self.order_book@[i]@,
            decreases self.order_book@.len() - n,
        {
            orders.push(self.order_book[n].clone());
            n += 1;
        }
        assert(orders@.map_values(|order: NetworkOrder| order@) =~= self@.orders);
        orders
    }

    /// The peers that replicate a wallet, each once, in no particular order.
    /// A wallet that is not known has none.
    pub fn replicas(&self, wallet_id: WalletIdentifier) -> (replicas: Vec<PeerIdentifier>)
        ensures
            replicas@.no_duplicates(),
            replicas@.to_set() == self@.replicas_of(wallet_id),
            forall|peer: PeerIdentifier| #[trigger]
                replicas@.contains(peer) <==> self@.wallets.contains_key(wallet_id)
                    && self@.wallets[wallet_id].replicas.contains(peer),
    {
        let mut replicas: Vec<PeerIdentifier> = Vec::new();
        assert(replicas@.to_set() =~= Set::<PeerIdentifier>::empty());
        if let Some(wallet) = self.read_wallet(wallet_id) {
            broadcast use vstd::std_specs::hash::group_hash_axioms;

            let iter = wallet.metadata.replicas.iter();
            let ghost all = vstd::std_specs::iter::IteratorSpec::remaining(&iter);
            assert(all.unref().to_set() == wallet.metadata.replicas@);
            assert(replicas@ =~= all.take(0).unref());
            for peer in peers: iter
                invariant
                    peers.seq() == all,
                    replicas@ == all.take(peers.index() as int).unref(),
            {
                replicas.push(*peer);
                assert(replicas@ =~= all.take(peers.index() + 1).unref());
            }
            assert(all.take(all.len() as int) =~= all);
        }
        proof {
            assert forall|peer: PeerIdentifier| #[trigger]
                replicas@.contains(peer) <==> self@.wallets.contains_key(wallet_id)
                    && self@.wallets[wallet_id].replicas.contains(peer) by {
                assert(replicas@.contains(peer) <==> replicas@.to_set().contains(peer));
            }
        }
        replicas
    }
}

/// The contents of a wallet are those of its fields.
pub proof fn law_wallet_contains_its_fields(wallet: Wallet)
    ensures
        wallet@.wallet_id == wallet.wallet_id,
        wallet@.orders == wallet.orders@,
        wallet@.matched_orders == wallet.matched_orders@,
        wallet@.balances == wallet.balances@,
        wallet@.fees == wallet.fees@,
        wallet@.public_keys == wallet.public_keys,
        wallet@.secret_keys == wallet.secret_keys,
        wallet@.randomness == wallet.randomness@,
        wallet@.replicas == wallet.metadata.replicas@,
{
}

/// The contents of a network order are those of its fields.
pub proof fn law_network_order_contains_its_fields(order: NetworkOrder)
    ensures
        order@.id == order.id,
        order@.local == order.local,
        order@.valid_commit_proof is Some <==> order.valid_commit_proof is Some,
        order.valid_commit_proof is Some ==> order@.valid_commit_proof->Some_0
            == order.valid_commit_proof->Some_0@,
{
}

/// A random identifier has version 4, in bits 76 to 79, and variant 2, in bits
/// 62 and 63.
pub proof fn law_random_identifier_has_version_and_variant(id: u128)
    requires
        is_random_identifier(id),
    ensures
        id / 0x1000_0000_0000_0000_0000 % 16 == 4,
        id / 0x4000_0000_0000_0000 % 4 == 2,
{
    assert((id >> 76) & 0xf == id / 0x1000_0000_0000_0000_0000 % 16) by (bit_vector);
    assert((id >> 62) & 0x3 == id / 0x4000_0000_0000_0000 % 4) by (bit_vector);
}

/// Each of random identifiers is one.
pub proof fn law_each_of_random_identifiers_is_one(ids: Seq<u128>, i: int)
    requires
        are_random_identifiers(ids),
        0 <= i < ids.len(),
    ensures
        is_random_identifier(ids[i]),
{
}

/// A wallet that is added is found under its own identifier, and changes
/// neither the other wallets nor the order book.
pub proof fn law_adding_a_wallet_keeps_the_others(
    before: RelayerStateView,
    wallet: WalletView,
    other: WalletIdentifier,
)
    ensures
        before.with_wallet(wallet).wallets.contains_key(wallet.wallet_id),
        before.with_wallet(wallet).wallets[wallet.wallet_id] == wallet,
        other != wallet.wallet_id ==> (before.with_wallet(wallet).wallets.contains_key(other)
            <==> before.wallets.contains_key(other)),
        other != wallet.wallet_id && before.wallets.contains_key(other) ==> before.with_wallet(
            wallet,
        ).wallets[other] == before.wallets[other],
        before.with_wallet(wallet).orders == before.orders,
{
}

/// Of several wallets that are added, the last of each identifier is found
/// under it.
pub proof fn law_last_wallet_of_an_identifier_counts(
    before: RelayerStateView,
    wallets: Seq<WalletView>,
    i: int,
)
    requires
        0 <= i < wallets.len(),
        forall|j: int|
            i < j < wallets.len() ==> (#[trigger] wallets[j]).wallet_id != wallets[i].wallet_id,
    ensures
        before.with_wallets(wallets).wallets.contains_key(wallets[i].wallet_id),
        before.with_wallets(wallets).wallets[wallets[i].wallet_id] == wallets[i],
    decreases wallets.len(),
{
    let last = wallets.len() - 1;
    if i < last {
        assert forall|j: int| i < j < last implies (#[trigger] wallets.drop_last()[j]).wallet_id
            != wallets[i].wallet_id by {
            assert(wallets[j].wallet_id != wallets[i].wallet_id);
        }
        law_last_wallet_of_an_identifier_counts(before, wallets.drop_last(), i);
        assert(wallets[last].wallet_id != wallets[i].wallet_id);
    }
}

/// Adding wallets changes neither the order book nor the wallets of other
/// identifiers.
pub proof fn law_adding_wallets_keeps_the_others(
    before: RelayerStateView,
    wallets: Seq<WalletView>,
    other: WalletIdentifier,
)
    requires
        forall|i: int| 0 <= i < wallets.len() ==> (#[trigger] wallets[i]).wallet_id != other,
    ensures
        before.with_wallets(wallets).orders == before.orders,
        before.with_wallets(wallets).wallets.contains_key(other)
            <==> before.wallets.contains_key(other),
        before.wallets.contains_key(other) ==> before.with_wallets(wallets).wallets[other]
            == before.wallets[other],
    decreases wallets.len(),
{
    if wallets.len() > 0 {
        let front = wallets.drop_last();
        assert forall|i: int| 0 <= i < front.len() implies (#[trigger] front[i]).wallet_id
            != other by {
            assert(wallets[i].wallet_id != other);
        }
        law_adding_wallets_keeps_the_others(before, front, other);
        assert(wallets[wallets.len() - 1].wallet_id != other);
    }
}

/// The replicas of a wallet are those that it names, and a wallet that is not
/// known has none.
pub proof fn law_replicas_are_those_of_the_wallet(
    state: RelayerStateView,
    wallet_id: WalletIdentifier,
    peer: PeerIdentifier,
)
    ensures
        state.replicas_of(wallet_id).contains(peer) <==> state.wallets.contains_key(wallet_id)
            && state.wallets[wallet_id].replicas.contains(peer),
{
}

/// An order for a wallet that is not known is dropped.
pub proof fn law_order_for_an_unknown_wallet_changes_nothing(
    before: RelayerStateView,
    wallet_id: WalletIdentifier,
    order_id: OrderIdentifier,
    order: Order,
)
    requires
        !before.wallets.contains_key(wallet_id),
    ensures
        before.with_order(wallet_id, order_id, order).wallets == before.wallets,
        before.with_order(wallet_id, order_id, order).orders == before.orders,
{
}

/// An order changes nothing of its wallet but the open orders.
pub proof fn law_order_changes_only_open_orders(
    before: RelayerStateView,
    wallet_id: WalletIdentifier,
    order_id: OrderIdentifier,
    order: Order,
)
    requires
        before.wallets.contains_key(wallet_id),
    ensures
        ({
            let old_wallet = before.wallets[wallet_id];
            let new_wallet = before.with_order(wallet_id, order_id, order).wallets[wallet_id];
            &&& new_wallet.wallet_id == old_wallet.wallet_id
            &&& new_wallet.orders == old_wallet.orders.insert(order_id, order)
            &&& new_wallet.matched_orders == old_wallet.matched_orders
            &&& new_wallet.balances == old_wallet.balances
            &&& new_wallet.fees == old_wallet.fees
            &&& new_wallet.public_keys == old_wallet.public_keys
            &&& new_wallet.secret_keys == old_wallet.secret_keys
            &&& new_wallet.randomness == old_wallet.randomness
            &&& new_wallet.replicas == old_wallet.replicas
        }),
{
}

} // verus!
