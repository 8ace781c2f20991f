//! The jobs that the API server hands to other workers.

use vstd::prelude::*;
use crate::circuits::types::Fee;
use crate::crypto::Scalar;
use crate::external_events::tokens::Token;
use crate::state::PublicKeyChain;

verus! {

/// A statement to prove.
pub enum ProofJob {
    /// A proof of `VALID WALLET CREATE`.
    ValidWalletCreate {
        /// The fees of the new wallet, padded to their full number.
        fees: Vec<Fee>,
        /// The public keys of the new wallet.
        keys: PublicKeyChain,
        /// The randomness of the new wallet.
        randomness: Scalar,
    },
}

/// A job for the proof manager, where `R` is the sending end of the channel
/// that the proof is returned on.
pub struct ProofManagerJob<R> {
    /// The statement to prove.
    pub type_: ProofJob,
    /// Where to send the proof.
    pub response_channel: R,
}

/// A job for the price reporter, where `M` and `A` are the sending ends of the
/// channels that the two kinds of answers are returned on.
pub enum PriceReporterManagerJob<M, A> {
    /// Asks for the state of the median over all exchanges.
    PeekMedian { base_token: Token, quote_token: Token, channel: M },
    /// Asks for the state of each exchange.
    PeekAllExchanges { base_token: Token, quote_token: Token, channel: A },
}

} // verus!
