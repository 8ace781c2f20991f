//! The sizes that wallets are padded to.

use vstd::prelude::*;

verus! {

/// The number of balances that a wallet is padded to by default.
pub const MAX_BALANCES: usize = 20;

/// The number of orders that a wallet is padded to by default.
pub const MAX_ORDERS: usize = 20;

/// The number of fees that a wallet is created with.
pub const MAX_FEES: usize = 2;

} // verus!
