//! The tokens whose prices are reported.

use vstd::prelude::*;

verus! {

/// A token, with what is known of it.
#[derive(Debug, PartialEq, Eq)]
pub struct Token {
    /// The address of the ERC-20 contract.
    pub addr: String,
    /// Whether the token is one of those known by name.
    pub named: bool,
    /// The number of decimals of the token's fixed-point amounts, where known.
    pub decimals: Option<u8>,
}

impl Token {
    /// Whether the token is one of those known by name.
    pub fn is_named(&self) -> (named: bool)
        ensures
            named == self.named,
    {
        self.named
    }

    /// The number of decimals of the token's fixed-point amounts, where known.
    pub fn get_decimals(&self) -> (decimals: Option<u8>)
        ensures
            decimals == self.decimals,
    {
        self.decimals
    }
}

impl Clone for Token {
    fn clone(&self) -> (token: Self)
        ensures
            token == *self,
    {
        Token { addr: self.addr.clone(), named: self.named, decimals: self.decimals }
    }
}

} // verus!
