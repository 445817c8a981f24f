//! The networks an address can belong to.

use vstd::prelude::*;

verus! {

/// A Bitcoin network.
#[derive(Clone, Copy, Debug, PartialEq, Eq, Structural)]
pub enum Chain {
    Bitcoin,
    Testnet,
    Testnet4,
    Signet,
    Regtest,
}

impl Chain {
    /// Whether keys and addresses of this network carry the main network's
    /// prefixes.
    pub open spec fn spec_is_mainnet(self) -> bool {
        self == Chain::Bitcoin
    }

    pub fn is_mainnet(self) -> (r: bool)
        ensures
            r == self.spec_is_mainnet(),
    {
        match self {
            Chain::Bitcoin => true,
            _ => false,
        }
    }
}

} // verus!
