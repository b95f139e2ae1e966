//! The chain a key or a descriptor is meant for.

use vstd::prelude::*;

verus! {

/// The networks that keys can be bound to.
#[derive(Clone, Copy, Debug, PartialEq, Eq, Structural)]
pub enum Network {
    Bitcoin,
    Testnet,
    Signet,
    Regtest,
}

} // verus!
