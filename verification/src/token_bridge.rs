//! Token bridge contract for cross-chain asset transfers: a skeleton with a
//! ping (`hello`) and a `version` endpoint.
use crate::stellar_aid::Symbol;
use vstd::prelude::*;

verus! {

/// The symbol `token_bridge`, as bytes.
pub open spec fn bridge_symbol() -> Seq<u8> {
    seq![116u8, 111u8, 107u8, 101u8, 110u8, 95u8, 98u8, 114u8, 105u8, 100u8, 103u8, 101u8]
}

/// The token bridge contract.
pub struct TokenBridgeContract;

impl TokenBridgeContract {
    /// Ping: returns the symbol `token_bridge`.
    pub fn hello() -> (r: Symbol)
        ensures
            r@ == bridge_symbol(),
    {
        let r = Symbol {
            bytes: vec![116u8, 111u8, 107u8, 101u8, 110u8, 95u8, 98u8, 114u8, 105u8, 100u8, 103u8, 101u8],
        };
        assert(r@ =~= bridge_symbol());
        r
    }

    /// Returns the contract version.
    pub fn version() -> (v: u32)
        ensures
            v == 1,
    {
        1
    }
}

} // verus!
