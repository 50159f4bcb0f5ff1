//! What the testnet faucet says about itself.
use vstd::prelude::*;

verus! {

/// The faucet's account id (bech32), the amount it hands out per request and
/// the difficulty of its proof of work.
pub struct FaucetMeta {
    pub id: String,
    pub base_amount: u64,
    pub pow_load_difficulty: u64,
}

} // verus!
