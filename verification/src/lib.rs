//! Verified game logic of a two-player Morra game settled by a house account.
pub mod felt;
pub mod storage;
pub mod asset;
pub mod rules;
pub mod inputs;
pub mod error;
pub mod house;
pub mod bet_note;
pub mod laws;
pub mod codec;
pub mod pow;
pub mod patches;
pub mod faucet;

use vstd::prelude::*;

verus! {

} // verus!
