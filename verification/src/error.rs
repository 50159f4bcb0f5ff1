//! Why consuming a bet note fails (the whole transaction is then void).
use vstd::prelude::*;

verus! {

#[derive(Clone, Copy, Debug, PartialEq, Eq, Structural)]
pub enum NoteError {
    /// The note has fewer than twelve inputs.
    MalformedInputs,
    /// The seat is neither 1 nor 2.
    InvalidPlayerNum,
    /// More than three fingers shown.
    InvalidFingers,
    /// A guess above six.
    InvalidGuess,
    /// The note does not carry exactly one asset.
    WrongAssetCount,
    /// The asset's amount is not the stake named in the inputs.
    WrongBetAmount,
    /// The consuming account may not consume this note.
    Unauthorized,
    /// The vault would hold more than the largest asset amount.
    VaultOverflow,
    /// A payout amount is not a valid asset amount.
    InvalidAsset,
    /// The vault holds less than a payout.
    InsufficientFunds,
    /// The round was settled before.
    RoundSettled,
    /// The two notes stake assets of different faucets.
    FaucetMismatch,
    /// The two notes name different stakes.
    BetValueMismatch,
    /// The two notes name different pairs of players.
    CommitmentMismatch,
    /// A player reclaimed a note before its expiry block.
    NotExpired,
}

} // verus!
