//! Account identifiers and fungible assets, held as field elements.
use vstd::prelude::*;
use crate::felt::Word;

verus! {

/// The largest amount a fungible asset can carry, `2^63 - 1`.
pub const MAX_FUNGIBLE_AMOUNT: u64 = 0x7fff_ffff_ffff_ffff;

/// An account identifier split into its two field elements.
#[derive(Clone, Copy, Debug, PartialEq, Eq, Structural)]
pub struct AccountIdParts {
    pub suffix: u64,
    pub prefix: u64,
}

/// Whether two identifiers name the same account.
pub fn same_account(a: &AccountIdParts, b: &AccountIdParts) -> (r: bool)
    ensures
        r == (*a == *b),
{
    a.suffix == b.suffix && a.prefix == b.prefix
}

/// Why an asset could not be formed.
#[derive(Clone, Copy, Debug, PartialEq, Eq, Structural)]
pub enum AssetError {
    AmountTooLarge,
}

/// An amount of the token issued by one faucet.
#[derive(Clone, Copy, Debug, PartialEq, Eq, Structural)]
pub struct FungibleAsset {
    pub faucet: AccountIdParts,
    pub amount: u64,
}

impl FungibleAsset {
    /// An asset of `amount` units of `faucet`'s token; refused above the maximum amount.
    pub fn new(faucet: AccountIdParts, amount: u64) -> (r: Result<FungibleAsset, AssetError>)
        ensures
            amount <= MAX_FUNGIBLE_AMOUNT ==> r == Ok::<FungibleAsset, AssetError>(FungibleAsset { faucet, amount }),
            amount > MAX_FUNGIBLE_AMOUNT ==> r == Err::<FungibleAsset, AssetError>(AssetError::AmountTooLarge),
    {
        if amount <= MAX_FUNGIBLE_AMOUNT {
            Ok(FungibleAsset { faucet, amount })
        } else {
            Err(AssetError::AmountTooLarge)
        }
    }

    pub open spec fn word_of(self) -> Word {
        Word { w0: self.amount, w1: 0, w2: self.faucet.suffix, w3: self.faucet.prefix }
    }

    /// The asset as a word: `[amount, 0, faucet_suffix, faucet_prefix]`.
    pub fn to_word(&self) -> (r: Word)
        ensures
            r == self.word_of(),
    {
        Word { w0: self.amount, w1: 0, w2: self.faucet.suffix, w3: self.faucet.prefix }
    }
}

} // verus!
