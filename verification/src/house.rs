//! The house account: per-round bet storage, the vault, and payout notes.
use vstd::prelude::*;
use crate::asset::{AccountIdParts, FungibleAsset, MAX_FUNGIBLE_AMOUNT};
use crate::error::NoteError;
use crate::felt::Word;
use crate::storage::{WordMap, zero_map};

verus! {

/// Storage field of a player's fingers.
pub const FIELD_H: u64 = 0;
/// Storage field of a player's guess.
pub const FIELD_G: u64 = 1;
/// Storage field that is 1 once a player's bet is stored.
pub const FIELD_REGISTERED: u64 = 2;
/// Storage field of the staked faucet's suffix.
pub const FIELD_FAUCET_SUFFIX: u64 = 3;
/// Storage field of the staked faucet's prefix.
pub const FIELD_FAUCET_PREFIX: u64 = 4;
/// Storage field of the stake.
pub const FIELD_BET_VALUE: u64 = 5;
/// Storage field of the XOR of both players' id suffixes.
pub const FIELD_ID_XOR_S: u64 = 6;
/// Storage field of the XOR of both players' id prefixes.
pub const FIELD_ID_XOR_P: u64 = 7;
/// Number of storage fields per player and round.
pub const PLAYER_FIELDS: u64 = 8;
/// Third element of the key of a round's settled flag.
pub const SETTLED_FIELD: u64 = 99;

/// Key `[round_id, player_num, field, 0]` of one field of a player's bet.
pub open spec fn player_key(round_id: u64, player_num: u64, field: u64) -> Word {
    Word { w0: round_id, w1: player_num, w2: field, w3: 0 }
}

/// Key `[round_id, 0, 99, 0]` of a round's settled flag.
pub open spec fn settled_key(round_id: u64) -> Word {
    Word { w0: round_id, w1: 0, w2: SETTLED_FIELD, w3: 0 }
}

/// Key under which the vault holds a faucet's token.
pub open spec fn vault_key(faucet: AccountIdParts) -> Word {
    Word { w0: faucet.suffix, w1: faucet.prefix, w2: 0, w3: 0 }
}

/// Whether a note's contents are public on chain or only its commitment.
#[derive(Clone, Copy, Debug, PartialEq, Eq, Structural)]
pub enum NoteType {
    Public,
    Private,
}

/// The tag that payout notes are created with.
pub const PAYOUT_TAG: u64 = 0;

/// An output note paying `asset` to `recipient`, with its type and tag.
#[derive(Clone, Copy, Debug, PartialEq, Eq, Structural)]
pub struct PayoutNote {
    pub serial: Word,
    pub script_root: Word,
    pub recipient: AccountIdParts,
    pub asset: FungibleAsset,
    pub note_type: NoteType,
    pub tag: u64,
}

/// The house as a mathematical value: its id, the script root of the P2ID
/// notes it pays out with, its storage and its vault.
#[verifier::ext_equal]
pub struct HouseView {
    pub id: AccountIdParts,
    pub p2id_root: Word,
    pub bets: Map<Word, u64>,
    pub vault: Map<Word, u64>,
}

impl HouseView {
    /// Every key of the storage and of the vault has a value (zero until written).
    pub open spec fn wf(self) -> bool {
        &&& forall|k: Word| #[trigger] self.bets.dom().contains(k)
        &&& forall|k: Word| #[trigger] self.vault.dom().contains(k)
    }

    /// A fresh house: nothing stored, nothing held.
    pub open spec fn empty(id: AccountIdParts, p2id_root: Word) -> HouseView {
        HouseView { id, p2id_root, bets: zero_map(), vault: zero_map() }
    }

    pub open spec fn bet_field(self, round_id: u64, player_num: u64, field: u64) -> u64 {
        self.bets[player_key(round_id, player_num, field)]
    }

    pub open spec fn settled_flag(self, round_id: u64) -> u64 {
        self.bets[settled_key(round_id)]
    }

    pub open spec fn balance(self, faucet: AccountIdParts) -> u64 {
        self.vault[vault_key(faucet)]
    }

    pub open spec fn with_bet(self, k: Word, v: u64) -> HouseView {
        HouseView { bets: self.bets.insert(k, v), ..self }
    }

    pub open spec fn with_balance(self, faucet: AccountIdParts, v: u64) -> HouseView {
        HouseView { vault: self.vault.insert(vault_key(faucet), v), ..self }
    }

    /// Stores fingers, guess, the registered mark and the faucet of a player's bet.
    pub open spec fn store_bet(self, round_id: u64, player_num: u64, h: u64, g: u64, fs: u64, fp: u64) -> HouseView {
        self.with_bet(player_key(round_id, player_num, FIELD_H), h)
            .with_bet(player_key(round_id, player_num, FIELD_G), g)
            .with_bet(player_key(round_id, player_num, FIELD_REGISTERED), 1)
            .with_bet(player_key(round_id, player_num, FIELD_FAUCET_SUFFIX), fs)
            .with_bet(player_key(round_id, player_num, FIELD_FAUCET_PREFIX), fp)
    }

    /// Stores the stake and the player commitment of a player's bet.
    pub open spec fn store_round_params(self, round_id: u64, player_num: u64, bet_value: u64, xs: u64, xp: u64) -> HouseView {
        self.with_bet(player_key(round_id, player_num, FIELD_BET_VALUE), bet_value)
            .with_bet(player_key(round_id, player_num, FIELD_ID_XOR_S), xs)
            .with_bet(player_key(round_id, player_num, FIELD_ID_XOR_P), xp)
    }

    /// Zeroes the first `n` fields of a player's bet.
    pub open spec fn clear_fields(self, round_id: u64, player_num: u64, n: nat) -> HouseView
        decreases n,
    {
        if n == 0 {
            self
        } else {
            self.clear_fields(round_id, player_num, (n - 1) as nat).with_bet(
                player_key(round_id, player_num, (n - 1) as u64),
                0,
            )
        }
    }

    /// Zeroes all eight fields of a player's bet; the settled flag stays.
    pub open spec fn clear_player(self, round_id: u64, player_num: u64) -> HouseView {
        self.clear_fields(round_id, player_num, PLAYER_FIELDS as nat)
    }

    pub open spec fn mark_settled(self, round_id: u64) -> HouseView {
        self.with_bet(settled_key(round_id), 1)
    }

    /// Adds an asset to the vault; refused when the balance would pass the maximum amount.
    pub open spec fn receive(self, asset: FungibleAsset) -> Result<HouseView, NoteError> {
        if self.balance(asset.faucet) + asset.amount > MAX_FUNGIBLE_AMOUNT {
            Err(NoteError::VaultOverflow)
        } else {
            Ok(self.with_balance(asset.faucet, (self.balance(asset.faucet) + asset.amount) as u64))
        }
    }

    /// Takes `amount` of a faucet's token out of the vault into a new private
    /// P2ID payout note with tag 0.
    pub open spec fn payout(
        self,
        serial: Word,
        amount: u64,
        faucet: AccountIdParts,
        recipient: AccountIdParts,
    ) -> Result<(HouseView, PayoutNote), NoteError> {
        if amount > MAX_FUNGIBLE_AMOUNT {
            Err(NoteError::InvalidAsset)
        } else if self.balance(faucet) < amount {
            Err(NoteError::InsufficientFunds)
        } else {
            Ok((
                self.with_balance(faucet, (self.balance(faucet) - amount) as u64),
                PayoutNote {
                    serial,
                    script_root: self.p2id_root,
                    recipient,
                    asset: FungibleAsset { faucet, amount },
                    note_type: NoteType::Private,
                    tag: PAYOUT_TAG,
                },
            ))
        }
    }
}

/// A call of one of the house account's methods that change it, with its
/// arguments (the reading methods change nothing).
#[derive(Clone, Copy, Debug, PartialEq, Eq, Structural)]
pub enum HouseCall {
    StorePlayerBet { round_id: u64, player_num: u64, h: u64, g: u64, faucet_suffix: u64, faucet_prefix: u64 },
    StorePlayerRoundParams { round_id: u64, player_num: u64, bet_value: u64, player_id_xor_s: u64, player_id_xor_p: u64 },
    ClearPlayerBet { round_id: u64, player_num: u64 },
    MarkRoundSettled { round_id: u64 },
    ReceiveAsset { amount: u64, a1: u64, faucet_suffix: u64, faucet_prefix: u64 },
    CreatePayoutNote {
        s0: u64,
        s1: u64,
        s2: u64,
        s3: u64,
        amount: u64,
        faucet_suffix: u64,
        faucet_prefix: u64,
        recipient_suffix: u64,
        recipient_prefix: u64,
    },
}

impl HouseView {
    /// The house after one call, as that method's contract states it; a call
    /// that fails leaves the house as it was.
    pub open spec fn after_call(self, c: HouseCall) -> HouseView {
        match c {
            HouseCall::StorePlayerBet { round_id, player_num, h, g, faucet_suffix, faucet_prefix } =>
                self.store_bet(round_id, player_num, h, g, faucet_suffix, faucet_prefix),
            HouseCall::StorePlayerRoundParams { round_id, player_num, bet_value, player_id_xor_s, player_id_xor_p } =>
                self.store_round_params(round_id, player_num, bet_value, player_id_xor_s, player_id_xor_p),
            HouseCall::ClearPlayerBet { round_id, player_num } => self.clear_player(round_id, player_num),
            HouseCall::MarkRoundSettled { round_id } => self.mark_settled(round_id),
            HouseCall::ReceiveAsset { amount, a1, faucet_suffix, faucet_prefix } =>
                match self.receive(FungibleAsset { faucet: AccountIdParts { suffix: faucet_suffix, prefix: faucet_prefix }, amount }) {
                    Ok(v) => v,
                    Err(_) => self,
                },
            HouseCall::CreatePayoutNote {
                s0, s1, s2, s3, amount, faucet_suffix, faucet_prefix, recipient_suffix, recipient_prefix,
            } => match self.payout(
                Word { w0: s0, w1: s1, w2: s2, w3: s3 },
                amount,
                AccountIdParts { suffix: faucet_suffix, prefix: faucet_prefix },
                AccountIdParts { suffix: recipient_suffix, prefix: recipient_prefix },
            ) {
                Ok((v, _)) => v,
                Err(_) => self,
            },
        }
    }
}

/// The house after a sequence of calls, made in order.
pub open spec fn after_calls(h: HouseView, calls: Seq<HouseCall>) -> HouseView
    decreases calls.len(),
{
    if calls.len() == 0 {
        h
    } else {
        after_calls(h, calls.drop_last()).after_call(calls.last())
    }
}

/// Two keys of bet fields are equal exactly when round, seat and field are;
/// a bet field's key is a round's settled-flag key only for seat 0 and field 99.
pub proof fn law_storage_keys_distinct(r: u64, pn: u64, f: u64, r2: u64, pn2: u64, f2: u64)
    ensures
        (player_key(r, pn, f) == player_key(r2, pn2, f2)) == (r == r2 && pn == pn2 && f == f2),
        (player_key(r, pn, f) == settled_key(r2)) == (r == r2 && pn == 0 && f == SETTLED_FIELD),
        (settled_key(r) == settled_key(r2)) == (r == r2),
{
}

/// Writing storage keeps every key valued.
pub broadcast proof fn lemma_with_bet_wf(h: HouseView, k: Word, v: u64)
    requires
        h.wf(),
    ensures
        #[trigger] h.with_bet(k, v).wf(),
{
    assert forall|q: Word| #[trigger] h.with_bet(k, v).bets.dom().contains(q) && h.with_bet(k, v).vault.dom().contains(q) by {
        assert(h.bets.dom().contains(q) && h.vault.dom().contains(q));
    }
}

/// Changing a balance keeps every key valued.
pub broadcast proof fn lemma_with_balance_wf(h: HouseView, faucet: AccountIdParts, v: u64)
    requires
        h.wf(),
    ensures
        #[trigger] h.with_balance(faucet, v).wf(),
{
    assert forall|q: Word| #[trigger] h.with_balance(faucet, v).bets.dom().contains(q) && h.with_balance(faucet, v).vault.dom().contains(q) by {
        assert(h.bets.dom().contains(q) && h.vault.dom().contains(q));
    }
}

/// The house account component.
pub struct HouseAccount {
    id: AccountIdParts,
    p2id_root: Word,
    bets: WordMap,
    vault: WordMap,
}

impl View for HouseAccount {
    type V = HouseView;

    closed spec fn view(&self) -> HouseView {
        HouseView { id: self.id, p2id_root: self.p2id_root, bets: self.bets@, vault: self.vault@ }
    }
}

impl HouseAccount {
    /// The view of every house account has values at every key.
    pub proof fn lemma_wf(&self)
        ensures
            self@.wf(),
    {
        self.bets.lemma_total();
        self.vault.lemma_total();
    }

    /// A house account with empty storage and an empty vault, paying out
    /// with notes of the P2ID script whose root is `p2id_root`.
    pub fn new(id: AccountIdParts, p2id_root: Word) -> (r: HouseAccount)
        ensures
            r@ == HouseView::empty(id, p2id_root),
    {
        HouseAccount { id, p2id_root, bets: WordMap::new(), vault: WordMap::new() }
    }

    /// The account's identifier.
    pub fn id(&self) -> (r: AccountIdParts)
        ensures
            r == self@.id,
    {
        self.id
    }

    /// A copy of the account with the same storage and vault.
    pub fn duplicate(&self) -> (r: HouseAccount)
        ensures
            r@ == self@,
    {
        HouseAccount { id: self.id, p2id_root: self.p2id_root, bets: self.bets.duplicate(), vault: self.vault.duplicate() }
    }

    fn player_key(round_id: u64, player_num: u64, field: u64) -> (r: Word)
        ensures
            r == player_key(round_id, player_num, field),
    {
        Word::new(round_id, player_num, field, 0)
    }

    fn settled_key(round_id: u64) -> (r: Word)
        ensures
            r == settled_key(round_id),
    {
        Word::new(round_id, 0, SETTLED_FIELD, 0)
    }

    fn vault_key(faucet: AccountIdParts) -> (r: Word)
        ensures
            r == vault_key(faucet),
    {
        Word::new(faucet.suffix, faucet.prefix, 0, 0)
    }

    /// The script root of the P2ID notes this house pays out with.
    fn p2id_note_root(&self) -> (r: Word)
        ensures
            r == self@.p2id_root,
    {
        self.p2id_root
    }

    fn set_bet(&mut self, k: Word, v: u64)
        ensures
            final(self)@ == old(self)@.with_bet(k, v),
    {
        self.bets.set(k, v);
        assert(self@ =~= old(self)@.with_bet(k, v));
    }

    fn set_balance(&mut self, faucet: AccountIdParts, v: u64)
        ensures
            final(self)@ == old(self)@.with_balance(faucet, v),
    {
        self.vault.set(Self::vault_key(faucet), v);
        assert(self@ =~= old(self)@.with_balance(faucet, v));
    }

    /// Stores h, g, registered = 1 and the faucet of a player's bet.
    pub fn store_player_bet(
        &mut self,
        round_id: u64,
        player_num: u64,
        h: u64,
        g: u64,
        faucet_suffix: u64,
        faucet_prefix: u64,
    )
        ensures
            final(self)@ == old(self)@.store_bet(round_id, player_num, h, g, faucet_suffix, faucet_prefix),
    {
        self.set_bet(Self::player_key(round_id, player_num, FIELD_H), h);
        self.set_bet(Self::player_key(round_id, player_num, FIELD_G), g);
        self.set_bet(Self::player_key(round_id, player_num, FIELD_REGISTERED), 1);
        self.set_bet(Self::player_key(round_id, player_num, FIELD_FAUCET_SUFFIX), faucet_suffix);
        self.set_bet(Self::player_key(round_id, player_num, FIELD_FAUCET_PREFIX), faucet_prefix);
    }

    /// Stores the stake and the player-id XOR commitment of a player's bet.
    pub fn store_player_round_params(
        &mut self,
        round_id: u64,
        player_num: u64,
        bet_value: u64,
        player_id_xor_s: u64,
        player_id_xor_p: u64,
    )
        ensures
            final(self)@ == old(self)@.store_round_params(round_id, player_num, bet_value, player_id_xor_s, player_id_xor_p),
    {
        self.set_bet(Self::player_key(round_id, player_num, FIELD_BET_VALUE), bet_value);
        self.set_bet(Self::player_key(round_id, player_num, FIELD_ID_XOR_S), player_id_xor_s);
        self.set_bet(Self::player_key(round_id, player_num, FIELD_ID_XOR_P), player_id_xor_p);
    }

    /// Zeroes all eight fields of a player's bet; the settled flag is kept.
    pub fn clear_player_bet(&mut self, round_id: u64, player_num: u64)
        ensures
            final(self)@ == old(self)@.clear_player(round_id, player_num),
    {
        let mut field: u64 = 0;
        while field < PLAYER_FIELDS
            invariant
                field <= PLAYER_FIELDS,
                self@ == old(self)@.clear_fields(round_id, player_num, field as nat),
            decreases PLAYER_FIELDS - field,
        {
            self.set_bet(Self::player_key(round_id, player_num, field), 0);
            field = field + 1;
        }
    }

    /// Marks a round settled for good.
    pub fn mark_round_settled(&mut self, round_id: u64)
        ensures
            final(self)@ == old(self)@.mark_settled(round_id),
    {
        self.set_bet(Self::settled_key(round_id), 1);
    }

    /// 1 when the player's bet of this round is stored, 0 otherwise.
    pub fn is_player_registered(&self, round_id: u64, player_num: u64) -> (r: u64)
        ensures
            r == self@.bet_field(round_id, player_num, FIELD_REGISTERED),
    {
        self.bets.get(&Self::player_key(round_id, player_num, FIELD_REGISTERED))
    }

    /// The stored fingers of a player.
    pub fn get_player_h(&self, round_id: u64, player_num: u64) -> (r: u64)
        ensures
            r == self@.bet_field(round_id, player_num, FIELD_H),
    {
        self.bets.get(&Self::player_key(round_id, player_num, FIELD_H))
    }

    /// The stored guess of a player.
    pub fn get_player_g(&self, round_id: u64, player_num: u64) -> (r: u64)
        ensures
            r == self@.bet_field(round_id, player_num, FIELD_G),
    {
        self.bets.get(&Self::player_key(round_id, player_num, FIELD_G))
    }

    /// The stored faucet suffix of a player's stake.
    pub fn get_player_faucet_suffix(&self, round_id: u64, player_num: u64) -> (r: u64)
        ensures
            r == self@.bet_field(round_id, player_num, FIELD_FAUCET_SUFFIX),
    {
        self.bets.get(&Self::player_key(round_id, player_num, FIELD_FAUCET_SUFFIX))
    }

    /// The stored faucet prefix of a player's stake.
    pub fn get_player_faucet_prefix(&self, round_id: u64, player_num: u64) -> (r: u64)
        ensures
            r == self@.bet_field(round_id, player_num, FIELD_FAUCET_PREFIX),
    {
        self.bets.get(&Self::player_key(round_id, player_num, FIELD_FAUCET_PREFIX))
    }

    /// The stored stake of a player.
    pub fn get_player_bet_value(&self, round_id: u64, player_num: u64) -> (r: u64)
        ensures
            r == self@.bet_field(round_id, player_num, FIELD_BET_VALUE),
    {
        self.bets.get(&Self::player_key(round_id, player_num, FIELD_BET_VALUE))
    }

    /// The stored suffix commitment of a player.
    pub fn get_player_id_xor_s(&self, round_id: u64, player_num: u64) -> (r: u64)
        ensures
            r == self@.bet_field(round_id, player_num, FIELD_ID_XOR_S),
    {
        self.bets.get(&Self::player_key(round_id, player_num, FIELD_ID_XOR_S))
    }

    /// The stored prefix commitment of a player.
    pub fn get_player_id_xor_p(&self, round_id: u64, player_num: u64) -> (r: u64)
        ensures
            r == self@.bet_field(round_id, player_num, FIELD_ID_XOR_P),
    {
        self.bets.get(&Self::player_key(round_id, player_num, FIELD_ID_XOR_P))
    }

    /// 1 once the round is settled, 0 while it is open.
    pub fn is_round_settled(&self, round_id: u64) -> (r: u64)
        ensures
            r == self@.settled_flag(round_id),
    {
        self.bets.get(&Self::settled_key(round_id))
    }

    /// How much of a faucet's token the vault holds.
    pub fn vault_balance(&self, faucet: AccountIdParts) -> (r: u64)
        ensures
            r == self@.balance(faucet),
    {
        self.vault.get(&Self::vault_key(faucet))
    }

    /// Moves the asset `[amount, _, faucet_suffix, faucet_prefix]` into the vault.
    pub fn receive_asset(&mut self, amount: u64, a1: u64, faucet_suffix: u64, faucet_prefix: u64) -> (r: Result<(), NoteError>)
        ensures
            ({
                let asset = FungibleAsset { faucet: AccountIdParts { suffix: faucet_suffix, prefix: faucet_prefix }, amount };
                match old(self)@.receive(asset) {
                    Ok(v) => r is Ok && final(self)@ == v,
                    Err(e) => r == Err::<(), NoteError>(e) && final(self)@ == old(self)@,
                }
            }),
    {
        let faucet = AccountIdParts { suffix: faucet_suffix, prefix: faucet_prefix };
        let balance = self.vault_balance(faucet);
        if balance > MAX_FUNGIBLE_AMOUNT || amount > MAX_FUNGIBLE_AMOUNT - balance {
            return Err(NoteError::VaultOverflow);
        }
        self.set_balance(faucet, balance + amount);
        Ok(())
    }

    /// Creates a private payout note with serial `[s0, s1, s2, s3]` paying
    /// `amount` of the faucet's token to the recipient, and takes that amount
    /// out of the vault.
    pub fn create_payout_note(
        &mut self,
        s0: u64,
        s1: u64,
        s2: u64,
        s3: u64,
        amount: u64,
        faucet_suffix: u64,
        faucet_prefix: u64,
        recipient_suffix: u64,
        recipient_prefix: u64,
    ) -> (r: Result<PayoutNote, NoteError>)
        ensures
            match old(self)@.payout(
                Word { w0: s0, w1: s1, w2: s2, w3: s3 },
                amount,
                AccountIdParts { suffix: faucet_suffix, prefix: faucet_prefix },
                AccountIdParts { suffix: recipient_suffix, prefix: recipient_prefix },
            ) {
                Ok((v, n)) => r == Ok::<PayoutNote, NoteError>(n) && final(self)@ == v,
                Err(e) => r == Err::<PayoutNote, NoteError>(e) && final(self)@ == old(self)@,
            },
            r matches Ok(n) ==> n.script_root == old(self)@.p2id_root && n.note_type == NoteType::Private
                && n.tag == PAYOUT_TAG,
    {
        let serial_num = Word::new(s0, s1, s2, s3);
        let script_root = self.p2id_note_root();
        let faucet = AccountIdParts { suffix: faucet_suffix, prefix: faucet_prefix };
        let recipient = AccountIdParts { suffix: recipient_suffix, prefix: recipient_prefix };
        if amount > MAX_FUNGIBLE_AMOUNT {
            return Err(NoteError::InvalidAsset);
        }
        let balance = self.vault_balance(faucet);
        if balance < amount {
            return Err(NoteError::InsufficientFunds);
        }
        self.set_balance(faucet, balance - amount);
        Ok(PayoutNote {
            serial: serial_num,
            script_root,
            recipient,
            asset: FungibleAsset { faucet, amount },
            note_type: NoteType::Private,
            tag: PAYOUT_TAG,
        })
    }
}

/// After a field of a bet is written, reading it gives the written value, and
/// every other field and the vault are as before.
pub proof fn law_storage_read_after_write(h: HouseView, k: Word, v: u64, q: Word)
    ensures
        h.with_bet(k, v).bets[k] == v,
        q != k ==> h.with_bet(k, v).bets[q] == h.bets[q],
        h.with_bet(k, v).vault == h.vault,
{
}

} // verus!
