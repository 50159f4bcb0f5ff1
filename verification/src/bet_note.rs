//! The bet note: what consuming it does to the house, and the transaction
//! that consumes several notes at once.
use vstd::prelude::*;
use crate::asset::{AccountIdParts, FungibleAsset, MAX_FUNGIBLE_AMOUNT, same_account};
use crate::error::NoteError;
use crate::felt::Word;
use crate::house::{vault_key, HouseAccount, HouseView, PayoutNote, FIELD_H, FIELD_G, FIELD_REGISTERED, FIELD_FAUCET_SUFFIX, FIELD_FAUCET_PREFIX, FIELD_BET_VALUE, FIELD_ID_XOR_S, FIELD_ID_XOR_P};
use crate::inputs::{BetInputs, bet_inputs_of, read_bet_inputs};
use crate::rules::{MAX_FINGERS, MAX_GUESS, Outcome, outcome_of, round_outcome, winner_payout, draw_payout, payout_schedule};
use crate::storage::{WordMap, zero_map};

verus! {

/// Second serial element of a refund note.
pub const REFUND_TAG: u64 = 3;

/// A bet note: its inputs and the assets it carries.
pub struct BetNote {
    pub inputs: Vec<u64>,
    pub assets: Vec<FungibleAsset>,
}

/// A bet note as a mathematical value.
pub struct BetNoteView {
    pub inputs: Seq<u64>,
    pub assets: Seq<FungibleAsset>,
}

impl View for BetNote {
    type V = BetNoteView;

    open spec fn view(&self) -> BetNoteView {
        BetNoteView { inputs: self.inputs@, assets: self.assets@ }
    }
}

/// The checks every consumption starts with: twelve inputs, a seat of 1 or 2,
/// at most three fingers, a guess of at most six, and exactly one asset whose
/// amount is the stake.
pub open spec fn checked_bet(n: BetNoteView) -> Result<(BetInputs, FungibleAsset), NoteError> {
    if n.inputs.len() < 12 {
        Err(NoteError::MalformedInputs)
    } else {
        let b = bet_inputs_of(n.inputs);
        if !(b.player_num == 1 || b.player_num == 2) {
            Err(NoteError::InvalidPlayerNum)
        } else if b.h > MAX_FINGERS {
            Err(NoteError::InvalidFingers)
        } else if b.g > MAX_GUESS {
            Err(NoteError::InvalidGuess)
        } else if n.assets.len() != 1 {
            Err(NoteError::WrongAssetCount)
        } else if n.assets[0].amount != b.bet_value {
            Err(NoteError::WrongBetAmount)
        } else {
            Ok((b, n.assets[0]))
        }
    }
}

/// The account of the note's own player.
pub open spec fn own_id(b: BetInputs) -> AccountIdParts {
    if b.player_num == 1 { b.player1 } else { b.player2 }
}

/// The seat of the other player.
pub open spec fn opponent(player_num: u64) -> u64 {
    if player_num == 1 { 2 } else { 1 }
}

/// The XOR of both players' id suffixes, binding the two notes of a round.
pub open spec fn id_xor_s(b: BetInputs) -> u64 {
    b.player1.suffix ^ b.player2.suffix
}

/// The XOR of both players' id prefixes.
pub open spec fn id_xor_p(b: BetInputs) -> u64 {
    b.player1.prefix ^ b.player2.prefix
}

/// Serial `[round_id, tag, 0, 0]` of a note that the round pays out.
pub open spec fn payout_serial(round_id: u64, tag: u64) -> Word {
    Word { w0: round_id, w1: tag, w2: 0, w3: 0 }
}

/// After expiry the house returns the stake to the note's own player.
pub open spec fn refund_spec(h: HouseView, b: BetInputs, asset: FungibleAsset) -> Result<(HouseView, Seq<PayoutNote>), NoteError> {
    match h.payout(payout_serial(b.round_id, REFUND_TAG), b.bet_value, asset.faucet, own_id(b)) {
        Ok((h1, n)) => Ok((h1, seq![n])),
        Err(e) => Err(e),
    }
}

/// The first note of a round stores its player's bet.
pub open spec fn register_spec(h: HouseView, b: BetInputs, asset: FungibleAsset) -> HouseView {
    h.store_bet(b.round_id, b.player_num, b.h, b.g, asset.faucet.suffix, asset.faucet.prefix)
        .store_round_params(b.round_id, b.player_num, b.bet_value, id_xor_s(b), id_xor_p(b))
}

/// The payout notes of an outcome: the whole winner payout to a sole winner,
/// or half of it to each player on a draw.
pub open spec fn pay_outcome_spec(h: HouseView, o: Outcome, b: BetInputs, faucet: AccountIdParts) -> Result<(HouseView, Seq<PayoutNote>), NoteError> {
    let w = winner_payout(b.bet_value as int) as u64;
    let d = draw_payout(b.bet_value as int) as u64;
    match o {
        Outcome::Player1Wins => match h.payout(payout_serial(b.round_id, 1), w, faucet, b.player1) {
            Ok((h1, n)) => Ok((h1, seq![n])),
            Err(e) => Err(e),
        },
        Outcome::Player2Wins => match h.payout(payout_serial(b.round_id, 2), w, faucet, b.player2) {
            Ok((h1, n)) => Ok((h1, seq![n])),
            Err(e) => Err(e),
        },
        Outcome::Draw => match h.payout(payout_serial(b.round_id, 1), d, faucet, b.player1) {
            Err(e) => Err(e),
            Ok((h1, n1)) => match h1.payout(payout_serial(b.round_id, 2), d, faucet, b.player2) {
                Err(e) => Err(e),
                Ok((h2, n2)) => Ok((h2, seq![n1, n2])),
            },
        },
    }
}

/// The outcome of a round, from the stored bet of the opponent and this note's bet.
pub open spec fn round_outcome_of(h: HouseView, b: BetInputs) -> Outcome {
    let opp = opponent(b.player_num);
    let oh = h.bet_field(b.round_id, opp, FIELD_H);
    let og = h.bet_field(b.round_id, opp, FIELD_G);
    if b.player_num == 1 {
        outcome_of(b.h, b.g, oh, og)
    } else {
        outcome_of(oh, og, b.h, b.g)
    }
}

/// The second note of a round checks that the stored bet names the same
/// faucet, stake and players, pays the outcome, marks the round settled and
/// clears the opponent's stored bet.
pub open spec fn resolve_spec(h: HouseView, b: BetInputs, asset: FungibleAsset) -> Result<(HouseView, Seq<PayoutNote>), NoteError> {
    let opp = opponent(b.player_num);
    if asset.faucet.suffix != h.bet_field(b.round_id, opp, FIELD_FAUCET_SUFFIX)
        || asset.faucet.prefix != h.bet_field(b.round_id, opp, FIELD_FAUCET_PREFIX) {
        Err(NoteError::FaucetMismatch)
    } else if b.bet_value != h.bet_field(b.round_id, opp, FIELD_BET_VALUE) {
        Err(NoteError::BetValueMismatch)
    } else if id_xor_s(b) != h.bet_field(b.round_id, opp, FIELD_ID_XOR_S)
        || id_xor_p(b) != h.bet_field(b.round_id, opp, FIELD_ID_XOR_P) {
        Err(NoteError::CommitmentMismatch)
    } else {
        match pay_outcome_spec(h, round_outcome_of(h, b), b, asset.faucet) {
            Err(e) => Err(e),
            Ok((h1, notes)) => Ok((h1.mark_settled(b.round_id).clear_player(b.round_id, opp), notes)),
        }
    }
}

/// Settlement before expiry: refused once the round is settled; otherwise the
/// note registers its bet, or resolves the round when the opponent's bet is stored.
pub open spec fn settle_spec(h: HouseView, b: BetInputs, asset: FungibleAsset) -> Result<(HouseView, Seq<PayoutNote>), NoteError> {
    if h.settled_flag(b.round_id) != 0 {
        Err(NoteError::RoundSettled)
    } else if h.bet_field(b.round_id, opponent(b.player_num), FIELD_REGISTERED) == 0 {
        Ok((register_spec(h, b, asset), Seq::empty()))
    } else {
        resolve_spec(h, b, asset)
    }
}

/// What the house's consumption of a note does: after the common checks, only
/// the house named in the note may consume it; the stake enters the vault;
/// after the expiry block it is refunded, before it the round is settled.
pub open spec fn consume_by_house(h: HouseView, n: BetNoteView, block: u64) -> Result<(HouseView, Seq<PayoutNote>), NoteError> {
    match checked_bet(n) {
        Err(e) => Err(e),
        Ok((b, asset)) => if h.id != b.house {
            Err(NoteError::Unauthorized)
        } else {
            match h.receive(asset) {
                Err(e) => Err(e),
                Ok(h1) => if block > b.expiry_block {
                    refund_spec(h1, b, asset)
                } else {
                    settle_spec(h1, b, asset)
                },
            }
        },
    }
}

/// A transaction of the house that consumes `notes` in order: it fails as a
/// whole at the first note that fails, and otherwise yields every note's payouts.
pub open spec fn house_tx(h: HouseView, notes: Seq<BetNoteView>, block: u64) -> Result<(HouseView, Seq<PayoutNote>), NoteError>
    decreases notes.len(),
{
    if notes.len() == 0 {
        Ok((h, Seq::empty()))
    } else {
        match house_tx(h, notes.drop_last(), block) {
            Err(e) => Err(e),
            Ok((h1, o1)) => match consume_by_house(h1, notes.last(), block) {
                Err(e) => Err(e),
                Ok((h2, o2)) => Ok((h2, o1 + o2)),
            },
        }
    }
}

/// The outcome of a computation on a `&mut` account, against its specification.
pub open spec fn house_result_matches(
    spec_result: Result<(HouseView, Seq<PayoutNote>), NoteError>,
    r: Result<Vec<PayoutNote>, NoteError>,
    after: HouseView,
) -> bool {
    match spec_result {
        Ok((v, outs)) => r matches Ok(notes) && notes@ == outs && after == v,
        Err(e) => r == Err::<Vec<PayoutNote>, NoteError>(e),
    }
}

fn single(n: PayoutNote) -> (r: Vec<PayoutNote>)
    ensures
        r@ == seq![n],
{
    let mut v: Vec<PayoutNote> = Vec::new();
    v.push(n);
    assert(v@ =~= seq![n]);
    v
}

fn refund(house: &mut HouseAccount, b: &BetInputs, asset: &FungibleAsset) -> (r: Result<Vec<PayoutNote>, NoteError>)
    ensures
        house_result_matches(refund_spec(old(house)@, *b, *asset), r, final(house)@),
{
    let (my_suffix, my_prefix) = if b.player_num == 1 {
        (b.player1.suffix, b.player1.prefix)
    } else {
        (b.player2.suffix, b.player2.prefix)
    };
    match house.create_payout_note(
        b.round_id, REFUND_TAG, 0, 0,
        b.bet_value,
        asset.faucet.suffix, asset.faucet.prefix,
        my_suffix, my_prefix,
    ) {
        Ok(n) => Ok(single(n)),
        Err(e) => Err(e),
    }
}

fn pay_outcome(house: &mut HouseAccount, o: Outcome, b: &BetInputs, faucet: AccountIdParts) -> (r: Result<Vec<PayoutNote>, NoteError>)
    requires
        b.bet_value <= MAX_FUNGIBLE_AMOUNT,
    ensures
        house_result_matches(pay_outcome_spec(old(house)@, o, *b, faucet), r, final(house)@),
{
    let schedule = payout_schedule(b.bet_value);
    let s0 = b.round_id;
    match o {
        Outcome::Player1Wins => {
            match house.create_payout_note(
                s0, 1, 0, 0, schedule.winner_payout,
                faucet.suffix, faucet.prefix, b.player1.suffix, b.player1.prefix,
            ) {
                Ok(n) => Ok(single(n)),
                Err(e) => Err(e),
            }
        },
        Outcome::Player2Wins => {
            match house.create_payout_note(
                s0, 2, 0, 0, schedule.winner_payout,
                faucet.suffix, faucet.prefix, b.player2.suffix, b.player2.prefix,
            ) {
                Ok(n) => Ok(single(n)),
                Err(e) => Err(e),
            }
        },
        Outcome::Draw => {
            let n1 = match house.create_payout_note(
                s0, 1, 0, 0, schedule.draw_payout,
                faucet.suffix, faucet.prefix, b.player1.suffix, b.player1.prefix,
            ) {
                Ok(n) => n,
                Err(e) => return Err(e),
            };
            let n2 = match house.create_payout_note(
                s0, 2, 0, 0, schedule.draw_payout,
                faucet.suffix, faucet.prefix, b.player2.suffix, b.player2.prefix,
            ) {
                Ok(n) => n,
                Err(e) => return Err(e),
            };
            let mut v = single(n1);
            v.push(n2);
            assert(v@ =~= seq![n1, n2]);
            Ok(v)
        },
    }
}

fn resolve(house: &mut HouseAccount, b: &BetInputs, asset: &FungibleAsset) -> (r: Result<Vec<PayoutNote>, NoteError>)
    requires
        b.bet_value <= MAX_FUNGIBLE_AMOUNT,
        b.player_num == 1 || b.player_num == 2,
    ensures
        house_result_matches(resolve_spec(old(house)@, *b, *asset), r, final(house)@),
{
    let round_id = b.round_id;
    let opp_num: u64 = if b.player_num == 1 { 2 } else { 1 };
    let stored_faucet_s = house.get_player_faucet_suffix(round_id, opp_num);
    let stored_faucet_p = house.get_player_faucet_prefix(round_id, opp_num);
    if asset.faucet.suffix != stored_faucet_s || asset.faucet.prefix != stored_faucet_p {
        return Err(NoteError::FaucetMismatch);
    }
    let stored_bv = house.get_player_bet_value(round_id, opp_num);
    if b.bet_value != stored_bv {
        return Err(NoteError::BetValueMismatch);
    }
    let id_xor_s = b.player1.suffix ^ b.player2.suffix;
    let id_xor_p = b.player1.prefix ^ b.player2.prefix;
    let stored_xor_s = house.get_player_id_xor_s(round_id, opp_num);
    let stored_xor_p = house.get_player_id_xor_p(round_id, opp_num);
    if id_xor_s != stored_xor_s || id_xor_p != stored_xor_p {
        return Err(NoteError::CommitmentMismatch);
    }
    let opp_h = house.get_player_h(round_id, opp_num);
    let opp_g = house.get_player_g(round_id, opp_num);
    let (h1, g1, h2, g2) = if b.player_num == 1 {
        (b.h, b.g, opp_h, opp_g)
    } else {
        (opp_h, opp_g, b.h, b.g)
    };
    let outcome = round_outcome(h1, g1, h2, g2);
    let notes = match pay_outcome(house, outcome, b, asset.faucet) {
        Ok(notes) => notes,
        Err(e) => return Err(e),
    };
    house.mark_round_settled(round_id);
    house.clear_player_bet(round_id, opp_num);
    Ok(notes)
}

fn settle(house: &mut HouseAccount, b: &BetInputs, asset: &FungibleAsset) -> (r: Result<Vec<PayoutNote>, NoteError>)
    requires
        b.bet_value <= MAX_FUNGIBLE_AMOUNT,
        b.player_num == 1 || b.player_num == 2,
    ensures
        house_result_matches(settle_spec(old(house)@, *b, *asset), r, final(house)@),
{
    let round_id = b.round_id;
    if house.is_round_settled(round_id) != 0 {
        return Err(NoteError::RoundSettled);
    }
    let opp_num: u64 = if b.player_num == 1 { 2 } else { 1 };
    let opp_registered = house.is_player_registered(round_id, opp_num);
    if opp_registered == 0 {
        house.store_player_bet(round_id, b.player_num, b.h, b.g, asset.faucet.suffix, asset.faucet.prefix);
        house.store_player_round_params(
            round_id, b.player_num, b.bet_value,
            b.player1.suffix ^ b.player2.suffix,
            b.player1.prefix ^ b.player2.prefix,
        );
        let v: Vec<PayoutNote> = Vec::new();
        assert(v@ =~= Seq::<PayoutNote>::empty());
        Ok(v)
    } else {
        resolve(house, b, asset)
    }
}

impl BetNote {
    /// A bet note with the given inputs and assets.
    pub fn new(inputs: Vec<u64>, assets: Vec<FungibleAsset>) -> (r: BetNote)
        ensures
            r@ == (BetNoteView { inputs: inputs@, assets: assets@ }),
    {
        BetNote { inputs, assets }
    }

    /// The common checks; the named inputs and the staked asset when they pass.
    pub fn check_bet(&self) -> (r: Result<(BetInputs, FungibleAsset), NoteError>)
        ensures
            r == checked_bet(self@),
    {
        let b = match read_bet_inputs(self.inputs.as_slice()) {
            Some(b) => b,
            None => return Err(NoteError::MalformedInputs),
        };
        if !(b.player_num == 1 || b.player_num == 2) {
            return Err(NoteError::InvalidPlayerNum);
        }
        if b.h > MAX_FINGERS {
            return Err(NoteError::InvalidFingers);
        }
        if b.g > MAX_GUESS {
            return Err(NoteError::InvalidGuess);
        }
        if self.assets.len() != 1 {
            return Err(NoteError::WrongAssetCount);
        }
        let asset = self.assets[0];
        if asset.amount != b.bet_value {
            return Err(NoteError::WrongBetAmount);
        }
        Ok((b, asset))
    }

    fn run_on(&self, house: &mut HouseAccount, block: u64) -> (r: Result<Vec<PayoutNote>, NoteError>)
        ensures
            house_result_matches(consume_by_house(old(house)@, self@, block), r, final(house)@),
    {
        let (b, asset) = match self.check_bet() {
            Ok(x) => x,
            Err(e) => return Err(e),
        };
        let id = house.id();
        if !same_account(&id, &b.house) {
            return Err(NoteError::Unauthorized);
        }
        let a = asset.to_word();
        match house.receive_asset(a.w0, a.w1, a.w2, a.w3) {
            Ok(()) => {},
            Err(e) => return Err(e),
        }
        if block > b.expiry_block {
            refund(house, &b, &asset)
        } else {
            settle(house, &b, &asset)
        }
    }

    /// The house consumes this note at block `block`; on failure the house is unchanged.
    pub fn run(&self, house: &mut HouseAccount, block: u64) -> (r: Result<Vec<PayoutNote>, NoteError>)
        ensures
            house_result_matches(consume_by_house(old(house)@, self@, block), r, final(house)@),
            r is Err ==> final(house)@ == old(house)@,
    {
        let mut work = house.duplicate();
        let r = self.run_on(&mut work, block);
        if r.is_ok() {
            *house = work;
        }
        r
    }
}



/// The views of a sequence of notes.
pub open spec fn note_views(notes: Seq<BetNote>) -> Seq<BetNoteView> {
    notes.map_values(|n: BetNote| n@)
}

proof fn lemma_tx_error_persists(h: HouseView, s: Seq<BetNoteView>, j: int, block: u64)
    requires
        0 <= j <= s.len(),
        house_tx(h, s.take(j), block) is Err,
    ensures
        house_tx(h, s, block) == house_tx(h, s.take(j), block),
    decreases s.len() - j,
{
    if j == s.len() {
        assert(s.take(j) =~= s);
    } else {
        assert(s.take(j + 1).drop_last() =~= s.take(j));
        lemma_tx_error_persists(h, s, j + 1, block);
    }
}

/// The house consumes `notes` in order in one transaction at block `block`.
/// Either every note is consumed and all payout notes are returned, or the
/// transaction fails with the first note's error and the house is unchanged.
pub fn execute_house_transaction(house: &mut HouseAccount, notes: &Vec<BetNote>, block: u64) -> (r: Result<Vec<PayoutNote>, NoteError>)
    ensures
        house_result_matches(house_tx(old(house)@, note_views(notes@), block), r, final(house)@),
        r is Err ==> final(house)@ == old(house)@,
{
    let ghost views = note_views(notes@);
    let mut work = house.duplicate();
    let mut outs: Vec<PayoutNote> = Vec::new();
    let mut i: usize = 0;
    assert(views.take(0) =~= Seq::<BetNoteView>::empty());
    assert(outs@ =~= Seq::<PayoutNote>::empty());
    while i < notes.len()
        invariant
            i <= notes@.len(),
            views == note_views(notes@),
            house_tx(old(house)@, views.take(i as int), block) == Ok::<(HouseView, Seq<PayoutNote>), NoteError>((work@, outs@)),
            house@ == old(house)@,
        decreases notes@.len() - i,
    {
        let ghost before = work@;
        let ghost outs_before = outs@;
        let res = notes[i].run(&mut work, block);
        assert(views.take(i + 1).drop_last() =~= views.take(i as int));
        assert(views.take(i + 1).last() == notes@[i as int]@);
        match res {
            Ok(new_notes) => {
                let mut new_notes = new_notes;
                outs.append(&mut new_notes);
            },
            Err(e) => {
                proof { lemma_tx_error_persists(old(house)@, views, i + 1, block); }
                return Err(e);
            },
        }
        i = i + 1;
    }
    assert(views.take(notes@.len() as int) =~= views);
    *house = work;
    Ok(outs)
}

/// A player's wallet as a mathematical value.
#[verifier::ext_equal]
pub struct WalletView {
    pub id: AccountIdParts,
    pub vault: Map<Word, u64>,
}

impl WalletView {
    pub open spec fn balance(self, faucet: AccountIdParts) -> u64 {
        self.vault[vault_key(faucet)]
    }
}

/// A player reclaims their own note after its expiry block; the stake goes to
/// the player's vault. Anyone else, or the player before expiry, is refused.
pub open spec fn consume_by_player(w: WalletView, n: BetNoteView, block: u64) -> Result<WalletView, NoteError> {
    match checked_bet(n) {
        Err(e) => Err(e),
        Ok((b, asset)) => if w.id != own_id(b) {
            Err(NoteError::Unauthorized)
        } else if block <= b.expiry_block {
            Err(NoteError::NotExpired)
        } else if w.balance(asset.faucet) + asset.amount > MAX_FUNGIBLE_AMOUNT {
            Err(NoteError::VaultOverflow)
        } else {
            Ok(WalletView {
                vault: w.vault.insert(vault_key(asset.faucet), (w.balance(asset.faucet) + asset.amount) as u64),
                ..w
            })
        },
    }
}

/// A player's wallet: an id and a vault.
pub struct Wallet {
    id: AccountIdParts,
    vault: WordMap,
}

impl View for Wallet {
    type V = WalletView;

    closed spec fn view(&self) -> WalletView {
        WalletView { id: self.id, vault: self.vault@ }
    }
}

impl Wallet {
    /// An empty wallet.
    pub fn new(id: AccountIdParts) -> (r: Wallet)
        ensures
            r@ == (WalletView { id, vault: zero_map() }),
    {
        Wallet { id, vault: WordMap::new() }
    }

    /// How much of a faucet's token the wallet holds.
    pub fn balance(&self, faucet: AccountIdParts) -> (r: u64)
        ensures
            r == self@.balance(faucet),
    {
        self.vault.get(&Word::new(faucet.suffix, faucet.prefix, 0, 0))
    }

    /// The player consumes their own bet note after expiry and keeps its stake;
    /// on failure the wallet is unchanged.
    pub fn recall_bet(&mut self, note: &BetNote, block: u64) -> (r: Result<(), NoteError>)
        ensures
            match consume_by_player(old(self)@, note@, block) {
                Ok(w) => r is Ok && final(self)@ == w,
                Err(e) => r == Err::<(), NoteError>(e) && final(self)@ == old(self)@,
            },
    {
        let (b, asset) = match note.check_bet() {
            Ok(x) => x,
            Err(e) => return Err(e),
        };
        let own = if b.player_num == 1 { b.player1 } else { b.player2 };
        if !same_account(&self.id, &own) {
            return Err(NoteError::Unauthorized);
        }
        if block <= b.expiry_block {
            return Err(NoteError::NotExpired);
        }
        let balance = self.balance(asset.faucet);
        if balance > MAX_FUNGIBLE_AMOUNT || asset.amount > MAX_FUNGIBLE_AMOUNT - balance {
            return Err(NoteError::VaultOverflow);
        }
        self.vault.set(Word::new(asset.faucet.suffix, asset.faucet.prefix, 0, 0), balance + asset.amount);
        assert(self@ =~= (WalletView {
            vault: old(self)@.vault.insert(vault_key(asset.faucet), (old(self)@.balance(asset.faucet) + asset.amount) as u64),
            ..old(self)@
        }));
        Ok(())
    }
}

} // verus!
