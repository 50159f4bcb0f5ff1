//! Properties of settlement that span several notes and calls.
use vstd::prelude::*;
use crate::asset::{AccountIdParts, FungibleAsset, MAX_FUNGIBLE_AMOUNT};
use crate::bet_note::{
    BetNoteView, WalletView, consume_by_player, opponent, checked_bet, consume_by_house, house_tx, own_id, payout_serial, REFUND_TAG,
};
use crate::error::NoteError;
use crate::felt::{Word, felt_of};
use crate::house::{
    HouseCall, HouseView, NoteType, PayoutNote, PAYOUT_TAG, PLAYER_FIELDS, FIELD_REGISTERED, FIELD_BET_VALUE,
    FIELD_FAUCET_SUFFIX, FIELD_FAUCET_PREFIX, after_calls, vault_key,
};
use crate::inputs::{BetInputs, bet_inputs_of, note_inputs_of};
use crate::rules::{
    Outcome, outcome_of, bet_params_check, winner_payout, draw_payout, house_fee, total_pot,
};

verus! {

broadcast use {crate::house::lemma_with_bet_wf, crate::house::lemma_with_balance_wf};

/// The two notes of a round agree on the round, the players, the house and the stake.
pub open spec fn same_round(b1: BetInputs, b2: BetInputs) -> bool {
    &&& b1.round_id == b2.round_id
    &&& b1.player1 == b2.player1
    &&& b1.player2 == b2.player2
    &&& b1.house == b2.house
    &&& b1.bet_value == b2.bet_value
}

/// Nothing is stored yet for the round: not settled, and every field of both
/// players' bets is zero.
pub open spec fn fresh_round(h: HouseView, round_id: u64) -> bool {
    &&& h.settled_flag(round_id) == 0
    &&& forall|f: u64| f < PLAYER_FIELDS ==> #[trigger] h.bet_field(round_id, 1, f) == 0
    &&& forall|f: u64| f < PLAYER_FIELDS ==> #[trigger] h.bet_field(round_id, 2, f) == 0
}

/// Whether `k` is the key of one of the eight fields of a player's bet.
pub open spec fn is_player_field(k: Word, round_id: u64, player_num: u64) -> bool {
    k.w0 == round_id && k.w1 == player_num && k.w2 < PLAYER_FIELDS && k.w3 == 0
}

proof fn lemma_clear_fields(h: HouseView, round_id: u64, player_num: u64, n: nat)
    requires
        n <= PLAYER_FIELDS,
    ensures
        h.clear_fields(round_id, player_num, n).id == h.id,
        h.clear_fields(round_id, player_num, n).p2id_root == h.p2id_root,
        h.clear_fields(round_id, player_num, n).vault == h.vault,
        forall|k: Word| #[trigger] h.clear_fields(round_id, player_num, n).bets[k]
            == if k.w0 == round_id && k.w1 == player_num && k.w2 < n && k.w3 == 0 { 0 } else { h.bets[k] },
        h.wf() ==> h.clear_fields(round_id, player_num, n).wf(),
    decreases n,
{
    if n > 0 {
        lemma_clear_fields(h, round_id, player_num, (n - 1) as nat);
    }
}

/// Clearing a player's bet zeroes exactly its eight fields.
pub proof fn lemma_clear_player(h: HouseView, round_id: u64, player_num: u64)
    ensures
        h.clear_player(round_id, player_num).id == h.id,
        h.clear_player(round_id, player_num).p2id_root == h.p2id_root,
        h.clear_player(round_id, player_num).vault == h.vault,
        forall|k: Word| #[trigger] h.clear_player(round_id, player_num).bets[k]
            == if is_player_field(k, round_id, player_num) { 0 } else { h.bets[k] },
        h.wf() ==> h.clear_player(round_id, player_num).wf(),
{
    lemma_clear_fields(h, round_id, player_num, PLAYER_FIELDS as nat);
}

/// A transaction of two notes consumes the first, then the second.
pub proof fn lemma_tx_pair(h: HouseView, x: BetNoteView, y: BetNoteView, block: u64)
    ensures
        house_tx(h, seq![x, y], block) == match consume_by_house(h, x, block) {
            Err(e) => Err(e),
            Ok((h1, o1)) => match consume_by_house(h1, y, block) {
                Err(e) => Err(e),
                Ok((h2, o2)) => Ok((h2, o1 + o2)),
            },
        },
{
    let s = seq![x, y];
    reveal_with_fuel(house_tx, 3);
    assert(s.drop_last() =~= seq![x]);
    assert(seq![x].drop_last() =~= Seq::<BetNoteView>::empty());
    assert(s.last() == y);
    assert(seq![x].last() == x);
    match consume_by_house(h, x, block) {
        Err(e) => {},
        Ok((h1, o1)) => {
            assert(Seq::<PayoutNote>::empty() + o1 =~= o1);
        },
    }
}

/// The payout notes of a settled round, private P2ID notes with script root
/// `root` and the payout tag:
/// the winner payout to a sole winner, or the draw payout to each player,
/// first player first.
pub open spec fn round_payouts(o: Outcome, b: BetInputs, faucet: AccountIdParts, root: Word) -> Seq<PayoutNote> {
    let w = FungibleAsset { faucet, amount: winner_payout(b.bet_value as int) as u64 };
    let d = FungibleAsset { faucet, amount: draw_payout(b.bet_value as int) as u64 };
    match o {
        Outcome::Player1Wins => seq![
            PayoutNote { serial: payout_serial(b.round_id, 1), script_root: root, recipient: b.player1, asset: w, note_type: NoteType::Private, tag: PAYOUT_TAG },
        ],
        Outcome::Player2Wins => seq![
            PayoutNote { serial: payout_serial(b.round_id, 2), script_root: root, recipient: b.player2, asset: w, note_type: NoteType::Private, tag: PAYOUT_TAG },
        ],
        Outcome::Draw => seq![
            PayoutNote { serial: payout_serial(b.round_id, 1), script_root: root, recipient: b.player1, asset: d, note_type: NoteType::Private, tag: PAYOUT_TAG },
            PayoutNote { serial: payout_serial(b.round_id, 2), script_root: root, recipient: b.player2, asset: d, note_type: NoteType::Private, tag: PAYOUT_TAG },
        ],
    }
}

/// What the house keeps of a settled pot: the fee, plus on a draw the unit of
/// rounding when the winner payout is odd.
pub open spec fn house_share(o: Outcome, bet_value: int) -> int {
    match o {
        Outcome::Draw => total_pot(bet_value) - 2 * draw_payout(bet_value),
        _ => house_fee(bet_value),
    }
}

proof fn lemma_payouts_fit(bet_value: int)
    requires
        0 <= bet_value,
    ensures
        0 <= house_fee(bet_value) <= winner_payout(bet_value) <= total_pot(bet_value),
        0 <= 2 * draw_payout(bet_value) <= winner_payout(bet_value),
        house_share(Outcome::Draw, bet_value) == total_pot(bet_value) - 2 * draw_payout(bet_value),
{
}

/// The house after a round is settled by a note of seat `first_seat` and then
/// one of the other seat: the round's settled flag is set, every field of the
/// first seat's bet reads zero, the rest of the storage is as before, and the
/// vault holds the house's share more of the staked token.
pub open spec fn settled_house(h: HouseView, round_id: u64, first_seat: u64, faucet: AccountIdParts, share: int) -> HouseView {
    HouseView {
        id: h.id,
        p2id_root: h.p2id_root,
        bets: h.clear_player(round_id, first_seat).bets.insert(crate::house::settled_key(round_id), 1),
        vault: h.vault.insert(crate::house::vault_key(faucet), (h.balance(faucet) + share) as u64),
    }
}

/// The outcome of a round from the bets of its two notes, whichever seat each holds.
pub open spec fn pair_outcome(bx: BetInputs, by: BetInputs) -> Outcome {
    if bx.player_num == 1 {
        outcome_of(bx.h, bx.g, by.h, by.g)
    } else {
        outcome_of(by.h, by.g, bx.h, bx.g)
    }
}

/// The conditions under which two notes of a round, consumed `first` then
/// `second`, settle it: one note per seat, the same round, players, house and
/// stake, legal moves, one asset each of the stake and of the same faucet, the
/// house named in the notes, neither note expired, the round not settled and
/// no bet stored for the second note's seat, and room in the vault for both
/// stakes.
pub open spec fn settleable(h: HouseView, first: BetNoteView, second: BetNoteView, block: u64) -> bool {
    let bx = bet_inputs_of(first.inputs);
    let by = bet_inputs_of(second.inputs);
    &&& first.inputs.len() >= 12
    &&& second.inputs.len() >= 12
    &&& (bx.player_num == 1 || bx.player_num == 2)
    &&& by.player_num == crate::bet_note::opponent(bx.player_num)
    &&& same_round(bx, by)
    &&& bx.h <= 3 && bx.g <= 6 && by.h <= 3 && by.g <= 6
    &&& first.assets.len() == 1
    &&& second.assets.len() == 1
    &&& first.assets[0].amount == bx.bet_value
    &&& second.assets[0].amount == bx.bet_value
    &&& first.assets[0].faucet == second.assets[0].faucet
    &&& h.wf()
    &&& h.id == bx.house
    &&& block <= bx.expiry_block
    &&& block <= by.expiry_block
    &&& h.settled_flag(bx.round_id) == 0
    &&& h.bet_field(bx.round_id, by.player_num, FIELD_REGISTERED) == 0
    &&& h.balance(first.assets[0].faucet) + total_pot(bx.bet_value as int) <= MAX_FUNGIBLE_AMOUNT
}

/// An open round whose two notes agree is settled by the house consuming both
/// in one transaction, in either order: the winner receives the pot less the
/// 1% fee (on a draw each player receives half of that) in P2ID notes of the
/// house's script root, the house keeps the rest, the round is marked settled,
/// the first note's stored bet is cleared, and nothing else in storage changes.
pub proof fn law_round_settles(h: HouseView, first: BetNoteView, second: BetNoteView, block: u64)
    requires
        settleable(h, first, second, block),
    ensures
        ({
            let bx = bet_inputs_of(first.inputs);
            let by = bet_inputs_of(second.inputs);
            let f = first.assets[0].faucet;
            let o = pair_outcome(bx, by);
            house_tx(h, seq![first, second], block) == Ok::<(HouseView, Seq<PayoutNote>), NoteError>((
                settled_house(h, bx.round_id, bx.player_num, f, house_share(o, bx.bet_value as int)),
                round_payouts(o, bx, f, h.p2id_root),
            ))
        }),
{
    let bx = bet_inputs_of(first.inputs);
    let by = bet_inputs_of(second.inputs);
    let ax = first.assets[0];
    let ay = second.assets[0];
    let f = ax.faucet;
    let r = bx.round_id;
    let bv = bx.bet_value;
    let px = bx.player_num;
    let py = by.player_num;
    lemma_tx_pair(h, first, second, block);
    assert(checked_bet(first) == Ok::<(BetInputs, FungibleAsset), NoteError>((bx, ax)));
    assert(checked_bet(second) == Ok::<(BetInputs, FungibleAsset), NoteError>((by, ay)));
    // the first note registers its bet
    let h0 = h.with_balance(f, (h.balance(f) + bv) as u64);
    assert(h.receive(ax) == Ok::<HouseView, NoteError>(h0));
    assert(h0.bets == h.bets);
    assert(h0.settled_flag(r) == 0);
    assert(h.bet_field(r, py, FIELD_REGISTERED) == 0);
    assert(h0.bet_field(r, py, FIELD_REGISTERED) == 0);
    let h1 = crate::bet_note::register_spec(h0, bx, ax);
    assert(consume_by_house(h, first, block) == Ok::<(HouseView, Seq<PayoutNote>), NoteError>((h1, Seq::empty())));
    // the second note resolves the round
    assert(h1.vault == h0.vault);
    assert(h1.id == h.id);
    let h2 = h1.with_balance(f, (h.balance(f) + 2 * bv) as u64);
    assert(h1.receive(ay) == Ok::<HouseView, NoteError>(h2));
    assert(h2.settled_flag(r) == 0);
    assert(h2.bet_field(r, px, FIELD_REGISTERED) == 1);
    assert(crate::bet_note::id_xor_s(bx) == crate::bet_note::id_xor_s(by));
    assert(crate::bet_note::id_xor_p(bx) == crate::bet_note::id_xor_p(by));
    let o = pair_outcome(bx, by);
    assert(crate::bet_note::round_outcome_of(h2, by) == o);
    lemma_payouts_fit(bv as int);
    assert(round_payouts(o, by, f, h.p2id_root) == round_payouts(o, bx, f, h.p2id_root));
    let paid = crate::bet_note::pay_outcome_spec(h2, o, by, f);
    assert(paid matches Ok((h3, outs)) && outs == round_payouts(o, bx, f, h.p2id_root)
        && h3.bets == h2.bets && h3.id == h2.id && h3.p2id_root == h2.p2id_root
        && h3.vault == h.vault.insert(crate::house::vault_key(f), (h.balance(f) + house_share(o, bv as int)) as u64));
    let (h3, outs) = paid.unwrap();
    let h4 = h3.mark_settled(r).clear_player(r, px);
    assert(consume_by_house(h1, second, block) == Ok::<(HouseView, Seq<PayoutNote>), NoteError>((h4, outs)));
    assert(Seq::<PayoutNote>::empty() + outs =~= outs);
    lemma_clear_player(h3.mark_settled(r), r, px);
    lemma_clear_player(h, r, px);
    let target = settled_house(h, r, px, f, house_share(o, bv as int));
    assert(h3.mark_settled(r).wf());
    assert forall|k: Word| #[trigger] h4.bets[k] == target.bets[k] && h4.bets.dom().contains(k) && target.bets.dom().contains(k) by {
        if is_player_field(k, r, px) {
            assert(k != crate::house::settled_key(r));
        } else if k != crate::house::settled_key(r) {
            assert(h1.bets[k] == h.bets[k]);
        }
    }
    assert(h4.bets =~= target.bets);
    assert(h4.vault =~= target.vault);
    assert(h4 =~= target);
}

/// After its expiry block, the house's consumption of a note returns exactly
/// the stake to the note's own player and leaves the house as it was.
pub proof fn law_refund_after_expiry(h: HouseView, n: BetNoteView, block: u64)
    requires
        h.wf(),
        checked_bet(n) is Ok,
        h.id == bet_inputs_of(n.inputs).house,
        block > bet_inputs_of(n.inputs).expiry_block,
        h.balance(n.assets[0].faucet) + n.assets[0].amount <= MAX_FUNGIBLE_AMOUNT,
    ensures
        ({
            let b = bet_inputs_of(n.inputs);
            consume_by_house(h, n, block) == Ok::<(HouseView, Seq<PayoutNote>), NoteError>((h, seq![
                PayoutNote {
                    serial: payout_serial(b.round_id, REFUND_TAG),
                    script_root: h.p2id_root,
                    recipient: own_id(b),
                    asset: FungibleAsset { faucet: n.assets[0].faucet, amount: b.bet_value },
                    note_type: NoteType::Private,
                    tag: PAYOUT_TAG,
                },
            ]))
        }),
{
    let b = bet_inputs_of(n.inputs);
    let a = n.assets[0];
    let f = a.faucet;
    assert(checked_bet(n) == Ok::<(BetInputs, FungibleAsset), NoteError>((b, a)));
    let h1 = h.with_balance(f, (h.balance(f) + a.amount) as u64);
    assert(h.receive(a) == Ok::<HouseView, NoteError>(h1));
    let h2 = h1.with_balance(f, h.balance(f));
    assert(h2.vault =~= h.vault);
    assert(h2 =~= h);
}

/// Once a round is settled, the house refuses every note of that round
/// consumed before its expiry block.
pub proof fn law_settled_round_refuses(h: HouseView, n: BetNoteView, block: u64)
    requires
        n.inputs.len() >= 12,
        h.settled_flag(bet_inputs_of(n.inputs).round_id) != 0,
        block <= bet_inputs_of(n.inputs).expiry_block,
    ensures
        consume_by_house(h, n, block) is Err,
{
    let b = bet_inputs_of(n.inputs);
    if let Ok((b0, a)) = checked_bet(n) {
        assert(b0 == b);
        if let Ok(h1) = h.receive(a) {
            assert(h1.bets == h.bets);
        }
    }
}

/// A round settled by its two notes cannot be settled again: afterwards the
/// house refuses any note of that round consumed before its expiry block.
pub proof fn law_settled_round_cannot_be_replayed(
    h: HouseView,
    first: BetNoteView,
    second: BetNoteView,
    block: u64,
    later: BetNoteView,
    later_block: u64,
)
    requires
        settleable(h, first, second, block),
        later.inputs.len() >= 12,
        bet_inputs_of(later.inputs).round_id == bet_inputs_of(first.inputs).round_id,
        later_block <= bet_inputs_of(later.inputs).expiry_block,
    ensures
        house_tx(h, seq![first, second], block) matches Ok((h2, outs))
            && consume_by_house(h2, later, later_block) is Err,
{
    law_round_settles(h, first, second, block);
    let bx = bet_inputs_of(first.inputs);
    let by = bet_inputs_of(second.inputs);
    let h2 = settled_house(h, bx.round_id, bx.player_num, first.assets[0].faucet, house_share(pair_outcome(bx, by), bx.bet_value as int));
    assert(h2.settled_flag(bx.round_id) == 1);
    law_settled_round_refuses(h2, later, later_block);
}

proof fn lemma_overflow_refused(h: HouseView, n: BetNoteView, block: u64)
    requires
        checked_bet(n) is Ok,
        h.balance(n.assets[0].faucet) + n.assets[0].amount > MAX_FUNGIBLE_AMOUNT,
    ensures
        consume_by_house(h, n, block) is Err,
{
    let b = bet_inputs_of(n.inputs);
    assert(checked_bet(n) == Ok::<(BetInputs, FungibleAsset), NoteError>((b, n.assets[0])));
}

/// The first note of a fresh round stores its bet and pays nothing.
proof fn lemma_first_registers(h: HouseView, n: BetNoteView, block: u64)
    requires
        h.wf(),
        checked_bet(n) is Ok,
        h.id == bet_inputs_of(n.inputs).house,
        block <= bet_inputs_of(n.inputs).expiry_block,
        fresh_round(h, bet_inputs_of(n.inputs).round_id),
        h.balance(n.assets[0].faucet) + n.assets[0].amount <= MAX_FUNGIBLE_AMOUNT,
    ensures
        ({
            let b = bet_inputs_of(n.inputs);
            let a = n.assets[0];
            consume_by_house(h, n, block) == Ok::<(HouseView, Seq<PayoutNote>), NoteError>((
                crate::bet_note::register_spec(h.with_balance(a.faucet, (h.balance(a.faucet) + a.amount) as u64), b, a),
                Seq::empty(),
            ))
        }),
{
    let b = bet_inputs_of(n.inputs);
    let a = n.assets[0];
    assert(checked_bet(n) == Ok::<(BetInputs, FungibleAsset), NoteError>((b, a)));
    let h0 = h.with_balance(a.faucet, (h.balance(a.faucet) + a.amount) as u64);
    assert(h0.bets == h.bets);
    assert(h.bet_field(b.round_id, crate::bet_note::opponent(b.player_num), FIELD_REGISTERED) == 0);
}

/// The two notes of a fresh round, one per seat, agreeing on round, players,
/// house and stake, and both expired or both not at the block, may be consumed
/// in either order: the transaction succeeds in
/// one order exactly when it succeeds in the other, and then leaves the house
/// in the same state and pays the same notes; before expiry they come in the
/// same order, after it each refund comes in its own note's turn.
pub proof fn law_settlement_order_independent(h: HouseView, n1: BetNoteView, n2: BetNoteView, block: u64)
    requires
        h.wf(),
        n1.inputs.len() >= 12,
        n2.inputs.len() >= 12,
        bet_inputs_of(n1.inputs).player_num == 1,
        bet_inputs_of(n2.inputs).player_num == 2,
        same_round(bet_inputs_of(n1.inputs), bet_inputs_of(n2.inputs)),
        (block > bet_inputs_of(n1.inputs).expiry_block) == (block > bet_inputs_of(n2.inputs).expiry_block),
        fresh_round(h, bet_inputs_of(n1.inputs).round_id),
    ensures
        (house_tx(h, seq![n1, n2], block) is Ok) == (house_tx(h, seq![n2, n1], block) is Ok),
        house_tx(h, seq![n1, n2], block) matches Ok((ha, oa)) ==> (
            house_tx(h, seq![n2, n1], block) matches Ok((hb, ob))
            && ha == hb
            && oa.to_multiset() == ob.to_multiset()
            && (block <= bet_inputs_of(n1.inputs).expiry_block ==> oa == ob)
        ),
{
    let b1 = bet_inputs_of(n1.inputs);
    let b2 = bet_inputs_of(n2.inputs);
    lemma_tx_pair(h, n1, n2, block);
    lemma_tx_pair(h, n2, n1, block);
    if checked_bet(n1) is Err || checked_bet(n2) is Err {
        if let Ok((ha, oa)) = consume_by_house(h, n1, block) {
            assert(consume_by_house(ha, n2, block) is Err);
        }
        if let Ok((hb, ob)) = consume_by_house(h, n2, block) {
            assert(consume_by_house(hb, n1, block) is Err);
        }
    } else if h.id == b1.house {
        lemma_checked_pair(h, n1, n2, block);
    }
}

proof fn lemma_fresh_seat_cleared(h: HouseView, r: u64, seat: u64)
    requires
        h.wf(),
        fresh_round(h, r),
        seat == 1 || seat == 2,
    ensures
        h.clear_player(r, seat).bets == h.bets,
{
    lemma_clear_player(h, r, seat);
    assert forall|k: Word| #[trigger] h.clear_player(r, seat).bets[k] == h.bets[k] by {
        if is_player_field(k, r, seat) {
            assert(k == crate::house::player_key(r, seat, k.w2));
            assert(h.bet_field(r, seat, k.w2) == 0);
        }
    }
    assert(h.clear_player(r, seat).wf());
    assert(h.clear_player(r, seat).bets =~= h.bets);
}

proof fn lemma_checked_pair(h: HouseView, n1: BetNoteView, n2: BetNoteView, block: u64)
    requires
        h.wf(),
        n1.inputs.len() >= 12,
        n2.inputs.len() >= 12,
        bet_inputs_of(n1.inputs).player_num == 1,
        bet_inputs_of(n2.inputs).player_num == 2,
        same_round(bet_inputs_of(n1.inputs), bet_inputs_of(n2.inputs)),
        (block > bet_inputs_of(n1.inputs).expiry_block) == (block > bet_inputs_of(n2.inputs).expiry_block),
        fresh_round(h, bet_inputs_of(n1.inputs).round_id),
        checked_bet(n1) is Ok,
        checked_bet(n2) is Ok,
        h.id == bet_inputs_of(n1.inputs).house,
    ensures
        (house_tx(h, seq![n1, n2], block) is Ok) == (house_tx(h, seq![n2, n1], block) is Ok),
        house_tx(h, seq![n1, n2], block) matches Ok((ha, oa)) ==> (
            house_tx(h, seq![n2, n1], block) matches Ok((hb, ob))
            && ha == hb
            && oa.to_multiset() == ob.to_multiset()
            && (block <= bet_inputs_of(n1.inputs).expiry_block ==> oa == ob)
        ),
{
    let b1 = bet_inputs_of(n1.inputs);
    let b2 = bet_inputs_of(n2.inputs);
    lemma_tx_pair(h, n1, n2, block);
    lemma_tx_pair(h, n2, n1, block);
    let a1 = n1.assets[0];
    let a2 = n2.assets[0];
    let bv = b1.bet_value;
    let r = b1.round_id;
    assert(checked_bet(n1) == Ok::<(BetInputs, FungibleAsset), NoteError>((b1, a1)));
    assert(checked_bet(n2) == Ok::<(BetInputs, FungibleAsset), NoteError>((b2, a2)));
    let ov1 = h.balance(a1.faucet) + bv > MAX_FUNGIBLE_AMOUNT;
    let ov2 = h.balance(a2.faucet) + bv > MAX_FUNGIBLE_AMOUNT;
    if block > b1.expiry_block {
        if ov1 {
            lemma_overflow_refused(h, n1, block);
            if !ov2 {
                law_refund_after_expiry(h, n2, block);
            }
            lemma_overflow_refused(h, n1, block);
        } else if ov2 {
            lemma_overflow_refused(h, n2, block);
            law_refund_after_expiry(h, n1, block);
        } else {
            law_refund_after_expiry(h, n1, block);
            law_refund_after_expiry(h, n2, block);
            let (_, o1) = consume_by_house(h, n1, block).unwrap();
            let (_, o2) = consume_by_house(h, n2, block).unwrap();
            assert((o1 + o2).reverse() =~= o2 + o1);
            (o1 + o2).lemma_reverse_to_multiset();
        }
    } else if ov1 {
        lemma_overflow_refused(h, n1, block);
        if !ov2 {
            lemma_first_registers(h, n2, block);
            let (hb, _) = consume_by_house(h, n2, block).unwrap();
            assert(hb.balance(a1.faucet) >= h.balance(a1.faucet));
            lemma_overflow_refused(hb, n1, block);
        }
    } else if ov2 {
        lemma_overflow_refused(h, n2, block);
        lemma_first_registers(h, n1, block);
        let (ha, _) = consume_by_house(h, n1, block).unwrap();
        assert(ha.balance(a2.faucet) >= h.balance(a2.faucet));
        lemma_overflow_refused(ha, n2, block);
    } else {
        lemma_first_registers(h, n1, block);
        lemma_first_registers(h, n2, block);
        let (ha, _) = consume_by_house(h, n1, block).unwrap();
        let (hb, _) = consume_by_house(h, n2, block).unwrap();
        if a1.faucet != a2.faucet {
            assert(crate::house::vault_key(a1.faucet) != crate::house::vault_key(a2.faucet));
            assert(ha.balance(a2.faucet) == h.balance(a2.faucet));
            assert(hb.balance(a1.faucet) == h.balance(a1.faucet));
            assert(ha.settled_flag(r) == 0);
            assert(hb.settled_flag(r) == 0);
            assert(consume_by_house(ha, n2, block) is Err);
            assert(consume_by_house(hb, n1, block) is Err);
        } else if h.balance(a1.faucet) + total_pot(bv as int) > MAX_FUNGIBLE_AMOUNT {
            lemma_overflow_refused(ha, n2, block);
            lemma_overflow_refused(hb, n1, block);
        } else {
            assert(settleable(h, n1, n2, block));
            assert(settleable(h, n2, n1, block));
            law_round_settles(h, n1, n2, block);
            law_round_settles(h, n2, n1, block);
            lemma_fresh_seat_cleared(h, r, 1);
            lemma_fresh_seat_cleared(h, r, 2);
            assert(pair_outcome(b1, b2) == pair_outcome(b2, b1));
            assert(round_payouts(pair_outcome(b1, b2), b1, a1.faucet, h.p2id_root) == round_payouts(pair_outcome(b2, b1), b2, a2.faucet, h.p2id_root));
        }
    }
}

/// A bet that passes the player's checks before publishing (seat 1 or 2, at
/// most three fingers, a guess of at most six, a stake that is a multiple of
/// 50 and a valid asset amount), written as note inputs with its stake as the
/// note's one asset, passes the checks of the note itself and reads back as
/// the same bet.
pub proof fn law_published_bet_passes_note_checks(
    round_id: u64,
    player_num: u64,
    h: u64,
    g: u64,
    p1: AccountIdParts,
    p2: AccountIdParts,
    house: AccountIdParts,
    bet_value: u64,
    expiry_block: u64,
    faucet: AccountIdParts,
)
    requires
        bet_params_check(player_num, h, g, bet_value) is Ok,
        bet_value <= MAX_FUNGIBLE_AMOUNT,
    ensures
        checked_bet(BetNoteView {
            inputs: note_inputs_of(round_id, player_num, h, g, p1, p2, house, bet_value, expiry_block),
            assets: seq![FungibleAsset { faucet, amount: bet_value }],
        }) == Ok::<(BetInputs, FungibleAsset), NoteError>((
            BetInputs {
                round_id: felt_of(round_id),
                player_num,
                h,
                g,
                player1: p1,
                player2: p2,
                house,
                bet_value,
                expiry_block: felt_of(expiry_block),
            },
            FungibleAsset { faucet, amount: bet_value },
        )),
{
    assert(felt_of(player_num) == player_num);
    assert(felt_of(h) == h);
    assert(felt_of(g) == g);
    assert(felt_of(bet_value) == bet_value);
}

/// Whether a call stores (`Some(true)`) or clears (`Some(false)`) the bet of
/// seat `pn` in round `r`; `None` for any other call.
pub open spec fn registration_of(c: HouseCall, r: u64, pn: u64) -> Option<bool> {
    match c {
        HouseCall::StorePlayerBet { round_id, player_num, .. } =>
            if round_id == r && player_num == pn { Some(true) } else { None },
        HouseCall::ClearPlayerBet { round_id, player_num } =>
            if round_id == r && player_num == pn { Some(false) } else { None },
        _ => None,
    }
}

/// The last call of a sequence that stores or clears the bet of seat `pn` in
/// round `r`: `Some(true)` for a store, `Some(false)` for a clear, `None` if
/// there is none.
pub open spec fn last_registration(calls: Seq<HouseCall>, r: u64, pn: u64) -> Option<bool>
    decreases calls.len(),
{
    if calls.len() == 0 {
        None
    } else {
        match registration_of(calls.last(), r, pn) {
            Some(b) => Some(b),
            None => last_registration(calls.drop_last(), r, pn),
        }
    }
}

proof fn lemma_call_settled(h: HouseView, c: HouseCall, r: u64)
    ensures
        h.after_call(c).settled_flag(r)
            == if c == (HouseCall::MarkRoundSettled { round_id: r }) { 1 } else { h.settled_flag(r) },
{
    match c {
        HouseCall::ClearPlayerBet { round_id, player_num } => {
            lemma_clear_player(h, round_id, player_num);
            assert(!is_player_field(crate::house::settled_key(r), round_id, player_num));
        },
        HouseCall::ReceiveAsset { .. } => {},
        HouseCall::CreatePayoutNote { .. } => {},
        _ => {},
    }
}

proof fn lemma_call_registered(h: HouseView, c: HouseCall, r: u64, pn: u64)
    ensures
        h.after_call(c).bet_field(r, pn, FIELD_REGISTERED) == match registration_of(c, r, pn) {
            Some(true) => 1,
            Some(false) => 0,
            None => h.bet_field(r, pn, FIELD_REGISTERED),
        },
{
    let k = crate::house::player_key(r, pn, FIELD_REGISTERED);
    match c {
        HouseCall::ClearPlayerBet { round_id, player_num } => {
            lemma_clear_player(h, round_id, player_num);
            assert(is_player_field(k, round_id, player_num) == (round_id == r && player_num == pn));
        },
        _ => {},
    }
}

/// After any sequence of calls, a round's settled flag is 1 if one of them
/// marked the round settled, and otherwise what it was before.
pub proof fn law_settled_flag_after_calls(h: HouseView, calls: Seq<HouseCall>, r: u64)
    ensures
        after_calls(h, calls).settled_flag(r)
            == if calls.contains(HouseCall::MarkRoundSettled { round_id: r }) { 1 } else { h.settled_flag(r) },
    decreases calls.len(),
{
    let m = HouseCall::MarkRoundSettled { round_id: r };
    if calls.len() > 0 {
        let init = calls.drop_last();
        law_settled_flag_after_calls(h, init, r);
        lemma_call_settled(after_calls(h, init), calls.last(), r);
        if init.contains(m) {
            let i = choose|i: int| 0 <= i < init.len() && init[i] == m;
            assert(calls[i] == m);
        }
        if calls.contains(m) && calls.last() != m {
            let i = choose|i: int| 0 <= i < calls.len() && calls[i] == m;
            assert(i != calls.len() - 1);
            assert(init[i] == m);
        }
        if calls.last() == m {
            assert(calls[calls.len() - 1] == m);
        }
    }
}

/// Once a round is marked settled, no later sequence of calls clears its flag.
pub proof fn law_settled_flag_never_cleared(h: HouseView, r: u64, calls: Seq<HouseCall>)
    ensures
        after_calls(h.after_call(HouseCall::MarkRoundSettled { round_id: r }), calls).settled_flag(r) == 1,
{
    law_settled_flag_after_calls(h.after_call(HouseCall::MarkRoundSettled { round_id: r }), calls, r);
}

/// On a fresh house, `is_round_settled` reads 1 after a sequence of calls
/// exactly when one of them marked the round settled, and 0 otherwise.
pub proof fn law_round_settled_iff_marked(id: AccountIdParts, root: Word, calls: Seq<HouseCall>, r: u64)
    ensures
        after_calls(HouseView::empty(id, root), calls).settled_flag(r)
            == if calls.contains(HouseCall::MarkRoundSettled { round_id: r }) { 1u64 } else { 0u64 },
{
    law_settled_flag_after_calls(HouseView::empty(id, root), calls, r);
}

/// After any sequence of calls, a seat's registered mark is 1 when the last
/// call that stored or cleared its bet stored it, 0 when it cleared it, and
/// what it was before when there is no such call.
pub proof fn law_registration_follows_last_call(h: HouseView, calls: Seq<HouseCall>, r: u64, pn: u64)
    ensures
        after_calls(h, calls).bet_field(r, pn, FIELD_REGISTERED) == match last_registration(calls, r, pn) {
            Some(true) => 1,
            Some(false) => 0,
            None => h.bet_field(r, pn, FIELD_REGISTERED),
        },
    decreases calls.len(),
{
    if calls.len() > 0 {
        law_registration_follows_last_call(h, calls.drop_last(), r, pn);
        lemma_call_registered(after_calls(h, calls.drop_last()), calls.last(), r, pn);
    }
}

/// On a fresh house, `is_player_registered` reads 1 after a sequence of calls
/// exactly when the last call that stored or cleared the seat's bet stored it.
pub proof fn law_fresh_house_registration(id: AccountIdParts, root: Word, calls: Seq<HouseCall>, r: u64, pn: u64)
    ensures
        after_calls(HouseView::empty(id, root), calls).bet_field(r, pn, FIELD_REGISTERED)
            == if last_registration(calls, r, pn) == Some(true) { 1u64 } else { 0u64 },
{
    law_registration_follows_last_call(HouseView::empty(id, root), calls, r, pn);
}

/// A successful recall adds exactly the note's amount to the wallet's balance
/// of the note's faucet and leaves the wallet's id and every other entry of
/// its vault as they were.
pub proof fn law_recall_adds_stake(w: WalletView, n: BetNoteView, block: u64)
    requires
        consume_by_player(w, n, block) is Ok,
    ensures
        consume_by_player(w, n, block) matches Ok(w2) && ({
            let f = n.assets[0].faucet;
            &&& w2.id == w.id
            &&& w2.balance(f) == w.balance(f) + n.assets[0].amount
            &&& forall|f2: AccountIdParts| f2 != f ==> #[trigger] w2.balance(f2) == w.balance(f2)
            &&& forall|k: Word| k != vault_key(f) ==> #[trigger] w2.vault[k] == w.vault[k]
        }),
{
    let b = bet_inputs_of(n.inputs);
    assert(checked_bet(n) == Ok::<(BetInputs, FungibleAsset), NoteError>((b, n.assets[0])));
    assert forall|f2: AccountIdParts| f2 != n.assets[0].faucet implies #[trigger] vault_key(f2) != vault_key(n.assets[0].faucet) by {}
}

/// The player named by a note's seat recalls it after its expiry block when
/// the note passes its checks and the wallet has room for the stake.
pub proof fn law_recall_succeeds(w: WalletView, n: BetNoteView, block: u64)
    requires
        checked_bet(n) is Ok,
        w.id == own_id(bet_inputs_of(n.inputs)),
        block > bet_inputs_of(n.inputs).expiry_block,
        w.balance(n.assets[0].faucet) + n.assets[0].amount <= MAX_FUNGIBLE_AMOUNT,
    ensures
        consume_by_player(w, n, block) is Ok,
{
    let b = bet_inputs_of(n.inputs);
    assert(checked_bet(n) == Ok::<(BetInputs, FungibleAsset), NoteError>((b, n.assets[0])));
}

/// When the opponent's bet of the round is stored with the same faucet but a
/// stake other than this note's, larger or smaller, the house's consumption of
/// the note before its expiry fails with `BetValueMismatch`.
pub proof fn law_stake_mismatch_refused(h: HouseView, n: BetNoteView, block: u64)
    requires
        h.wf(),
        checked_bet(n) is Ok,
        h.id == bet_inputs_of(n.inputs).house,
        block <= bet_inputs_of(n.inputs).expiry_block,
        h.settled_flag(bet_inputs_of(n.inputs).round_id) == 0,
        ({
            let b = bet_inputs_of(n.inputs);
            let opp = opponent(b.player_num);
            &&& h.bet_field(b.round_id, opp, FIELD_REGISTERED) != 0
            &&& h.bet_field(b.round_id, opp, FIELD_FAUCET_SUFFIX) == n.assets[0].faucet.suffix
            &&& h.bet_field(b.round_id, opp, FIELD_FAUCET_PREFIX) == n.assets[0].faucet.prefix
            &&& h.bet_field(b.round_id, opp, FIELD_BET_VALUE) != b.bet_value
        }),
        h.balance(n.assets[0].faucet) + n.assets[0].amount <= MAX_FUNGIBLE_AMOUNT,
    ensures
        consume_by_house(h, n, block) == Err::<(HouseView, Seq<PayoutNote>), NoteError>(NoteError::BetValueMismatch),
{
    let b = bet_inputs_of(n.inputs);
    let a = n.assets[0];
    assert(checked_bet(n) == Ok::<(BetInputs, FungibleAsset), NoteError>((b, a)));
    let h1 = h.with_balance(a.faucet, (h.balance(a.faucet) + a.amount) as u64);
    assert(h.receive(a) == Ok::<HouseView, NoteError>(h1));
    assert(h1.bets == h.bets);
}

/// A transaction of the two notes of a round, one per seat, in the same
/// faucet's token but naming different stakes, fails before expiry; with room
/// in the vault for both stakes it fails with `BetValueMismatch`.
pub proof fn law_different_stakes_refused(h: HouseView, first: BetNoteView, second: BetNoteView, block: u64)
    requires
        h.wf(),
        checked_bet(first) is Ok,
        checked_bet(second) is Ok,
        ({
            let bx = bet_inputs_of(first.inputs);
            let by = bet_inputs_of(second.inputs);
            &&& by.player_num == opponent(bx.player_num)
            &&& by.round_id == bx.round_id
            &&& h.id == bx.house
            &&& h.id == by.house
            &&& block <= bx.expiry_block
            &&& block <= by.expiry_block
            &&& h.settled_flag(bx.round_id) == 0
            &&& h.bet_field(bx.round_id, by.player_num, FIELD_REGISTERED) == 0
            &&& first.assets[0].faucet == second.assets[0].faucet
            &&& bx.bet_value != by.bet_value
        }),
    ensures
        house_tx(h, seq![first, second], block) is Err,
        h.balance(first.assets[0].faucet) + first.assets[0].amount + second.assets[0].amount <= MAX_FUNGIBLE_AMOUNT
            ==> house_tx(h, seq![first, second], block)
                == Err::<(HouseView, Seq<PayoutNote>), NoteError>(NoteError::BetValueMismatch),
{
    let bx = bet_inputs_of(first.inputs);
    let by = bet_inputs_of(second.inputs);
    let ax = first.assets[0];
    let ay = second.assets[0];
    let f = ax.faucet;
    let r = bx.round_id;
    lemma_tx_pair(h, first, second, block);
    assert(checked_bet(first) == Ok::<(BetInputs, FungibleAsset), NoteError>((bx, ax)));
    assert(checked_bet(second) == Ok::<(BetInputs, FungibleAsset), NoteError>((by, ay)));
    if h.balance(f) + ax.amount <= MAX_FUNGIBLE_AMOUNT {
        let h0 = h.with_balance(f, (h.balance(f) + ax.amount) as u64);
        assert(h.receive(ax) == Ok::<HouseView, NoteError>(h0));
        assert(h0.bets == h.bets);
        let h1 = crate::bet_note::register_spec(h0, bx, ax);
        assert(consume_by_house(h, first, block) == Ok::<(HouseView, Seq<PayoutNote>), NoteError>((h1, Seq::empty())));
        assert(h1.vault == h0.vault);
        assert(h1.settled_flag(r) == 0);
        assert(h1.bet_field(r, bx.player_num, FIELD_REGISTERED) == 1);
        assert(h1.bet_field(r, bx.player_num, FIELD_BET_VALUE) == bx.bet_value);
        assert(h1.bet_field(r, bx.player_num, FIELD_FAUCET_SUFFIX) == f.suffix);
        assert(h1.bet_field(r, bx.player_num, FIELD_FAUCET_PREFIX) == f.prefix);
        assert(opponent(by.player_num) == bx.player_num);
        if h1.balance(f) + ay.amount <= MAX_FUNGIBLE_AMOUNT {
            law_stake_mismatch_refused(h1, second, block);
        }
    }
}

} // verus!
