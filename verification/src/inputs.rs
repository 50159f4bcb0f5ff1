//! The twelve field elements that a bet note carries as inputs.
use vstd::prelude::*;
use crate::asset::AccountIdParts;
use crate::felt::{felt_new, felt_of, is_felt, FELT_MODULUS};

verus! {

/// How many inputs a bet note has.
pub const NOTE_INPUT_COUNT: usize = 12;

/// A bet note's inputs, by name.
#[derive(Clone, Copy, Debug, PartialEq, Eq, Structural)]
pub struct BetInputs {
    pub round_id: u64,
    pub player_num: u64,
    pub h: u64,
    pub g: u64,
    pub player1: AccountIdParts,
    pub player2: AccountIdParts,
    pub house: AccountIdParts,
    pub bet_value: u64,
    pub expiry_block: u64,
}

/// The named inputs read from the first twelve elements:
/// round, seat, fingers, guess, player 1, player 2, house (suffix then prefix
/// each), stake and expiry block.
pub open spec fn bet_inputs_of(s: Seq<u64>) -> BetInputs
    recommends
        s.len() >= 12,
{
    BetInputs {
        round_id: s[0],
        player_num: s[1],
        h: s[2],
        g: s[3],
        player1: AccountIdParts { suffix: s[4], prefix: s[5] },
        player2: AccountIdParts { suffix: s[6], prefix: s[7] },
        house: AccountIdParts { suffix: s[8], prefix: s[9] },
        bet_value: s[10],
        expiry_block: s[11],
    }
}

/// The input sequence that the parameters are written as.
pub open spec fn note_inputs_of(
    round_id: u64,
    player_num: u64,
    h: u64,
    g: u64,
    p1: AccountIdParts,
    p2: AccountIdParts,
    house: AccountIdParts,
    bet_value: u64,
    expiry_block: u64,
) -> Seq<u64> {
    seq![
        felt_of(round_id), felt_of(player_num), felt_of(h), felt_of(g),
        p1.suffix, p1.prefix, p2.suffix, p2.prefix, house.suffix, house.prefix,
        felt_of(bet_value), felt_of(expiry_block),
    ]
}

/// Reads the named inputs; `None` when there are fewer than twelve.
pub fn read_bet_inputs(inputs: &[u64]) -> (r: Option<BetInputs>)
    ensures
        inputs@.len() >= 12 ==> r == Some(bet_inputs_of(inputs@)),
        inputs@.len() < 12 ==> r is None,
{
    if inputs.len() < NOTE_INPUT_COUNT {
        return None;
    }
    Some(BetInputs {
        round_id: inputs[0],
        player_num: inputs[1],
        h: inputs[2],
        g: inputs[3],
        player1: AccountIdParts { suffix: inputs[4], prefix: inputs[5] },
        player2: AccountIdParts { suffix: inputs[6], prefix: inputs[7] },
        house: AccountIdParts { suffix: inputs[8], prefix: inputs[9] },
        bet_value: inputs[10],
        expiry_block: inputs[11],
    })
}

/// Builds the twelve inputs of a bet note; integers are taken into the field.
pub fn make_note_inputs(
    round_id: u64,
    player_num: u64,
    h: u64,
    g: u64,
    p1: AccountIdParts,
    p2: AccountIdParts,
    house: AccountIdParts,
    bet_value: u64,
    expiry_block: u64,
) -> (r: Vec<u64>)
    ensures
        r@ == note_inputs_of(round_id, player_num, h, g, p1, p2, house, bet_value, expiry_block),
{
    let mut v: Vec<u64> = Vec::new();
    v.push(felt_new(round_id));
    v.push(felt_new(player_num));
    v.push(felt_new(h));
    v.push(felt_new(g));
    v.push(p1.suffix);
    v.push(p1.prefix);
    v.push(p2.suffix);
    v.push(p2.prefix);
    v.push(house.suffix);
    v.push(house.prefix);
    v.push(felt_new(bet_value));
    v.push(felt_new(expiry_block));
    assert(v@ =~= note_inputs_of(round_id, player_num, h, g, p1, p2, house, bet_value, expiry_block));
    v
}

/// Reading back inputs that were built from field elements gives the same parameters.
pub proof fn law_inputs_roundtrip(
    round_id: u64,
    player_num: u64,
    h: u64,
    g: u64,
    p1: AccountIdParts,
    p2: AccountIdParts,
    house: AccountIdParts,
    bet_value: u64,
    expiry_block: u64,
)
    requires
        is_felt(round_id),
        is_felt(player_num),
        is_felt(h),
        is_felt(g),
        is_felt(bet_value),
        is_felt(expiry_block),
    ensures
        note_inputs_of(round_id, player_num, h, g, p1, p2, house, bet_value, expiry_block).len() == 12,
        bet_inputs_of(note_inputs_of(round_id, player_num, h, g, p1, p2, house, bet_value, expiry_block))
            == (BetInputs { round_id, player_num, h, g, player1: p1, player2: p2, house, bet_value, expiry_block }),
{
}

/// The fixed layout of a bet note's inputs: element 0 is the round, 1 the
/// seat, 2 the fingers shown, 3 the guess, 4 and 5 player 1's id (suffix, then
/// prefix), 6 and 7 player 2's, 8 and 9 the house's, 10 the stake and 11 the
/// expiry block; each integer is reduced modulo the field prime.
pub proof fn law_note_inputs_layout(
    round_id: u64,
    player_num: u64,
    h: u64,
    g: u64,
    p1: AccountIdParts,
    p2: AccountIdParts,
    house: AccountIdParts,
    bet_value: u64,
    expiry_block: u64,
)
    ensures
        ({
            let s = note_inputs_of(round_id, player_num, h, g, p1, p2, house, bet_value, expiry_block);
            &&& s.len() == 12
            &&& s[0] == round_id % FELT_MODULUS
            &&& s[1] == player_num % FELT_MODULUS
            &&& s[2] == h % FELT_MODULUS
            &&& s[3] == g % FELT_MODULUS
            &&& s[4] == p1.suffix && s[5] == p1.prefix
            &&& s[6] == p2.suffix && s[7] == p2.prefix
            &&& s[8] == house.suffix && s[9] == house.prefix
            &&& s[10] == bet_value % FELT_MODULUS
            &&& s[11] == expiry_block % FELT_MODULUS
        }),
{
}

/// Reading a note's inputs takes the round from element 0, the seat from 1,
/// the fingers from 2, the guess from 3, the players' and the house's ids from
/// 4 to 9 (suffix, then prefix), the stake from 10 and the expiry from 11.
pub proof fn law_bet_inputs_layout(s: Seq<u64>)
    requires
        s.len() >= 12,
    ensures
        bet_inputs_of(s).round_id == s[0],
        bet_inputs_of(s).player_num == s[1],
        bet_inputs_of(s).h == s[2],
        bet_inputs_of(s).g == s[3],
        bet_inputs_of(s).player1 == (AccountIdParts { suffix: s[4], prefix: s[5] }),
        bet_inputs_of(s).player2 == (AccountIdParts { suffix: s[6], prefix: s[7] }),
        bet_inputs_of(s).house == (AccountIdParts { suffix: s[8], prefix: s[9] }),
        bet_inputs_of(s).bet_value == s[10],
        bet_inputs_of(s).expiry_block == s[11],
{
}

} // verus!
