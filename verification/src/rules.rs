//! The rules of Morra: legal moves, who wins, and what each player is paid.
use vstd::prelude::*;

verus! {

/// The most fingers a player may show.
pub const MAX_FINGERS: u64 = 3;

/// The highest total a player may guess.
pub const MAX_GUESS: u64 = 6;

/// The house keeps one part in this many of the pot.
pub const FEE_DIVISOR: u64 = 100;

/// A bet must be a multiple of this, so that the fee is a whole number.
pub const BET_UNIT: u64 = 50;

/// The result of a round.
#[derive(Clone, Copy, Debug, PartialEq, Eq, Structural)]
pub enum Outcome {
    Player1Wins,
    Player2Wins,
    Draw,
}

/// The player whose guess matches the total of shown fingers wins; if both
/// guesses match, or neither does, the round is a draw.
pub open spec fn outcome_of(h1: u64, g1: u64, h2: u64, g2: u64) -> Outcome {
    let p1_right = g1 == h1 + h2;
    let p2_right = g2 == h1 + h2;
    if p1_right && !p2_right {
        Outcome::Player1Wins
    } else if p2_right && !p1_right {
        Outcome::Player2Wins
    } else {
        Outcome::Draw
    }
}

/// The outcome seen from the other seat.
pub open spec fn swapped(o: Outcome) -> Outcome {
    match o {
        Outcome::Player1Wins => Outcome::Player2Wins,
        Outcome::Player2Wins => Outcome::Player1Wins,
        Outcome::Draw => Outcome::Draw,
    }
}

/// Decides a round from both players' fingers (`h`) and guesses (`g`).
pub fn round_outcome(h1: u64, g1: u64, h2: u64, g2: u64) -> (r: Outcome)
    ensures
        r == outcome_of(h1, g1, h2, g2),
{
    let p1_right = g1 >= h1 && g1 - h1 == h2;
    let p2_right = g2 >= h1 && g2 - h1 == h2;
    if p1_right && !p2_right {
        Outcome::Player1Wins
    } else if p2_right && !p1_right {
        Outcome::Player2Wins
    } else {
        Outcome::Draw
    }
}

/// Both stakes together.
pub open spec fn total_pot(bet_value: int) -> int {
    2 * bet_value
}

/// One percent of the pot, rounded down.
pub open spec fn house_fee(bet_value: int) -> int {
    total_pot(bet_value) / FEE_DIVISOR as int
}

/// What a sole winner receives: the pot less the fee.
pub open spec fn winner_payout(bet_value: int) -> int {
    total_pot(bet_value) - house_fee(bet_value)
}

/// What each player receives on a draw: half the winner's payout, rounded down.
pub open spec fn draw_payout(bet_value: int) -> int {
    winner_payout(bet_value) / 2
}

/// The amounts of a round with a given stake.
#[derive(Clone, Copy, Debug, PartialEq, Eq, Structural)]
pub struct PayoutSchedule {
    pub total_pot: u64,
    pub fee: u64,
    pub winner_payout: u64,
    pub draw_payout: u64,
}

/// Computes the pot, fee and payouts for a stake of `bet_value` per player.
pub fn payout_schedule(bet_value: u64) -> (r: PayoutSchedule)
    requires
        bet_value <= u64::MAX / 2,
    ensures
        r.total_pot == total_pot(bet_value as int),
        r.fee == house_fee(bet_value as int),
        r.winner_payout == winner_payout(bet_value as int),
        r.draw_payout == draw_payout(bet_value as int),
{
    let pot = bet_value * 2;
    let fee = pot / FEE_DIVISOR;
    let winner = pot - fee;
    PayoutSchedule { total_pot: pot, fee, winner_payout: winner, draw_payout: winner / 2 }
}

/// Why a player's bet parameters were refused.
#[derive(Clone, Copy, Debug, PartialEq, Eq, Structural)]
pub enum BetParamError {
    InvalidPlayerNum,
    InvalidFingers,
    InvalidGuess,
    BetNotDivisible,
}

/// The first rule, in this order, that a player's parameters break, if any.
pub open spec fn bet_params_check(player_num: u64, h: u64, g: u64, bet_value: u64) -> Result<(), BetParamError> {
    if !(player_num == 1 || player_num == 2) {
        Err(BetParamError::InvalidPlayerNum)
    } else if h > MAX_FINGERS {
        Err(BetParamError::InvalidFingers)
    } else if g > MAX_GUESS {
        Err(BetParamError::InvalidGuess)
    } else if bet_value % BET_UNIT != 0 {
        Err(BetParamError::BetNotDivisible)
    } else {
        Ok(())
    }
}

/// Checks a player's seat (1 or 2), fingers (0–3), guess (0–6) and stake
/// (a multiple of 50) before a bet is published.
pub fn validate_bet_params(player_num: u64, h: u64, g: u64, bet_value: u64) -> (r: Result<(), BetParamError>)
    ensures
        r == bet_params_check(player_num, h, g, bet_value),
{
    if !(player_num == 1 || player_num == 2) {
        Err(BetParamError::InvalidPlayerNum)
    } else if h > MAX_FINGERS {
        Err(BetParamError::InvalidFingers)
    } else if g > MAX_GUESS {
        Err(BetParamError::InvalidGuess)
    } else if bet_value % BET_UNIT != 0 {
        Err(BetParamError::BetNotDivisible)
    } else {
        Ok(())
    }
}

/// Swapping the two seats swaps the winner; a draw stays a draw.
pub proof fn law_outcome_symmetric(h1: u64, g1: u64, h2: u64, g2: u64)
    ensures
        outcome_of(h2, g2, h1, g1) == swapped(outcome_of(h1, g1, h2, g2)),
{
}

/// A sole winner's payout and the house fee add up to the pot exactly.
pub proof fn law_winner_payout_conserves_pot(bet_value: int)
    requires
        bet_value >= 0,
    ensures
        winner_payout(bet_value) + house_fee(bet_value) == total_pot(bet_value),
        0 <= house_fee(bet_value) <= winner_payout(bet_value),
{
}

/// On a draw the two payouts and the fee account for the pot, with at most
/// one unit of rounding left to the house.
pub proof fn law_draw_payouts_conserve_pot(bet_value: int)
    requires
        bet_value >= 0,
    ensures
        2 * draw_payout(bet_value) + house_fee(bet_value) + winner_payout(bet_value) % 2 == total_pot(bet_value),
        0 <= total_pot(bet_value) - (2 * draw_payout(bet_value) + house_fee(bet_value)) <= 1,
{
}

/// With a stake that is a multiple of 50 the fee is exactly one percent of the pot.
pub proof fn law_fee_exact(bet_value: int)
    requires
        bet_value >= 0,
        bet_value % BET_UNIT as int == 0,
    ensures
        house_fee(bet_value) * FEE_DIVISOR as int == total_pot(bet_value),
{
    let k = bet_value / 50;
    assert(bet_value == 50 * k);
    assert(total_pot(bet_value) == 100 * k);
    assert((100 * k) / 100 == k) by (nonlinear_arith)
        requires k >= 0;
}

/// A player's bet is accepted exactly when the seat is 1 or 2, at most three
/// fingers are shown, the guess is at most six and the stake is a multiple of
/// 50; every guess from 0 to 6 is legal whatever the fingers.
pub proof fn law_bet_params_accepted_iff(player_num: u64, h: u64, g: u64, bet_value: u64)
    ensures
        (bet_params_check(player_num, h, g, bet_value) is Ok)
            == ((player_num == 1 || player_num == 2) && h <= 3 && g <= 6 && bet_value % 50 == 0),
{
}

} // verus!
