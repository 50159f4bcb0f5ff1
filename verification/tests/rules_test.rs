use alla_morra::rules::{payout_schedule, round_outcome, validate_bet_params, BetParamError, Outcome};

#[test]
fn outcomes_follow_the_rules() {
    assert_eq!(round_outcome(1, 2, 1, 0), Outcome::Player1Wins);
    assert_eq!(round_outcome(1, 0, 1, 2), Outcome::Player2Wins);
    assert_eq!(round_outcome(1, 2, 1, 2), Outcome::Draw);
    assert_eq!(round_outcome(1, 0, 1, 1), Outcome::Draw);
    assert_eq!(round_outcome(3, 6, 3, 5), Outcome::Player1Wins);
    assert_eq!(round_outcome(0, 0, 0, 1), Outcome::Player1Wins);
    // guesses below the first player's fingers never match
    assert_eq!(round_outcome(3, 1, 0, 3), Outcome::Player2Wins);
    // no overflow on huge values
    assert_eq!(round_outcome(u64::MAX, 0, u64::MAX, 0), Outcome::Draw);
}

#[test]
fn swapping_seats_swaps_the_winner() {
    for (h1, g1, h2, g2) in [(1, 2, 1, 0), (2, 5, 3, 4), (0, 0, 0, 0), (3, 3, 0, 3)] {
        let a = round_outcome(h1, g1, h2, g2);
        let b = round_outcome(h2, g2, h1, g1);
        let swapped = match a {
            Outcome::Player1Wins => Outcome::Player2Wins,
            Outcome::Player2Wins => Outcome::Player1Wins,
            Outcome::Draw => Outcome::Draw,
        };
        assert_eq!(b, swapped);
    }
}

#[test]
fn payouts_of_one_token() {
    let s = payout_schedule(1_000_000);
    assert_eq!(s.total_pot, 2_000_000);
    assert_eq!(s.fee, 20_000);
    assert_eq!(s.winner_payout, 1_980_000);
    assert_eq!(s.draw_payout, 990_000);
    assert_eq!(s.winner_payout + s.fee, s.total_pot);
    assert_eq!(2 * s.draw_payout + s.fee, s.total_pot);
}

#[test]
fn payouts_with_rounding() {
    let s = payout_schedule(50);
    assert_eq!((s.total_pot, s.fee, s.winner_payout, s.draw_payout), (100, 1, 99, 49));
    let s = payout_schedule(75);
    assert_eq!((s.total_pot, s.fee, s.winner_payout, s.draw_payout), (150, 1, 149, 74));
    assert_eq!(s.fee * 100 == s.total_pot, false);
}

#[test]
fn bet_parameters_checked_in_order() {
    assert_eq!(validate_bet_params(1, 0, 0, 50), Ok(()));
    assert_eq!(validate_bet_params(3, 9, 9, 1), Err(BetParamError::InvalidPlayerNum));
    assert_eq!(validate_bet_params(0, 0, 0, 50), Err(BetParamError::InvalidPlayerNum));
    assert_eq!(validate_bet_params(1, 4, 9, 1), Err(BetParamError::InvalidFingers));
    assert_eq!(validate_bet_params(2, 3, 7, 1), Err(BetParamError::InvalidGuess));
    assert_eq!(validate_bet_params(2, 3, 6, 1_000_001), Err(BetParamError::BetNotDivisible));
}
