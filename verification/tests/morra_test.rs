use alla_morra::asset::{AccountIdParts, AssetError, FungibleAsset};
use alla_morra::bet_note::{execute_house_transaction, BetNote, Wallet};
use alla_morra::error::NoteError;
use alla_morra::felt::Word;
use alla_morra::house::HouseAccount;
use alla_morra::inputs::make_note_inputs;

/// Script root of the P2ID notes the house pays out with.
const P2ID_ROOT: Word = Word { w0: 0x0a1b_2c3d_4e5f_6071, w1: 0x1122_3344_5566_7788, w2: 0x0fed_cba9_8765_4321, w3: 0x7777_0000_1111_2222 };

// ── Helpers ────────────────────────────────────────────────────────────────────

/// Shared test setup: the house, both players and the faucet of the stake.
struct TestSetup {
    house: HouseAccount,
    player1: AccountIdParts,
    player2: AccountIdParts,
    house_id: AccountIdParts,
    faucet: AccountIdParts,
}

fn setup() -> TestSetup {
    let player1 = AccountIdParts { suffix: 0x1a2b_3c4d_5e6f_7800, prefix: 0x9a00_0000_0000_0011 };
    let player2 = AccountIdParts { suffix: 0x0102_0304_0506_0700, prefix: 0x9b00_0000_0000_0022 };
    let house_id = AccountIdParts { suffix: 0x0303_0303_0303_0300, prefix: 0x1c00_0000_0000_0033 };
    let faucet = AccountIdParts { suffix: 0x0f0e_0d0c_0b0a_0900, prefix: 0x2d00_0000_0000_0044 };
    TestSetup { house: HouseAccount::new(house_id, P2ID_ROOT), player1, player2, house_id, faucet }
}

/// Creates both bet notes for a round.
fn make_bet_notes(
    setup: &TestSetup,
    round_id: u64,
    h1: u64,
    g1: u64,
    h2: u64,
    g2: u64,
    bet_value: u64,
    expiry_block: u64,
) -> Result<(BetNote, BetNote), AssetError> {
    let asset1 = FungibleAsset::new(setup.faucet, bet_value)?;
    let asset2 = FungibleAsset::new(setup.faucet, bet_value)?;
    let inputs1 = make_note_inputs(
        round_id, 1, h1, g1, setup.player1, setup.player2, setup.house_id, bet_value, expiry_block,
    );
    let inputs2 = make_note_inputs(
        round_id, 2, h2, g2, setup.player1, setup.player2, setup.house_id, bet_value, expiry_block,
    );
    Ok((BetNote::new(inputs1, vec![asset1]), BetNote::new(inputs2, vec![asset2])))
}

// ── Happy-path tests ───────────────────────────────────────────────────────────

const BET_VALUE: u64 = 1_000_000; // 1 MIDEN (divisible by 50)
const EXPIRY: u64 = 9999;
/// The reference block of a transaction on a fresh chain.
const GENESIS_BLOCK: u64 = 0;

fn expected_winner_payout(bv: u64) -> u64 {
    let pot = bv * 2;
    pot - pot / 100
}

fn expected_draw_payout(bv: u64) -> u64 {
    expected_winner_payout(bv) / 2
}

/// h1=1, g1=2, h2=1, g2=0 → total=2 → P1 wins
#[test]
fn p1_wins() {
    let mut s = setup();
    let (n1, n2) = make_bet_notes(&s, 1, 1, 2, 1, 0, BET_VALUE, EXPIRY).unwrap();
    let output_notes = execute_house_transaction(&mut s.house, &vec![n1, n2], GENESIS_BLOCK).unwrap();
    assert_eq!(output_notes.len(), 1, "expected 1 payout note for P1 win");
    let payout = expected_winner_payout(BET_VALUE);
    assert_eq!(output_notes[0].asset.amount, payout, "incorrect winner payout");
    assert_eq!(output_notes[0].recipient, s.player1);
}

/// h1=1, g1=0, h2=1, g2=2 → total=2 → P2 wins
#[test]
fn p2_wins() {
    let mut s = setup();
    let (n1, n2) = make_bet_notes(&s, 2, 1, 0, 1, 2, BET_VALUE, EXPIRY).unwrap();
    let output_notes = execute_house_transaction(&mut s.house, &vec![n1, n2], GENESIS_BLOCK).unwrap();
    assert_eq!(output_notes.len(), 1, "expected 1 payout note for P2 win");
    let payout = expected_winner_payout(BET_VALUE);
    assert_eq!(output_notes[0].asset.amount, payout, "incorrect winner payout");
    assert_eq!(output_notes[0].recipient, s.player2);
}

/// h1=1, g1=2, h2=1, g2=2 → total=2 → both correct → draw
#[test]
fn draw_both_correct() {
    let mut s = setup();
    let (n1, n2) = make_bet_notes(&s, 3, 1, 2, 1, 2, BET_VALUE, EXPIRY).unwrap();
    let output_notes = execute_house_transaction(&mut s.house, &vec![n1, n2], GENESIS_BLOCK).unwrap();
    assert_eq!(output_notes.len(), 2, "expected 2 payout notes for draw");
    let payout = expected_draw_payout(BET_VALUE);
    for note in &output_notes {
        assert_eq!(note.asset.amount, payout, "incorrect draw payout");
    }
}

/// h1=1, g1=0, h2=1, g2=1 → total=2 → both wrong → draw
#[test]
fn draw_both_wrong() {
    let mut s = setup();
    let (n1, n2) = make_bet_notes(&s, 4, 1, 0, 1, 1, BET_VALUE, EXPIRY).unwrap();
    let output_notes = execute_house_transaction(&mut s.house, &vec![n1, n2], GENESIS_BLOCK).unwrap();
    assert_eq!(output_notes.len(), 2, "expected 2 payout notes for draw");
    let payout = expected_draw_payout(BET_VALUE);
    for note in &output_notes {
        assert_eq!(note.asset.amount, payout, "incorrect draw payout");
    }
}

// ── Failure tests ──────────────────────────────────────────────────────────────

/// h=4 is invalid — tx must fail
#[test]
fn invalid_h() {
    let mut s = setup();
    let (n1, n2) = make_bet_notes(&s, 10, 4, 0, 1, 0, BET_VALUE, EXPIRY).unwrap(); // h1=4 invalid
    let result = execute_house_transaction(&mut s.house, &vec![n1, n2], GENESIS_BLOCK);
    assert!(result.is_err(), "tx should fail for h=4");
    assert_eq!(result, Err(NoteError::InvalidFingers));
}

/// g=7 is invalid — tx must fail
#[test]
fn invalid_g() {
    let mut s = setup();
    let (n1, n2) = make_bet_notes(&s, 11, 1, 7, 1, 0, BET_VALUE, EXPIRY).unwrap(); // g1=7 invalid
    let result = execute_house_transaction(&mut s.house, &vec![n1, n2], GENESIS_BLOCK);
    assert!(result.is_err(), "tx should fail for g=7");
    assert_eq!(result, Err(NoteError::InvalidGuess));
}

/// player_num=7 is invalid — tx must fail
#[test]
fn invalid_player_num() {
    let mut s = setup();
    let asset = FungibleAsset::new(s.faucet, BET_VALUE).unwrap();
    let (p1, p2, hs) = (s.player1, s.player2, s.house_id);
    let bad_inputs = vec![
        12, 7, // round_id=12, player_num=7 (invalid)
        1, 2,
        p1.suffix, p1.prefix, p2.suffix, p2.prefix, hs.suffix, hs.prefix,
        BET_VALUE, EXPIRY,
    ];
    let bad_note = BetNote::new(bad_inputs, vec![asset]);
    let result = execute_house_transaction(&mut s.house, &vec![bad_note], GENESIS_BLOCK);
    assert!(result.is_err(), "tx should fail for player_num=7");
    assert_eq!(result, Err(NoteError::InvalidPlayerNum));
}

/// Player reclaims their own note after expiry_block
#[test]
fn expiry_recall() {
    let s = setup();
    // Set expiry to block 1 (already passed: the chain is at block 2)
    let (n1, _n2) = make_bet_notes(&s, 20, 1, 2, 1, 0, BET_VALUE, 1).unwrap();
    let mut wallet = Wallet::new(s.player1);
    // Player1 consumes their own note (recall path); the stake goes straight to the vault
    let result = wallet.recall_bet(&n1, 2);
    assert!(result.is_ok(), "recall should succeed after expiry");
    assert_eq!(wallet.balance(s.faucet), BET_VALUE);
}

/// Second settlement attempt on the same round must fail
#[test]
fn double_settlement() {
    let mut s = setup();
    let (n1, n2) = make_bet_notes(&s, 30, 1, 2, 1, 0, BET_VALUE, EXPIRY).unwrap();
    // First settlement succeeds
    let first = execute_house_transaction(&mut s.house, &vec![n1, n2], GENESIS_BLOCK);
    assert!(first.is_ok());
    // A duplicate round with the same round_id (settled flag = 1)
    let (n3, n4) = make_bet_notes(&s, 30, 1, 2, 1, 0, BET_VALUE, EXPIRY).unwrap();
    let result = execute_house_transaction(&mut s.house, &vec![n3, n4], GENESIS_BLOCK + 1);
    assert!(result.is_err(), "second settlement for same round_id must fail");
    assert_eq!(result, Err(NoteError::RoundSettled));
}

/// Notes with different faucet IDs must fail cross-validation
#[test]
fn faucet_mismatch() {
    let mut s = setup();
    // A second faucet
    let faucet2 = AccountIdParts { suffix: 0x0a0b_0c0d_0e0f_1000, prefix: 0x2e00_0000_0000_0055 };
    let asset1 = FungibleAsset::new(s.faucet, BET_VALUE).unwrap();
    let asset2 = FungibleAsset::new(faucet2, BET_VALUE).unwrap();
    let (p1_id, p2_id, house_id) = (s.player1, s.player2, s.house_id);
    let inputs1 = make_note_inputs(40, 1, 1, 2, p1_id, p2_id, house_id, BET_VALUE, EXPIRY);
    let inputs2 = make_note_inputs(40, 2, 1, 0, p1_id, p2_id, house_id, BET_VALUE, EXPIRY);
    let n1 = BetNote::new(inputs1, vec![asset1]);
    let n2 = BetNote::new(inputs2, vec![asset2]);
    let result = execute_house_transaction(&mut s.house, &vec![n1, n2], GENESIS_BLOCK);
    assert!(result.is_err(), "faucet mismatch must cause tx failure");
    assert_eq!(result, Err(NoteError::FaucetMismatch));
}
