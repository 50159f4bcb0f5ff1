use alla_morra::asset::{AccountIdParts, AssetError, FungibleAsset, MAX_FUNGIBLE_AMOUNT};
use alla_morra::bet_note::{execute_house_transaction, BetNote, Wallet};
use alla_morra::error::NoteError;
use alla_morra::felt::Word;
use alla_morra::house::{HouseAccount, NoteType, PAYOUT_TAG};
use alla_morra::inputs::{make_note_inputs, read_bet_inputs};
use alla_morra::rules::validate_bet_params;

const P1: AccountIdParts = AccountIdParts { suffix: 0x1a2b_3c4d_5e6f_7800, prefix: 0x9a00_0000_0000_0011 };
const P2: AccountIdParts = AccountIdParts { suffix: 0x0102_0304_0506_0700, prefix: 0x9b00_0000_0000_0022 };
const HOUSE: AccountIdParts = AccountIdParts { suffix: 0x0303_0303_0303_0300, prefix: 0x1c00_0000_0000_0033 };
const FAUCET: AccountIdParts = AccountIdParts { suffix: 0x0f0e_0d0c_0b0a_0900, prefix: 0x2d00_0000_0000_0044 };
const P2ID_ROOT: Word = Word { w0: 0x0a1b_2c3d_4e5f_6071, w1: 0x1122_3344_5566_7788, w2: 0x0fed_cba9_8765_4321, w3: 0x7777_0000_1111_2222 };
const BET: u64 = 1_000_000;
const EXPIRY: u64 = 100;

fn note(round: u64, seat: u64, h: u64, g: u64, bet: u64, expiry: u64) -> BetNote {
    let asset = FungibleAsset::new(FAUCET, bet).unwrap();
    BetNote::new(make_note_inputs(round, seat, h, g, P1, P2, HOUSE, bet, expiry), vec![asset])
}

fn field_snapshot(house: &HouseAccount, round: u64) -> Vec<u64> {
    let mut v = Vec::new();
    for seat in 1..=2u64 {
        v.push(house.is_player_registered(round, seat));
        v.push(house.get_player_h(round, seat));
        v.push(house.get_player_g(round, seat));
        v.push(house.get_player_faucet_suffix(round, seat));
        v.push(house.get_player_faucet_prefix(round, seat));
        v.push(house.get_player_bet_value(round, seat));
        v.push(house.get_player_id_xor_s(round, seat));
        v.push(house.get_player_id_xor_p(round, seat));
    }
    v.push(house.is_round_settled(round));
    v.push(house.vault_balance(FAUCET));
    v
}

#[test]
fn either_order_settles_the_same() {
    let mut a = HouseAccount::new(HOUSE, P2ID_ROOT);
    let mut b = HouseAccount::new(HOUSE, P2ID_ROOT);
    let out_a = execute_house_transaction(&mut a, &vec![note(5, 1, 2, 3, BET, EXPIRY), note(5, 2, 1, 4, BET, EXPIRY)], 7).unwrap();
    let out_b = execute_house_transaction(&mut b, &vec![note(5, 2, 1, 4, BET, EXPIRY), note(5, 1, 2, 3, BET, EXPIRY)], 7).unwrap();
    assert_eq!(out_a, out_b);
    assert_eq!(field_snapshot(&a, 5), field_snapshot(&b, 5));
    assert_eq!(out_a.len(), 1);
    assert_eq!(out_a[0].recipient, P1);
    assert_eq!(out_a[0].serial, Word::new(5, 1, 0, 0));
}

#[test]
fn settled_round_keeps_the_fee() {
    let mut house = HouseAccount::new(HOUSE, P2ID_ROOT);
    let out = execute_house_transaction(&mut house, &vec![note(6, 1, 0, 3, BET, EXPIRY), note(6, 2, 3, 3, BET, EXPIRY)], 0).unwrap();
    // both guessed 3 with 0 + 3 fingers: a draw, 990_000 each
    assert_eq!(out.len(), 2);
    assert_eq!(out[0].asset.amount, 990_000);
    assert_eq!(out[1].asset.amount, 990_000);
    assert_eq!(out[0].recipient, P1);
    assert_eq!(out[1].recipient, P2);
    assert_eq!(house.vault_balance(FAUCET), 20_000);
    assert_eq!(house.is_round_settled(6), 1);
    for seat in 1..=2u64 {
        assert_eq!(house.is_player_registered(6, seat), 0);
        assert_eq!(house.get_player_h(6, seat), 0);
        assert_eq!(house.get_player_bet_value(6, seat), 0);
    }
}

#[test]
fn odd_winner_payout_leaves_one_unit_to_the_house() {
    let mut house = HouseAccount::new(HOUSE, P2ID_ROOT);
    // stake 50: pot 100, fee 1, winner payout 99, draw payout 49 each
    let out = execute_house_transaction(&mut house, &vec![note(7, 1, 1, 0, 50, EXPIRY), note(7, 2, 1, 0, 50, EXPIRY)], 0).unwrap();
    assert_eq!(out.len(), 2);
    assert_eq!(out[0].asset.amount, 49);
    assert_eq!(house.vault_balance(FAUCET), 2);
}

#[test]
fn first_note_only_registers() {
    let mut house = HouseAccount::new(HOUSE, P2ID_ROOT);
    let out = execute_house_transaction(&mut house, &vec![note(8, 2, 3, 5, BET, EXPIRY)], 0).unwrap();
    assert!(out.is_empty());
    assert_eq!(house.is_player_registered(8, 2), 1);
    assert_eq!(house.get_player_h(8, 2), 3);
    assert_eq!(house.get_player_g(8, 2), 5);
    assert_eq!(house.get_player_faucet_suffix(8, 2), FAUCET.suffix);
    assert_eq!(house.get_player_faucet_prefix(8, 2), FAUCET.prefix);
    assert_eq!(house.get_player_bet_value(8, 2), BET);
    assert_eq!(house.get_player_id_xor_s(8, 2), P1.suffix ^ P2.suffix);
    assert_eq!(house.get_player_id_xor_p(8, 2), P1.prefix ^ P2.prefix);
    assert_eq!(house.is_round_settled(8), 0);
    assert_eq!(house.vault_balance(FAUCET), BET);
    // the opponent's note, in a later transaction, settles the round
    let out = execute_house_transaction(&mut house, &vec![note(8, 1, 2, 5, BET, EXPIRY)], 1).unwrap();
    assert_eq!(out.len(), 2); // both guessed 5: draw
    assert_eq!(house.is_player_registered(8, 2), 0);
    assert_eq!(house.is_round_settled(8), 1);
}

#[test]
fn house_refunds_after_expiry() {
    let mut house = HouseAccount::new(HOUSE, P2ID_ROOT);
    let out = execute_house_transaction(&mut house, &vec![note(9, 2, 1, 2, BET, EXPIRY)], EXPIRY + 1).unwrap();
    assert_eq!(out.len(), 1);
    assert_eq!(out[0].recipient, P2);
    assert_eq!(out[0].asset, FungibleAsset { faucet: FAUCET, amount: BET });
    assert_eq!(out[0].serial, Word::new(9, 3, 0, 0));
    assert_eq!(out[0].script_root, P2ID_ROOT);
    assert_eq!(house.vault_balance(FAUCET), 0);
    assert_eq!(house.is_player_registered(9, 2), 0);
}

#[test]
fn settled_round_refuses_late_notes() {
    let mut house = HouseAccount::new(HOUSE, P2ID_ROOT);
    execute_house_transaction(&mut house, &vec![note(10, 1, 1, 2, BET, EXPIRY), note(10, 2, 1, 0, BET, EXPIRY)], 0).unwrap();
    let r = execute_house_transaction(&mut house, &vec![note(10, 2, 0, 0, BET, EXPIRY)], 1);
    assert_eq!(r, Err(NoteError::RoundSettled));
    // after expiry the late note is refunded instead
    let r = execute_house_transaction(&mut house, &vec![note(10, 2, 0, 0, BET, EXPIRY)], EXPIRY + 1);
    assert_eq!(r.unwrap().len(), 1);
}

#[test]
fn failed_transaction_changes_nothing() {
    let mut house = HouseAccount::new(HOUSE, P2ID_ROOT);
    let before = field_snapshot(&house, 11);
    // first note registers, second has an illegal guess: all is void
    let r = execute_house_transaction(&mut house, &vec![note(11, 1, 1, 2, BET, EXPIRY), note(11, 2, 1, 9, BET, EXPIRY)], 0);
    assert_eq!(r, Err(NoteError::InvalidGuess));
    assert_eq!(field_snapshot(&house, 11), before);
}

#[test]
fn malformed_inputs_refused() {
    let mut house = HouseAccount::new(HOUSE, P2ID_ROOT);
    let mut inputs = make_note_inputs(12, 1, 1, 2, P1, P2, HOUSE, BET, EXPIRY);
    inputs.pop();
    let n = BetNote::new(inputs, vec![FungibleAsset::new(FAUCET, BET).unwrap()]);
    assert_eq!(execute_house_transaction(&mut house, &vec![n], 0), Err(NoteError::MalformedInputs));
}

#[test]
fn asset_count_and_amount_checked() {
    let mut house = HouseAccount::new(HOUSE, P2ID_ROOT);
    let inputs = make_note_inputs(13, 1, 1, 2, P1, P2, HOUSE, BET, EXPIRY);
    let none = BetNote::new(inputs.clone(), vec![]);
    assert_eq!(execute_house_transaction(&mut house, &vec![none], 0), Err(NoteError::WrongAssetCount));
    let asset = FungibleAsset::new(FAUCET, BET).unwrap();
    let two = BetNote::new(inputs.clone(), vec![asset, asset]);
    assert_eq!(execute_house_transaction(&mut house, &vec![two], 0), Err(NoteError::WrongAssetCount));
    let short = BetNote::new(inputs, vec![FungibleAsset::new(FAUCET, BET - 50).unwrap()]);
    assert_eq!(execute_house_transaction(&mut house, &vec![short], 0), Err(NoteError::WrongBetAmount));
}

#[test]
fn only_the_named_house_consumes() {
    let mut other = HouseAccount::new(P1, P2ID_ROOT);
    let r = execute_house_transaction(&mut other, &vec![note(14, 1, 1, 2, BET, EXPIRY)], 0);
    assert_eq!(r, Err(NoteError::Unauthorized));
}

#[test]
fn vault_overflow_refused() {
    let mut house = HouseAccount::new(HOUSE, P2ID_ROOT);
    let big = MAX_FUNGIBLE_AMOUNT - 1;
    let n1 = note(15, 1, 1, 2, big, EXPIRY);
    let n2 = note(15, 2, 1, 0, big, EXPIRY);
    assert_eq!(execute_house_transaction(&mut house, &vec![n1, n2], 0), Err(NoteError::VaultOverflow));
}

#[test]
fn mismatched_stake_refused() {
    let mut house = HouseAccount::new(HOUSE, P2ID_ROOT);
    let r = execute_house_transaction(&mut house, &vec![note(16, 1, 1, 2, BET, EXPIRY), note(16, 2, 1, 0, 2 * BET, EXPIRY)], 0);
    assert_eq!(r, Err(NoteError::BetValueMismatch));
}

#[test]
fn mismatched_players_refused() {
    let mut house = HouseAccount::new(HOUSE, P2ID_ROOT);
    let n1 = note(17, 1, 1, 2, BET, EXPIRY);
    let stranger = AccountIdParts { suffix: 0x7777_0000_0000_0000, prefix: 0x4400_0000_0000_0001 };
    let asset = FungibleAsset::new(FAUCET, BET).unwrap();
    let n2 = BetNote::new(make_note_inputs(17, 2, 1, 0, P1, stranger, HOUSE, BET, EXPIRY), vec![asset]);
    let r = execute_house_transaction(&mut house, &vec![n1, n2], 0);
    assert_eq!(r, Err(NoteError::CommitmentMismatch));
}

#[test]
fn payout_note_needs_funds_and_a_valid_amount() {
    let mut house = HouseAccount::new(HOUSE, P2ID_ROOT);
    assert_eq!(
        house.create_payout_note(1, 1, 0, 0, 10, FAUCET.suffix, FAUCET.prefix, P1.suffix, P1.prefix),
        Err(NoteError::InsufficientFunds)
    );
    assert_eq!(
        house.create_payout_note(1, 1, 0, 0, MAX_FUNGIBLE_AMOUNT + 1, FAUCET.suffix, FAUCET.prefix, P1.suffix, P1.prefix),
        Err(NoteError::InvalidAsset)
    );
    house.receive_asset(25, 0, FAUCET.suffix, FAUCET.prefix).unwrap();
    let n = house.create_payout_note(1, 2, 3, 4, 10, FAUCET.suffix, FAUCET.prefix, P1.suffix, P1.prefix).unwrap();
    assert_eq!(n.serial, Word::new(1, 2, 3, 4));
    assert_eq!(n.recipient, P1);
    assert_eq!(n.asset.amount, 10);
    assert_eq!(house.vault_balance(FAUCET), 15);
}

#[test]
fn storage_read_after_write() {
    let mut house = HouseAccount::new(HOUSE, P2ID_ROOT);
    house.store_player_bet(3, 1, 2, 5, 11, 12);
    house.store_player_round_params(3, 1, 500, 13, 14);
    assert_eq!(house.get_player_h(3, 1), 2);
    assert_eq!(house.get_player_g(3, 1), 5);
    assert_eq!(house.is_player_registered(3, 1), 1);
    assert_eq!(house.get_player_faucet_suffix(3, 1), 11);
    assert_eq!(house.get_player_faucet_prefix(3, 1), 12);
    assert_eq!(house.get_player_bet_value(3, 1), 500);
    assert_eq!(house.get_player_id_xor_s(3, 1), 13);
    assert_eq!(house.get_player_id_xor_p(3, 1), 14);
    assert_eq!(house.get_player_h(3, 2), 0);
    house.mark_round_settled(3);
    house.clear_player_bet(3, 1);
    assert_eq!(house.get_player_h(3, 1), 0);
    assert_eq!(house.get_player_id_xor_p(3, 1), 0);
    assert_eq!(house.is_round_settled(3), 1);
}

#[test]
fn player_recall_rules() {
    let n = note(18, 2, 1, 2, BET, EXPIRY);
    let mut stranger = Wallet::new(P1);
    assert_eq!(stranger.recall_bet(&n, EXPIRY + 1), Err(NoteError::Unauthorized));
    let mut owner = Wallet::new(P2);
    assert_eq!(owner.recall_bet(&n, EXPIRY), Err(NoteError::NotExpired));
    assert_eq!(owner.balance(FAUCET), 0);
    assert_eq!(owner.recall_bet(&n, EXPIRY + 1), Ok(()));
    assert_eq!(owner.balance(FAUCET), BET);
}

#[test]
fn published_bet_reads_back() {
    assert_eq!(validate_bet_params(2, 3, 6, 1_000_000), Ok(()));
    let inputs = make_note_inputs(42, 2, 3, 6, P1, P2, HOUSE, 1_000_000, 999_999);
    assert_eq!(inputs.len(), 12);
    let b = read_bet_inputs(&inputs).unwrap();
    assert_eq!((b.round_id, b.player_num, b.h, b.g, b.bet_value, b.expiry_block), (42, 2, 3, 6, 1_000_000, 999_999));
    assert_eq!((b.player1, b.player2, b.house), (P1, P2, HOUSE));
    let n = BetNote::new(inputs, vec![FungibleAsset::new(FAUCET, 1_000_000).unwrap()]);
    assert_eq!(n.check_bet(), Ok((b, FungibleAsset { faucet: FAUCET, amount: 1_000_000 })));
    assert!(read_bet_inputs(&[1, 2, 3]).is_none());
}

#[test]
fn note_inputs_are_field_elements() {
    let inputs = make_note_inputs(u64::MAX, 1, 2, 3, P1, P2, HOUSE, 0xffff_ffff_0000_0001, 5);
    assert_eq!(inputs[0], 0xffff_fffe); // 2^64 - 1 reduced modulo p
    assert_eq!(inputs[10], 0);
    assert_eq!(inputs[11], 5);
}

#[test]
fn asset_amount_bounded() {
    assert_eq!(FungibleAsset::new(FAUCET, MAX_FUNGIBLE_AMOUNT + 1), Err(AssetError::AmountTooLarge));
    assert_eq!(FungibleAsset::new(FAUCET, MAX_FUNGIBLE_AMOUNT).unwrap().amount, MAX_FUNGIBLE_AMOUNT);
    assert_eq!(FungibleAsset::new(FAUCET, 7).unwrap().to_word(), Word::new(7, 0, FAUCET.suffix, FAUCET.prefix));
}

#[test]
fn payout_notes_carry_the_p2id_root() {
    let mut house = HouseAccount::new(HOUSE, P2ID_ROOT);
    let out = execute_house_transaction(&mut house, &vec![note(12, 1, 0, 3, BET, EXPIRY), note(12, 2, 3, 3, BET, EXPIRY)], 0).unwrap();
    assert_eq!(out.len(), 2);
    assert_eq!(out[0].script_root, P2ID_ROOT);
    assert_eq!(out[1].script_root, P2ID_ROOT);
    assert_eq!(out[0].note_type, NoteType::Private);
    assert_eq!(out[1].note_type, NoteType::Private);
    assert_eq!(out[0].tag, 0);
    assert_eq!(out[1].tag, PAYOUT_TAG);
}

#[test]
fn notes_with_different_expiry_blocks_settle() {
    let mut house = HouseAccount::new(HOUSE, P2ID_ROOT);
    let out = execute_house_transaction(&mut house, &vec![note(13, 1, 2, 3, BET, 50), note(13, 2, 1, 4, BET, 80)], 40).unwrap();
    assert_eq!(out.len(), 1);
    assert_eq!(out[0].recipient, P1);
    assert_eq!(out[0].asset.amount, 1_980_000);
    assert_eq!(house.is_round_settled(13), 1);
    assert_eq!(house.is_player_registered(13, 1), 0);
    assert_eq!(house.vault_balance(FAUCET), 20_000);
}

#[test]
fn settled_flag_survives_later_calls() {
    let mut house = HouseAccount::new(HOUSE, P2ID_ROOT);
    assert_eq!(house.is_round_settled(14), 0);
    house.mark_round_settled(14);
    house.store_player_bet(14, 0, 1, 2, 3, 4);
    house.store_player_round_params(14, 0, 5, 6, 7);
    house.clear_player_bet(14, 0);
    house.clear_player_bet(14, 1);
    assert_eq!(house.is_round_settled(14), 1);
    assert_eq!(house.is_round_settled(15), 0);
}

#[test]
fn registration_follows_the_last_store_or_clear() {
    let mut house = HouseAccount::new(HOUSE, P2ID_ROOT);
    assert_eq!(house.is_player_registered(16, 1), 0);
    house.store_player_bet(16, 1, 1, 2, 3, 4);
    assert_eq!(house.is_player_registered(16, 1), 1);
    assert_eq!(house.is_player_registered(16, 2), 0);
    house.clear_player_bet(16, 1);
    assert_eq!(house.is_player_registered(16, 1), 0);
    house.store_player_bet(16, 1, 0, 0, 0, 0);
    house.mark_round_settled(16);
    house.store_player_round_params(16, 1, 9, 9, 9);
    assert_eq!(house.is_player_registered(16, 1), 1);
}
