use alla_morra::codec::{decode_word, encode_word, WordDecodeError};
use alla_morra::felt::{felt_new, Word, FELT_MODULUS};
use alla_morra::pow::{digest_value, pow_value, solve_pow, PowError};

#[test]
fn encode_word_is_little_endian_hex() {
    let w = Word::new(1, 0x0123_4567_89ab_cdef, 0, FELT_MODULUS - 1);
    let s = encode_word(w);
    assert_eq!(s.len(), 64);
    assert_eq!(
        s,
        "0100000000000000efcdab8967452301000000000000000000000000ffffffff"
    );
}

#[test]
fn serial_roundtrip() {
    for w in [Word::zero(), Word::new(5, 1, 0, 0), Word::new(FELT_MODULUS - 1, 2, 3, 0xdead_beef)] {
        assert_eq!(decode_word(&encode_word(w)), Ok(w));
    }
    let upper = "0100000000000000EFCDAB8967452301000000000000000000000000FFFFFFFF";
    assert_eq!(decode_word(upper), Ok(Word::new(1, 0x0123_4567_89ab_cdef, 0, FELT_MODULUS - 1)));
}

#[test]
fn serial_errors() {
    assert_eq!(decode_word("zz"), Err(WordDecodeError::InvalidHex));
    assert_eq!(decode_word("abc"), Err(WordDecodeError::InvalidHex));
    assert_eq!(decode_word("abcd"), Err(WordDecodeError::WrongLength));
    let too_big = "ffffffffffffffff000000000000000000000000000000000000000000000000";
    assert_eq!(decode_word(too_big), Err(WordDecodeError::NotCanonical));
}

#[test]
fn felts_reduce_modulo_p() {
    assert_eq!(felt_new(5), 5);
    assert_eq!(felt_new(FELT_MODULUS), 0);
    assert_eq!(felt_new(u64::MAX), 0xffff_fffe);
}

#[test]
fn pow_score_is_the_hash_prefix() {
    // SHA-256 of eight zero bytes starts with af5570f5a1810b7a
    assert_eq!(pow_value(&[], 0), 0xaf55_70f5_a181_0b7a);
    assert_eq!(digest_value(&[1, 2, 3, 4, 5, 6, 7, 8, 9]), 0x0102_0304_0506_0708);
}

#[test]
fn pow_finds_the_first_nonce() {
    assert_eq!(solve_pow("", u64::MAX), Ok(0));
    let target = u64::MAX / 16;
    let n = solve_pow("00ff", target).unwrap();
    assert!(pow_value(&[0x00, 0xff], n) <= target);
    for m in 0..n {
        assert!(pow_value(&[0x00, 0xff], m) > target);
    }
    assert_eq!(solve_pow("0g", 0), Err(PowError::InvalidChallenge));
}
