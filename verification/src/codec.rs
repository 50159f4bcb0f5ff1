//! Words written as 64 lowercase hex characters: eight little-endian bytes per
//! field element, as a player hands a note's serial number to the house.
use vstd::prelude::*;
use crate::felt::{Word, FELT_MODULUS};

verus! {

/// The lowercase hex digit of a value below 16.
pub open spec fn hex_digit(n: u8) -> char {
    if n < 10 { (48 + n) as char } else { (87 + n) as char }
}

/// The value of a hex digit of either case, if the character is one.
pub open spec fn hex_value(c: char) -> Option<u8> {
    if '0' <= c && c <= '9' {
        Some((c as u32 - 48) as u8)
    } else if 'a' <= c && c <= 'f' {
        Some((c as u32 - 87) as u8)
    } else if 'A' <= c && c <= 'F' {
        Some((c as u32 - 55) as u8)
    } else {
        None
    }
}

/// Two lowercase hex digits per byte, high nibble first.
pub open spec fn hex_of(bytes: Seq<u8>) -> Seq<char>
    decreases bytes.len(),
{
    if bytes.len() == 0 {
        Seq::empty()
    } else {
        seq![hex_digit(bytes[0] / 16), hex_digit(bytes[0] % 16)] + hex_of(bytes.drop_first())
    }
}

/// The bytes a hex string stands for: `None` when its length is odd or a
/// character is not a hex digit of either case.
pub open spec fn hex_bytes_of(s: Seq<char>) -> Option<Seq<u8>>
    decreases s.len(),
{
    if s.len() == 0 {
        Some(Seq::empty())
    } else if s.len() == 1 {
        None
    } else {
        match (hex_value(s[0]), hex_value(s[1]), hex_bytes_of(s.subrange(2, s.len() as int))) {
            (Some(hi), Some(lo), Some(rest)) => Some(seq![(hi * 16 + lo) as u8] + rest),
            _ => None,
        }
    }
}

#[verifier::external_type_specification]
#[verifier::external_body]
pub struct ExFromHexError(hex::FromHexError);

/// `hex::encode`: the bytes as lowercase hex, two characters per byte.
#[verifier::external_body]
fn hex_encode(bytes: &[u8]) -> (r: String)
    ensures
        r@ == hex_of(bytes@),
{
    hex::encode(bytes)
}

/// `hex::decode`: the bytes of a hex string of either case; an error for an
/// odd length or a character that is not a hex digit.
#[verifier::external_body]
pub(crate) fn hex_decode(s: &str) -> (r: Result<Vec<u8>, hex::FromHexError>)
    ensures
        match hex_bytes_of(s@) {
            Some(b) => r matches Ok(v) && v@ == b,
            None => r is Err,
        },
{
    hex::decode(s)
}

/// The eight little-endian bytes of an integer.
pub open spec fn le_bytes(x: u64) -> Seq<u8> {
    seq![
        (x & 0xff) as u8,
        ((x >> 8) & 0xff) as u8,
        ((x >> 16) & 0xff) as u8,
        ((x >> 24) & 0xff) as u8,
        ((x >> 32) & 0xff) as u8,
        ((x >> 40) & 0xff) as u8,
        ((x >> 48) & 0xff) as u8,
        ((x >> 56) & 0xff) as u8,
    ]
}

/// The integer whose little-endian bytes start at `i`.
pub open spec fn le_u64(b: Seq<u8>, i: int) -> u64 {
    (b[i] as u64) | ((b[i + 1] as u64) << 8u64) | ((b[i + 2] as u64) << 16u64) | ((b[i + 3] as u64) << 24u64)
        | ((b[i + 4] as u64) << 32u64) | ((b[i + 5] as u64) << 40u64) | ((b[i + 6] as u64) << 48u64)
        | ((b[i + 7] as u64) << 56u64)
}

/// The 32 bytes of a word: each element's eight little-endian bytes in turn.
pub open spec fn word_bytes(w: Word) -> Seq<u8> {
    le_bytes(w.w0) + le_bytes(w.w1) + le_bytes(w.w2) + le_bytes(w.w3)
}

/// A word as 64 lowercase hex characters.
pub open spec fn word_hex(w: Word) -> Seq<char> {
    hex_of(word_bytes(w))
}

/// Why a serial number could not be read.
#[derive(Clone, Copy, Debug, PartialEq, Eq, Structural)]
pub enum WordDecodeError {
    /// Not a hex string.
    InvalidHex,
    /// Not 32 bytes (64 hex characters).
    WrongLength,
    /// An element is not below the field modulus.
    NotCanonical,
}

/// The word a serial number string stands for, or why it stands for none.
pub open spec fn decoded_word(s: Seq<char>) -> Result<Word, WordDecodeError> {
    match hex_bytes_of(s) {
        None => Err(WordDecodeError::InvalidHex),
        Some(b) => if b.len() != 32 {
            Err(WordDecodeError::WrongLength)
        } else {
            let w = Word { w0: le_u64(b, 0), w1: le_u64(b, 8), w2: le_u64(b, 16), w3: le_u64(b, 24) };
            if w.is_canonical() { Ok(w) } else { Err(WordDecodeError::NotCanonical) }
        },
    }
}

fn push_le_bytes(out: &mut Vec<u8>, x: u64)
    ensures
        final(out)@ == old(out)@ + le_bytes(x),
{
    out.push((x & 0xff) as u8);
    out.push(((x >> 8) & 0xff) as u8);
    out.push(((x >> 16) & 0xff) as u8);
    out.push(((x >> 24) & 0xff) as u8);
    out.push(((x >> 32) & 0xff) as u8);
    out.push(((x >> 40) & 0xff) as u8);
    out.push(((x >> 48) & 0xff) as u8);
    out.push(((x >> 56) & 0xff) as u8);
    assert(out@ =~= old(out)@ + le_bytes(x));
}

fn read_le_u64(b: &Vec<u8>, i: usize) -> (r: u64)
    requires
        i + 8 <= b.len(),
    ensures
        r == le_u64(b@, i as int),
{
    let b0 = b[i] as u64;
    let b1 = b[i + 1] as u64;
    let b2 = b[i + 2] as u64;
    let b3 = b[i + 3] as u64;
    let b4 = b[i + 4] as u64;
    let b5 = b[i + 5] as u64;
    let b6 = b[i + 6] as u64;
    let b7 = b[i + 7] as u64;
    b0 | (b1 << 8u64) | (b2 << 16u64) | (b3 << 24u64) | (b4 << 32u64) | (b5 << 40u64) | (b6 << 48u64) | (b7 << 56u64)
}

/// Writes a word as 64 lowercase hex characters.
pub fn encode_word(word: Word) -> (r: String)
    ensures
        r@ == word_hex(word),
{
    let mut bytes: Vec<u8> = Vec::new();
    push_le_bytes(&mut bytes, word.w0);
    push_le_bytes(&mut bytes, word.w1);
    push_le_bytes(&mut bytes, word.w2);
    push_le_bytes(&mut bytes, word.w3);
    assert(bytes@ =~= word_bytes(word));
    hex_encode(bytes.as_slice())
}

/// Reads a word back from 64 hex characters.
pub fn decode_word(hex_str: &str) -> (r: Result<Word, WordDecodeError>)
    ensures
        r == decoded_word(hex_str@),
{
    let bytes = match hex_decode(hex_str) {
        Ok(b) => b,
        Err(_) => return Err(WordDecodeError::InvalidHex),
    };
    if bytes.len() != 32 {
        return Err(WordDecodeError::WrongLength);
    }
    let w = Word {
        w0: read_le_u64(&bytes, 0),
        w1: read_le_u64(&bytes, 8),
        w2: read_le_u64(&bytes, 16),
        w3: read_le_u64(&bytes, 24),
    };
    if w.w0 < FELT_MODULUS && w.w1 < FELT_MODULUS && w.w2 < FELT_MODULUS && w.w3 < FELT_MODULUS {
        Ok(w)
    } else {
        Err(WordDecodeError::NotCanonical)
    }
}

proof fn lemma_hex_digit_value(n: u8)
    requires
        n < 16,
    ensures
        hex_value(hex_digit(n)) == Some(n),
{
}

proof fn lemma_hex_roundtrip(b: Seq<u8>)
    ensures
        hex_of(b).len() == 2 * b.len(),
        hex_bytes_of(hex_of(b)) == Some(b),
    decreases b.len(),
{
    if b.len() > 0 {
        let rest = b.drop_first();
        lemma_hex_roundtrip(rest);
        let s = hex_of(b);
        let hi = b[0] / 16;
        let lo = b[0] % 16;
        lemma_hex_digit_value(hi);
        lemma_hex_digit_value(lo);
        assert(s[0] == hex_digit(hi));
        assert(s[1] == hex_digit(lo));
        assert(s.subrange(2, s.len() as int) =~= hex_of(rest));
        assert(seq![(hi * 16 + lo) as u8] + rest =~= b);
    }
}

proof fn lemma_le_roundtrip(x: u64, pre: Seq<u8>, post: Seq<u8>)
    ensures
        le_u64(pre + le_bytes(x) + post, pre.len() as int) == x,
{
    let b = pre + le_bytes(x) + post;
    let i = pre.len() as int;
    assert(b[i] == (x & 0xff) as u8);
    assert(b[i + 1] == ((x >> 8) & 0xff) as u8);
    assert(b[i + 2] == ((x >> 16) & 0xff) as u8);
    assert(b[i + 3] == ((x >> 24) & 0xff) as u8);
    assert(b[i + 4] == ((x >> 32) & 0xff) as u8);
    assert(b[i + 5] == ((x >> 40) & 0xff) as u8);
    assert(b[i + 6] == ((x >> 48) & 0xff) as u8);
    assert(b[i + 7] == ((x >> 56) & 0xff) as u8);
    assert(
        (((x & 0xff) as u8) as u64) | (((((x >> 8) & 0xff) as u8) as u64) << 8u64)
        | (((((x >> 16) & 0xff) as u8) as u64) << 16u64) | (((((x >> 24) & 0xff) as u8) as u64) << 24u64)
        | (((((x >> 32) & 0xff) as u8) as u64) << 32u64) | (((((x >> 40) & 0xff) as u8) as u64) << 40u64)
        | (((((x >> 48) & 0xff) as u8) as u64) << 48u64) | (((((x >> 56) & 0xff) as u8) as u64) << 56u64)
        == x
    ) by (bit_vector);
}

/// A serial number written by `encode_word` reads back as the same word, and
/// is 64 characters long.
pub proof fn law_word_roundtrip(w: Word)
    requires
        w.is_canonical(),
    ensures
        word_hex(w).len() == 64,
        decoded_word(word_hex(w)) == Ok::<Word, WordDecodeError>(w),
{
    let b = word_bytes(w);
    lemma_hex_roundtrip(b);
    let e = Seq::<u8>::empty();
    assert(b =~= e + le_bytes(w.w0) + (le_bytes(w.w1) + le_bytes(w.w2) + le_bytes(w.w3)));
    lemma_le_roundtrip(w.w0, e, le_bytes(w.w1) + le_bytes(w.w2) + le_bytes(w.w3));
    assert(b =~= le_bytes(w.w0) + le_bytes(w.w1) + (le_bytes(w.w2) + le_bytes(w.w3)));
    lemma_le_roundtrip(w.w1, le_bytes(w.w0), le_bytes(w.w2) + le_bytes(w.w3));
    assert(b =~= (le_bytes(w.w0) + le_bytes(w.w1)) + le_bytes(w.w2) + le_bytes(w.w3));
    lemma_le_roundtrip(w.w2, le_bytes(w.w0) + le_bytes(w.w1), le_bytes(w.w3));
    assert(b =~= (le_bytes(w.w0) + le_bytes(w.w1) + le_bytes(w.w2)) + le_bytes(w.w3) + e);
    lemma_le_roundtrip(w.w3, le_bytes(w.w0) + le_bytes(w.w1) + le_bytes(w.w2), e);
}

} // verus!
