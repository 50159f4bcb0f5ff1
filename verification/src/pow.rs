//! The faucet's proof of work: the first nonce whose hash, appended to the
//! challenge, starts with a big-endian integer at most the target.
use vstd::prelude::*;
use sha2::{Digest, Sha256};
use crate::codec::{hex_bytes_of, hex_decode};

verus! {

/// The SHA-256 digest of a byte sequence.
pub uninterp spec fn sha256_of(data: Seq<u8>) -> Seq<u8>;

/// `sha2::Sha256::digest`: the SHA-256 digest of the data, 32 bytes long.
#[verifier::external_body]
fn sha256_digest(data: &[u8]) -> (r: Vec<u8>)
    ensures
        r@ == sha256_of(data@),
        r@.len() == 32,
{
    Sha256::digest(data).to_vec()
}

/// The eight big-endian bytes of an integer.
pub open spec fn be_bytes(x: u64) -> Seq<u8> {
    seq![
        ((x >> 56) & 0xff) as u8,
        ((x >> 48) & 0xff) as u8,
        ((x >> 40) & 0xff) as u8,
        ((x >> 32) & 0xff) as u8,
        ((x >> 24) & 0xff) as u8,
        ((x >> 16) & 0xff) as u8,
        ((x >> 8) & 0xff) as u8,
        (x & 0xff) as u8,
    ]
}

/// The integer whose big-endian bytes open the sequence.
pub open spec fn be_u64(b: Seq<u8>) -> u64 {
    ((b[0] as u64) << 56u64) | ((b[1] as u64) << 48u64) | ((b[2] as u64) << 40u64) | ((b[3] as u64) << 32u64)
        | ((b[4] as u64) << 24u64) | ((b[5] as u64) << 16u64) | ((b[6] as u64) << 8u64) | (b[7] as u64)
}

/// The value a nonce scores: the first eight bytes, big-endian, of the hash
/// of the challenge followed by the nonce's big-endian bytes.
pub open spec fn pow_score(challenge: Seq<u8>, nonce: u64) -> u64 {
    be_u64(sha256_of(challenge + be_bytes(nonce)))
}

/// Reads the big-endian integer at the start of a digest.
pub fn digest_value(digest: &[u8]) -> (r: u64)
    requires
        digest@.len() >= 8,
    ensures
        r == be_u64(digest@),
{
    let b0 = digest[0] as u64;
    let b1 = digest[1] as u64;
    let b2 = digest[2] as u64;
    let b3 = digest[3] as u64;
    let b4 = digest[4] as u64;
    let b5 = digest[5] as u64;
    let b6 = digest[6] as u64;
    let b7 = digest[7] as u64;
    (b0 << 56u64) | (b1 << 48u64) | (b2 << 40u64) | (b3 << 32u64) | (b4 << 24u64) | (b5 << 16u64) | (b6 << 8u64) | b7
}

/// The score of one nonce against a challenge.
pub fn pow_value(challenge: &[u8], nonce: u64) -> (r: u64)
    ensures
        r == pow_score(challenge@, nonce),
{
    let mut data: Vec<u8> = Vec::new();
    let mut i: usize = 0;
    while i < challenge.len()
        invariant
            i <= challenge@.len(),
            data@ =~= challenge@.take(i as int),
        decreases challenge@.len() - i,
    {
        data.push(challenge[i]);
        i = i + 1;
        assert(data@ =~= challenge@.take(i as int));
    }
    data.push(((nonce >> 56) & 0xff) as u8);
    data.push(((nonce >> 48) & 0xff) as u8);
    data.push(((nonce >> 40) & 0xff) as u8);
    data.push(((nonce >> 32) & 0xff) as u8);
    data.push(((nonce >> 24) & 0xff) as u8);
    data.push(((nonce >> 16) & 0xff) as u8);
    data.push(((nonce >> 8) & 0xff) as u8);
    data.push((nonce & 0xff) as u8);
    assert(data@ =~= challenge@ + be_bytes(nonce));
    let hash = sha256_digest(data.as_slice());
    digest_value(hash.as_slice())
}

/// Why no nonce was found.
#[derive(Clone, Copy, Debug, PartialEq, Eq, Structural)]
pub enum PowError {
    /// The challenge is not a hex string.
    InvalidChallenge,
    /// No 64-bit nonce scores at most the target.
    Exhausted,
}

/// Finds the smallest nonce whose score against the hex challenge is at most `target`.
pub fn solve_pow(challenge_hex: &str, target: u64) -> (r: Result<u64, PowError>)
    ensures
        match hex_bytes_of(challenge_hex@) {
            None => r == Err::<u64, PowError>(PowError::InvalidChallenge),
            Some(c) => match r {
                Ok(n) => pow_score(c, n) <= target && forall|m: u64| m < n ==> pow_score(c, m) > target,
                Err(e) => e == PowError::Exhausted && forall|m: u64| pow_score(c, m) > target,
            },
        },
{
    let challenge = match hex_decode(challenge_hex) {
        Ok(c) => c,
        Err(_) => return Err(PowError::InvalidChallenge),
    };
    let mut nonce: u64 = 0;
    loop
        invariant
            hex_bytes_of(challenge_hex@) == Some(challenge@),
            forall|m: u64| m < nonce ==> pow_score(challenge@, m) > target,
        decreases u64::MAX - nonce,
    {
        let val = pow_value(challenge.as_slice(), nonce);
        if val <= target {
            return Ok(nonce);
        }
        if nonce == u64::MAX {
            return Err(PowError::Exhausted);
        }
        nonce = nonce + 1;
    }
}

/// A nonce's score is the value, most significant byte first, of the first
/// eight bytes of the SHA-256 of the challenge followed by the nonce's eight
/// bytes, most significant first: the byte after the challenge is
/// `nonce / 2^56` and the last is `nonce % 256`.
pub proof fn law_pow_score_big_endian(challenge: Seq<u8>, nonce: u64)
    ensures
        ({
            let appended = challenge + seq![
                (nonce / 0x0100_0000_0000_0000) as u8,
                (nonce / 0x0001_0000_0000_0000 % 256) as u8,
                (nonce / 0x0000_0100_0000_0000 % 256) as u8,
                (nonce / 0x0000_0001_0000_0000 % 256) as u8,
                (nonce / 0x0000_0000_0100_0000 % 256) as u8,
                (nonce / 0x0000_0000_0001_0000 % 256) as u8,
                (nonce / 0x0000_0000_0000_0100 % 256) as u8,
                (nonce % 256) as u8,
            ];
            let d = sha256_of(appended);
            pow_score(challenge, nonce) as int
                == d[0] as int * 0x0100_0000_0000_0000 + d[1] as int * 0x0001_0000_0000_0000
                    + d[2] as int * 0x0000_0100_0000_0000 + d[3] as int * 0x0000_0001_0000_0000
                    + d[4] as int * 0x0000_0000_0100_0000 + d[5] as int * 0x0000_0000_0001_0000
                    + d[6] as int * 0x0000_0000_0000_0100 + d[7] as int
        }),
{
    let n = nonce;
    assert(((n >> 56) & 0xff) as u8 == (n / 0x0100_0000_0000_0000) as u8) by (bit_vector);
    assert(((n >> 48) & 0xff) as u8 == (n / 0x0001_0000_0000_0000 % 256) as u8) by (bit_vector);
    assert(((n >> 40) & 0xff) as u8 == (n / 0x0000_0100_0000_0000 % 256) as u8) by (bit_vector);
    assert(((n >> 32) & 0xff) as u8 == (n / 0x0000_0001_0000_0000 % 256) as u8) by (bit_vector);
    assert(((n >> 24) & 0xff) as u8 == (n / 0x0000_0000_0100_0000 % 256) as u8) by (bit_vector);
    assert(((n >> 16) & 0xff) as u8 == (n / 0x0000_0000_0001_0000 % 256) as u8) by (bit_vector);
    assert(((n >> 8) & 0xff) as u8 == (n / 0x0000_0000_0000_0100 % 256) as u8) by (bit_vector);
    assert((n & 0xff) as u8 == (n % 256) as u8) by (bit_vector);
    let appended = challenge + seq![
        (n / 0x0100_0000_0000_0000) as u8,
        (n / 0x0001_0000_0000_0000 % 256) as u8,
        (n / 0x0000_0100_0000_0000 % 256) as u8,
        (n / 0x0000_0001_0000_0000 % 256) as u8,
        (n / 0x0000_0000_0100_0000 % 256) as u8,
        (n / 0x0000_0000_0001_0000 % 256) as u8,
        (n / 0x0000_0000_0000_0100 % 256) as u8,
        (n % 256) as u8,
    ];
    assert(challenge + be_bytes(n) =~= appended);
    let d = sha256_of(appended);
    let (b0, b1, b2, b3, b4, b5, b6, b7) = (d[0], d[1], d[2], d[3], d[4], d[5], d[6], d[7]);
    assert(((b0 as u64) << 56u64) | ((b1 as u64) << 48u64) | ((b2 as u64) << 40u64) | ((b3 as u64) << 32u64)
        | ((b4 as u64) << 24u64) | ((b5 as u64) << 16u64) | ((b6 as u64) << 8u64) | (b7 as u64)
        == b0 as int * 0x0100_0000_0000_0000 + b1 as int * 0x0001_0000_0000_0000
            + b2 as int * 0x0000_0100_0000_0000 + b3 as int * 0x0000_0001_0000_0000
            + b4 as int * 0x0000_0000_0100_0000 + b5 as int * 0x0000_0000_0001_0000
            + b6 as int * 0x0000_0000_0000_0100 + b7 as int) by (bit_vector);
}

} // verus!
