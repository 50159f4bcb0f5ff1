//! A `getrandom` whose every call fails with `UNSUPPORTED`.
use vstd::prelude::*;
use core::mem::MaybeUninit;

verus! {

/// An error code of the randomness source.
#[derive(Clone, Copy, Debug, PartialEq, Eq, Structural)]
pub struct Error(u32);

/// Code of an unexpected failure.
pub const UNEXPECTED_CODE: u32 = 0x8000_0000;
/// Code of randomness not being available on this target.
pub const UNSUPPORTED_CODE: u32 = 0x8000_0001;

impl Error {
    pub closed spec fn code_of(self) -> u32 {
        self.0
    }

    /// An unexpected failure.
    pub fn unexpected() -> (r: Error)
        ensures
            r.code_of() == UNEXPECTED_CODE,
    {
        Error(UNEXPECTED_CODE)
    }

    /// Randomness is not available on this target.
    pub fn unsupported() -> (r: Error)
        ensures
            r.code_of() == UNSUPPORTED_CODE,
    {
        Error(UNSUPPORTED_CODE)
    }

    /// The numeric code.
    pub fn code(self) -> (r: u32)
        ensures
            r == self.code_of(),
    {
        self.0
    }

    /// The error as it is displayed: `getrandom error: ` and the code in decimal.
    pub fn message(&self) -> (r: String)
        ensures
            r@ == "getrandom error: "@ + decimal_of(self.code_of() as nat),
    {
        let mut s = String::from_str("getrandom error: ");
        push_decimal(&mut s, self.0);
        s
    }

    /// No error here comes from the operating system.
    pub fn raw_os_error(self) -> (r: Option<i32>)
        ensures
            r is None,
    {
        None
    }
}

/// The character of a decimal digit.
pub open spec fn decimal_digit(d: nat) -> char {
    (48 + d) as char
}

/// A number written in decimal, most significant digit first, without leading zeros.
pub open spec fn decimal_of(n: nat) -> Seq<char>
    decreases n,
{
    if n < 10 {
        seq![decimal_digit(n)]
    } else {
        decimal_of(n / 10).push(decimal_digit(n % 10))
    }
}

fn digit_str(d: u32) -> (r: &'static str)
    requires
        d < 10,
    ensures
        r@ == seq![decimal_digit(d as nat)],
{
    match d {
        0 => { proof { reveal_strlit("0"); } "0" },
        1 => { proof { reveal_strlit("1"); } "1" },
        2 => { proof { reveal_strlit("2"); } "2" },
        3 => { proof { reveal_strlit("3"); } "3" },
        4 => { proof { reveal_strlit("4"); } "4" },
        5 => { proof { reveal_strlit("5"); } "5" },
        6 => { proof { reveal_strlit("6"); } "6" },
        7 => { proof { reveal_strlit("7"); } "7" },
        8 => { proof { reveal_strlit("8"); } "8" },
        _ => { proof { reveal_strlit("9"); } "9" },
    }
}

fn push_decimal(s: &mut String, n: u32)
    ensures
        final(s)@ == old(s)@ + decimal_of(n as nat),
    decreases n,
{
    if n >= 10 {
        push_decimal(s, n / 10);
    }
    s.append(digit_str(n % 10));
    assert(s@ =~= old(s)@ + decimal_of(n as nat));
}

/// Fills `dest` with random bytes; always refuses, leaving `dest` untouched.
pub fn fill(dest: &mut [MaybeUninit<u8>]) -> (r: Result<&mut [u8], Error>)
    ensures
        r matches Err(e) && e.code_of() == UNSUPPORTED_CODE,
        final(dest)@ == old(dest)@,
{
    Err(Error::unsupported())
}

/// A random `u32`; always refuses.
pub fn u32() -> (r: Result<u32, Error>)
    ensures
        r matches Err(e) && e.code_of() == UNSUPPORTED_CODE,
{
    Err(Error::unsupported())
}

/// A random `u64`; always refuses.
pub fn u64() -> (r: Result<u64, Error>)
    ensures
        r matches Err(e) && e.code_of() == UNSUPPORTED_CODE,
{
    Err(Error::unsupported())
}

} // verus!
