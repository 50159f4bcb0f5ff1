//! A `wasi` whose randomness call fails.
use vstd::prelude::*;

verus! {

/// A buffer size.
pub type Size = usize;

/// An error number.
#[derive(Clone, Copy, Debug, PartialEq, Eq, PartialOrd, Ord, Hash, Structural)]
pub struct Errno(pub u16);

impl Errno {
    /// The number itself.
    pub fn raw(self) -> (r: u16)
        ensures
            r == self.0,
    {
        self.0
    }
}

/// Fills `buf` with random bytes; always fails with error number 1 and leaves `buf` untouched.
pub fn random_get(buf: &mut [u8]) -> (r: Result<(), Errno>)
    ensures
        r == Err::<(), Errno>(Errno(1)),
        final(buf)@ == old(buf)@,
{
    Err(Errno(1))
}

} // verus!
