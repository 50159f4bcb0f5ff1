//! The `random` interface.
pub mod random;
