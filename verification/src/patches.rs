//! Stand-ins for the randomness crates that the contracts' build pulls in.
//! The contracts are deterministic and never draw randomness, so every source
//! of randomness here refuses.
pub mod getrandom_stub;
pub mod wasi_stub;
pub mod wasip2_stub;
