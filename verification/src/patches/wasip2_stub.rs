//! A `wasip2` with a fixed random source.
pub mod random;
