//! Deterministic, stateless assignment of users to experiment variants.
//!
//! A user's assignment is a pure function of the experiment's namespace and
//! name, the parameter's name, and the user's identifier: the strings are
//! hashed into a 64-bit value, a bitmask over population buckets decides
//! whether the user is in the experiment at all, and a second, per-parameter
//! hash selects one labeled choice.

pub mod evaluate;
pub mod experiment;
pub mod hashing;
pub mod segment;
