//! Algebraic hash functions over a 128-bit prime field, for use inside a
//! STARK-style virtual machine: three fixed-width permutations, a Rescue
//! sponge, and two general-purpose backends with the same calling shape.

use vstd::prelude::*;

pub mod crypto;
pub mod math;
pub mod utils;

verus! {

/// Number of field elements in the state of the sponge.
pub const HASH_STATE_WIDTH: usize = 6;

/// Number of field elements that one call of the sponge absorbs at most.
pub const HASH_STATE_RATE: usize = 4;

/// Number of field elements in a digest of the sponge.
pub const HASH_DIGEST_SIZE: usize = 2;

/// Number of rounds that the sponge applies.
pub const HASH_NUM_ROUNDS: usize = 10;

/// Number of steps after which the round constants of the sponge repeat.
pub const BASE_CYCLE_LENGTH: usize = 16;

} // verus!
