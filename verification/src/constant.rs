//! Limits and seeds fixed by the protocol.

use vstd::prelude::*;

verus! {

/// The largest committee: a transaction carries at most this many validator
/// signatures.
pub const MAX_VALIDATORS: usize = 10;

/// The smallest committee.
pub const MIN_VALIDATORS: usize = 4;

/// Seed of the address derived for the validator set: the bytes of
/// `validator-set`.
pub const VALIDATOR_SET_SEED: [u8; 13] = [
    118, 97, 108, 105, 100, 97, 116, 111, 114, 45, 115, 101, 116,
];

} // verus!
