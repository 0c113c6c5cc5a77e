use std::collections::hash_map::RandomState;
use std::hash::BuildHasher;
use vstd::prelude::*;

verus! {

/// `RandomState::new` of the standard library: hash keys chosen at random.
/// Nothing is claimed of them.
#[verifier::external_body]
fn fresh_hash_keys() -> (keys: RandomState) {
    RandomState::new()
}

/// `BuildHasher::hash_one` of the standard library: the hash of `byte` under
/// `keys`. Nothing is claimed of it.
#[verifier::external_body]
fn hash_under(keys: &RandomState, byte: u8) -> (hash: u64) {
    keys.hash_one(byte)
}

/// A byte that cannot be foretold: the low byte of the hash of zero under
/// fresh keys.
pub(crate) fn random_byte() -> (byte: u8) {
    let keys = fresh_hash_keys();
    low_byte(hash_under(&keys, 0))
}

/// The lowest eight bits of `hash`.
fn low_byte(hash: u64) -> (byte: u8)
    ensures
        byte == hash % 256,
{
    (hash % 256) as u8
}

} // verus!
