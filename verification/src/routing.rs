//! Routing of keys to shards: a stable hash of the key, reduced modulo the
//! number of shards.

use std::hash::BuildHasher;
use std::hash::BuildHasherDefault;
use std::hash::DefaultHasher;
use vstd::prelude::*;

verus! {

/// The 64-bit hash that the standard library's default hasher gives to a key.
/// It is fixed for one build of the standard library; nothing else is known
/// of it.
pub uninterp spec fn key_hash(key: Seq<char>) -> u64;

/// The shard that a key with the given hash belongs to, among `num_shards`.
pub open spec fn shard_of_hash(hash: u64, num_shards: nat) -> nat {
    ((hash as usize) as nat) % num_shards
}

/// The shard that a key belongs to, among `num_shards`.
pub open spec fn shard_of_key(key: Seq<char>, num_shards: nat) -> nat {
    shard_of_hash(key_hash(key), num_shards)
}

/// Hashes a key with `std::hash::DefaultHasher` in its initial state, through
/// `BuildHasher::hash_one`. The standard library documents that all hashers
/// made by `DefaultHasher::default` are the same, so the result depends on the
/// key alone. The contract is not proved: it gives that result the name
/// `key_hash` and claims no more.
#[verifier::external_body]
pub(crate) fn hash_key(key: &str) -> (hash: u64)
    ensures
        hash == key_hash(key@),
{
    BuildHasherDefault::<DefaultHasher>::default().hash_one(key)
}

/// Reduces a hash to the index of a shard.
pub fn shard_for_hash(hash: u64, num_shards: usize) -> (index: usize)
    requires
        num_shards > 0,
    ensures
        index == shard_of_hash(hash, num_shards as nat),
        index < num_shards,
{
    (hash as usize) % num_shards
}

/// The index of the shard that holds `key` in a store of `num_shards` shards.
pub fn shard_for_key(key: &str, num_shards: usize) -> (index: usize)
    requires
        num_shards > 0,
    ensures
        index == shard_of_key(key@, num_shards as nat),
        index < num_shards,
{
    shard_for_hash(hash_key(key), num_shards)
}

} // verus!
