//! The sharded store: a fixed sequence of shards, each key kept in the shard
//! that its hash selects.

use crate::routing::shard_for_key;
use crate::routing::shard_of_key;
use crate::shard::Shard;
use crate::value::bytes_content;
use bytes::Bytes;
use vstd::prelude::*;

verus! {

/// Why a store could not be made.
#[derive(Debug, Clone, Copy, PartialEq, Eq)]
pub enum StoreError {
    /// A store needs at least one shard.
    NoShards,
}

/// A key-value store split into a fixed number of shards.
pub struct ShardedDb {
    shards: Vec<Shard>,
}

impl View for ShardedDb {
    type V = Map<Seq<char>, Seq<u8>>;

    /// The store as one map: each key is looked up in the shard that it is
    /// routed to.
    closed spec fn view(&self) -> Map<Seq<char>, Seq<u8>> {
        Map::new(
            |key: Seq<char>| self.home(key)@.contains_key(key),
            |key: Seq<char>| self.home(key)@[key],
        )
    }
}

/// Stores `value` under `key` in the shard at `index`; the other shards stay
/// as they are.
fn insert_at(shards: &mut Vec<Shard>, index: usize, key: &str, value: Bytes)
    requires
        index < old(shards)@.len(),
    ensures
        final(shards)@.len() == old(shards)@.len(),
        final(shards)@[index as int]@ == old(shards)@[index as int]@.insert(
            key@,
            bytes_content(value),
        ),
        forall|other: int|
            0 <= other < old(shards)@.len() && other != index ==> final(shards)@[other] == old(
                shards,
            )@[other],
{
    shards[index].insert(key, value);
}

impl ShardedDb {
    /// The number of shards, fixed when the store is made.
    pub closed spec fn shard_count(&self) -> nat {
        self.shards@.len()
    }

    /// The store's invariant: there is at least one shard, and a shard holds
    /// only keys that are routed to it. `new` establishes it and every
    /// operation keeps it.
    pub closed spec fn wf(&self) -> bool {
        &&& self.shards@.len() > 0
        &&& forall|index: int, key: Seq<char>|
            0 <= index < self.shards@.len() && #[trigger] self.shards@[index]@.contains_key(key)
                ==> shard_of_key(key, self.shards@.len()) == index
    }

    /// The shard that `key` is routed to.
    spec fn home(&self, key: Seq<char>) -> Shard {
        self.shards@[shard_of_key(key, self.shards@.len()) as int]
    }

    /// What the shard at `index` holds.
    pub closed spec fn shard_view(&self, index: int) -> Map<Seq<char>, Seq<u8>> {
        self.shards@[index]@
    }

    /// The store holds a key exactly where the shard that the key is routed
    /// to holds it, with the value that it has there; no other shard holds
    /// the key.
    pub proof fn lemma_view_by_shard(&self, key: Seq<char>)
        requires
            self.wf(),
        ensures
            self@.contains_key(key) <==> self.shard_view(
                shard_of_key(key, self.shard_count()) as int,
            ).contains_key(key),
            self@.contains_key(key) ==> self@[key] == self.shard_view(
                shard_of_key(key, self.shard_count()) as int,
            )[key],
            forall|index: int|
                0 <= index < self.shard_count() && #[trigger] self.shard_view(index).contains_key(
                    key,
                ) ==> index == shard_of_key(key, self.shard_count()),
    {
    }

    /// A store of `num_shards` empty shards. A store without shards cannot
    /// route any key, so zero is refused.
    pub fn new(num_shards: usize) -> (made: Result<ShardedDb, StoreError>)
        ensures
            num_shards == 0 <==> made is Err,
            made matches Err(error) ==> error == StoreError::NoShards,
            made matches Ok(db) ==> db.wf() && db.shard_count() == num_shards && db@ == Map::<
                Seq<char>,
                Seq<u8>,
            >::empty(),
    {
        if num_shards == 0 {
            return Err(StoreError::NoShards);
        }
        let mut shards: Vec<Shard> = Vec::with_capacity(num_shards);
        for count in 0..num_shards
            invariant
                shards@.len() == count,
                forall|index: int|
                    0 <= index < shards@.len() ==> (#[trigger] shards@[index])@ == Map::<
                        Seq<char>,
                        Seq<u8>,
                    >::empty(),
        {
            shards.push(Shard::new());
        }
        let db = ShardedDb { shards };
        assert(db@ =~= Map::<Seq<char>, Seq<u8>>::empty());
        Ok(db)
    }

    /// The number of shards.
    pub fn num_shards(&self) -> (count: usize)
        requires
            self.wf(),
        ensures
            count == self.shard_count(),
            count > 0,
    {
        self.shards.len()
    }

    /// The index of the shard that `key` is routed to. It depends on the key
    /// and the number of shards alone.
    pub fn find_shard(&self, key: &str) -> (index: usize)
        requires
            self.wf(),
        ensures
            index == shard_of_key(key@, self.shard_count()),
            index < self.shard_count(),
    {
        shard_for_key(key, self.shards.len())
    }

    /// Takes the store apart into its shards, in order, for a caller that
    /// guards each shard on its own. Each key stays in the shard that it is
    /// routed to.
    pub fn into_shards(self) -> (shards: Vec<Shard>)
        requires
            self.wf(),
        ensures
            shards@.len() == self.shard_count(),
            forall|index: int|
                0 <= index < shards@.len() ==> (#[trigger] shards@[index])@ == self.shard_view(
                    index,
                ),
    {
        self.shards
    }

    /// Stores `value` under `key`, in place of any value that the key had.
    /// No other key changes, and no shard but the one that the key is routed
    /// to.
    pub fn insert(&mut self, key: &str, value: Bytes)
        requires
            old(self).wf(),
        ensures
            final(self).wf(),
            final(self)@ == old(self)@.insert(key@, bytes_content(value)),
            final(self).shard_count() == old(self).shard_count(),
            final(self).shard_view(shard_of_key(key@, old(self).shard_count()) as int) == old(
                self,
            ).shard_view(shard_of_key(key@, old(self).shard_count()) as int).insert(
                key@,
                bytes_content(value),
            ),
            forall|index: int|
                0 <= index < old(self).shard_count() && index != shard_of_key(
                    key@,
                    old(self).shard_count(),
                ) ==> #[trigger] final(self).shard_view(index) == old(self).shard_view(index),
    {
        let index = self.find_shard(key);
        insert_at(&mut self.shards, index, key, value);
        assert(self@ =~= old(self)@.insert(key@, bytes_content(value)));
    }

    /// The value stored under `key`, or `None` where nothing was stored.
    pub fn get(&self, key: &str) -> (found: Option<Bytes>)
        requires
            self.wf(),
        ensures
            found is Some <==> self@.contains_key(key@),
            found matches Some(value) ==> bytes_content(value) == self@[key@],
    {
        let index = self.find_shard(key);
        self.shards[index].get(key)
    }
}

} // verus!
