//! One partition of the key space: a map from keys to values.

use crate::value::bytes_content;
use bytes::Bytes;
use vstd::hash_map::StringHashMap;
use vstd::prelude::*;

verus! {

/// A mapping from keys to values. A caller that shares a shard between tasks
/// guards it as a whole; the operations here have exclusive access for their
/// duration.
pub struct Shard {
    entries: StringHashMap<Bytes>,
}

impl View for Shard {
    type V = Map<Seq<char>, Seq<u8>>;

    /// The shard as a map from keys to the bytes of their values.
    closed spec fn view(&self) -> Map<Seq<char>, Seq<u8>> {
        self.entries@.map_values(|value: Bytes| bytes_content(value))
    }
}

impl Shard {
    /// A shard that holds no key.
    pub fn new() -> (shard: Shard)
        ensures
            shard@ == Map::<Seq<char>, Seq<u8>>::empty(),
    {
        let shard = Shard { entries: StringHashMap::new() };
        assert(shard@ =~= Map::<Seq<char>, Seq<u8>>::empty());
        shard
    }

    /// Binds `key` to `value`, replacing any value that the key had.
    pub fn insert(&mut self, key: &str, value: Bytes)
        ensures
            final(self)@ == old(self)@.insert(key@, bytes_content(value)),
    {
        self.entries.insert(key.to_owned(), value);
        assert(self@ =~= old(self)@.insert(key@, bytes_content(value)));
    }

    /// The value that `key` has, or `None` where it has none.
    pub fn get(&self, key: &str) -> (found: Option<Bytes>)
        ensures
            found is Some <==> self@.contains_key(key@),
            found matches Some(value) ==> bytes_content(value) == self@[key@],
    {
        match self.entries.get(key) {
            Some(value) => Some(value.clone()),
            None => None,
        }
    }
}

} // verus!
