//! The store itself: text keys, text values, one value per key.

use vstd::hash_map::StringHashMap;
use vstd::prelude::*;

use crate::model::lookup;

verus! {

/// An in-memory key-value store for text.
///
/// Seen through its view, a store is a finite map from keys to values, both
/// taken as sequences of characters.
pub struct KvStore {
    store: StringHashMap<String>,
}

impl View for KvStore {
    type V = Map<Seq<char>, Seq<char>>;

    closed spec fn view(&self) -> Map<Seq<char>, Seq<char>> {
        texts(self.store@)
    }
}

/// The same map with each stored value taken as text.
spec fn texts(held: Map<Seq<char>, String>) -> Map<Seq<char>, Seq<char>> {
    Map::new(|key: Seq<char>| held.contains_key(key), |key: Seq<char>| held[key]@)
}

/// Taking the values as text keeps the keys as they are.
proof fn lemma_texts_keys(held: Map<Seq<char>, String>)
    ensures
        texts(held).dom() == held.dom(),
{
    assert(texts(held).dom() =~= held.dom());
}

impl KvStore {
    /// Every store holds finitely many entries.
    #[verifier::type_invariant]
    closed spec fn finite(self) -> bool {
        self.store@.dom().finite()
    }

    /// Creates a store that holds nothing.
    pub fn new() -> (store: KvStore)
        ensures
            store@ == Map::<Seq<char>, Seq<char>>::empty(),
            store@.dom().finite(),
            store@.len() == 0,
    {
        let store = KvStore { store: StringHashMap::new() };
        assert(store@ =~= Map::<Seq<char>, Seq<char>>::empty());
        store
    }

    /// Puts `value` under `key`, in place of whatever the key held before.
    /// The store grows by one entry where the key is new, and keeps its size
    /// where it is not.
    pub fn set(&mut self, key: String, value: String)
        ensures
            final(self)@ == old(self)@.insert(key@, value@),
            final(self)@.dom().finite(),
            final(self)@.len() == if old(self)@.contains_key(key@) {
                old(self)@.len()
            } else {
                old(self)@.len() + 1
            },
    {
        proof {
            use_type_invariant(&*self);
        }
        let ghost key_text = key@;
        let ghost value_text = value@;
        // The map changes while it is out of the store, so that the store
        // itself is finite at every step.
        let mut entries = StringHashMap::new();
        core::mem::swap(&mut self.store, &mut entries);
        entries.insert(key, value);
        core::mem::swap(&mut self.store, &mut entries);
        proof {
            lemma_texts_keys(old(self).store@);
            lemma_texts_keys(self.store@);
            assert(self@ =~= old(self)@.insert(key_text, value_text));
        }
    }

    /// Returns a copy of the value held under `key`, or `None` where the store
    /// holds nothing under it. The store is left as it was, and the copy is
    /// the caller's own: no later change to the store reaches it.
    pub fn get(&self, key: String) -> (result: Option<String>)
        ensures
            match result {
                Some(value) => lookup(self@, key@) == Some(value@),
                None => lookup(self@, key@) is None,
            },
    {
        match self.store.get(key.as_str()) {
            Some(value) => Some(value.clone()),
            None => None,
        }
    }

    /// Makes sure that the store holds nothing under `key`. Where it held
    /// nothing already, the store is left as it was; otherwise it shrinks by
    /// one entry.
    pub fn remove(&mut self, key: String)
        ensures
            final(self)@ == old(self)@.remove(key@),
            final(self)@.dom().finite(),
            old(self)@.contains_key(key@) ==> final(self)@.len() == old(self)@.len() - 1,
            !old(self)@.contains_key(key@) ==> final(self)@ == old(self)@ && final(self)@.len()
                == old(self)@.len(),
    {
        proof {
            use_type_invariant(&*self);
        }
        // As in `set`: the map changes while it is out of the store.
        let mut entries = StringHashMap::new();
        core::mem::swap(&mut self.store, &mut entries);
        entries.remove(key.as_str());
        core::mem::swap(&mut self.store, &mut entries);
        proof {
            lemma_texts_keys(old(self).store@);
            lemma_texts_keys(self.store@);
            assert(self@ =~= old(self)@.remove(key@));
        }
    }

    /// The number of keys that the store holds.
    pub fn len(&self) -> (count: usize)
        ensures
            self@.dom().finite(),
            count == self@.len(),
    {
        proof {
            use_type_invariant(self);
            lemma_texts_keys(self.store@);
        }
        self.store.len()
    }
}

} // verus!
