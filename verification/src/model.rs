//! The mathematical picture of a store: a finite map from keys to values,
//! and the changes that lead from one such map to the next.

use vstd::prelude::*;

verus! {

/// What reading `key` from `entries` gives: the value held under it, or
/// nothing where the key is not present.
pub open spec fn lookup(entries: Map<Seq<char>, Seq<char>>, key: Seq<char>) -> Option<Seq<char>> {
    if entries.contains_key(key) {
        Some(entries[key])
    } else {
        None
    }
}

/// One change to a store. Reading is no change.
pub enum Change {
    /// `value` is put under `key`.
    Put { key: Seq<char>, value: Seq<char> },
    /// Whatever `key` holds is taken away.
    Remove { key: Seq<char> },
}

impl Change {
    /// The one key that the change touches.
    pub open spec fn key(self) -> Seq<char> {
        match self {
            Change::Put { key, .. } => key,
            Change::Remove { key } => key,
        }
    }

    /// Whether the change puts a value under `key`.
    pub open spec fn writes(self, key: Seq<char>) -> bool {
        self is Put && self.key() == key
    }

    /// The entries that result when the change is made to `entries`.
    pub open spec fn apply(self, entries: Map<Seq<char>, Seq<char>>) -> Map<Seq<char>, Seq<char>> {
        match self {
            Change::Put { key, value } => entries.insert(key, value),
            Change::Remove { key } => entries.remove(key),
        }
    }
}

/// The entries of a store that started empty and went through `changes`,
/// first to last.
pub open spec fn replay(changes: Seq<Change>) -> Map<Seq<char>, Seq<char>>
    decreases changes.len(),
{
    if changes.len() == 0 {
        Map::empty()
    } else {
        changes.last().apply(replay(changes.drop_last()))
    }
}

} // verus!
