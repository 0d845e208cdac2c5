//! What holds of every store, whatever it contains.

use vstd::prelude::*;

use crate::model::{lookup, replay, Change};

verus! {

/// A key reads back the value that was just put under it.
pub proof fn lemma_set_then_get(
    entries: Map<Seq<char>, Seq<char>>,
    key: Seq<char>,
    value: Seq<char>,
)
    ensures
        lookup(entries.insert(key, value), key) == Some(value),
{
}

/// Of two writes to one key the later one wins: the key reads back the second
/// value, the first write leaves no trace, and the second adds no entry.
pub proof fn lemma_last_write_wins(
    entries: Map<Seq<char>, Seq<char>>,
    key: Seq<char>,
    first: Seq<char>,
    second: Seq<char>,
)
    requires
        entries.dom().finite(),
    ensures
        lookup(entries.insert(key, first).insert(key, second), key) == Some(second),
        entries.insert(key, first).insert(key, second) == entries.insert(key, second),
        entries.insert(key, first).insert(key, second).len() == entries.insert(key, first).len(),
{
    assert(entries.insert(key, first).insert(key, second) =~= entries.insert(key, second));
    assert(entries.insert(key, first).dom() =~= entries.insert(key, second).dom());
}

/// A write adds one entry where the key was absent, and none where it was
/// present.
pub proof fn lemma_set_len(entries: Map<Seq<char>, Seq<char>>, key: Seq<char>, value: Seq<char>)
    requires
        entries.dom().finite(),
    ensures
        entries.insert(key, value).dom().finite(),
        entries.insert(key, value).len() == if entries.contains_key(key) {
            entries.len()
        } else {
            entries.len() + 1
        },
{
}

/// A store that has just been created holds nothing under any key.
pub proof fn lemma_new_is_empty(key: Seq<char>)
    ensures
        lookup(Map::<Seq<char>, Seq<char>>::empty(), key) is None,
        Map::<Seq<char>, Seq<char>>::empty().len() == 0,
{
}

/// A key that was never set reads as absent: if none of the changes that a
/// store went through since it was created puts a value under `key`, the
/// store holds nothing under it.
pub proof fn lemma_unset_key_is_absent(changes: Seq<Change>, key: Seq<char>)
    requires
        forall|i: int| 0 <= i < changes.len() ==> !(#[trigger] changes[i]).writes(key),
    ensures
        lookup(replay(changes), key) is None,
    decreases changes.len(),
{
    if changes.len() > 0 {
        let earlier = changes.drop_last();
        assert forall|i: int| 0 <= i < earlier.len() implies !(#[trigger] earlier[i]).writes(
            key,
        ) by {
            assert(earlier[i] == changes[i]);
        }
        lemma_unset_key_is_absent(earlier, key);
        assert(!changes[changes.len() - 1].writes(key));
    }
}

/// However a store was changed since it was created, it holds finitely many
/// entries.
pub proof fn lemma_replay_finite(changes: Seq<Change>)
    ensures
        replay(changes).dom().finite(),
    decreases changes.len(),
{
    if changes.len() > 0 {
        lemma_replay_finite(changes.drop_last());
    }
}

/// After a removal the key reads as absent, whether or not it was present
/// before.
pub proof fn lemma_remove_then_get(entries: Map<Seq<char>, Seq<char>>, key: Seq<char>)
    ensures
        lookup(entries.remove(key), key) is None,
{
}

/// Removing a key that is absent changes nothing: the entries are the same,
/// and so is their number.
pub proof fn lemma_remove_absent(entries: Map<Seq<char>, Seq<char>>, key: Seq<char>)
    requires
        !entries.contains_key(key),
    ensures
        entries.remove(key) == entries,
        entries.remove(key).len() == entries.len(),
{
    assert(entries.remove(key) =~= entries);
}

/// Removing a key that is present takes away exactly one entry.
pub proof fn lemma_remove_present_len(entries: Map<Seq<char>, Seq<char>>, key: Seq<char>)
    requires
        entries.dom().finite(),
        entries.contains_key(key),
    ensures
        entries.remove(key).dom().finite(),
        entries.remove(key).len() == entries.len() - 1,
{
}

/// A change touches one key only: every other key reads after it as it read
/// before.
pub proof fn lemma_change_leaves_other_keys(
    entries: Map<Seq<char>, Seq<char>>,
    change: Change,
    other: Seq<char>,
)
    requires
        other != change.key(),
    ensures
        lookup(change.apply(entries), other) == lookup(entries, other),
{
}

} // verus!
