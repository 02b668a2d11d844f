//! Shared character-sequence abstractions: the views of a vector of owned
//! strings, and joining pieces with a separator character.

use vstd::prelude::*;

verus! {

/// The character-sequence views of a vector of owned strings.
pub open spec fn views_of(strings: Seq<String>) -> Seq<Seq<char>> {
    strings.map_values(|s: String| s@)
}

/// The pieces joined with `sep` between each two: the inverse of splitting
/// at every occurrence of `sep`.
pub open spec fn sep_join(pieces: Seq<Seq<char>>, sep: char) -> Seq<char>
    decreases pieces.len(),
{
    if pieces.len() == 0 {
        Seq::empty()
    } else if pieces.len() == 1 {
        pieces[0]
    } else {
        sep_join(pieces.drop_last(), sep) + seq![sep] + pieces.last()
    }
}

/// First-match lookup in an association list keyed by strings.
pub open spec fn assoc_lookup<V>(pairs: Seq<(String, V)>, key: Seq<char>) -> Option<V>
    decreases pairs.len(),
{
    if pairs.len() == 0 {
        None
    } else if pairs[0].0@ == key {
        Some(pairs[0].1)
    } else {
        assoc_lookup(pairs.skip(1), key)
    }
}

/// Storing `entry` in an association list: the first pair under the same
/// key is replaced in place; a fresh key goes to the end.
pub open spec fn assoc_put<V>(pairs: Seq<(String, V)>, entry: (String, V)) -> Seq<(String, V)>
    decreases pairs.len(),
{
    if pairs.len() == 0 {
        seq![entry]
    } else if pairs[0].0@ == entry.0@ {
        seq![entry] + pairs.skip(1)
    } else {
        seq![pairs[0]] + assoc_put(pairs.skip(1), entry)
    }
}

/// Storing a whole sequence of entries, first to last.
pub open spec fn assoc_put_all<V>(
    pairs: Seq<(String, V)>,
    updates: Seq<(String, V)>,
) -> Seq<(String, V)>
    decreases updates.len(),
{
    if updates.len() == 0 {
        pairs
    } else {
        assoc_put_all(assoc_put(pairs, updates[0]), updates.skip(1))
    }
}

/// When the key stands first at index `i`, storing replaces exactly that
/// pair.
pub proof fn lemma_assoc_put_at<V>(pairs: Seq<(String, V)>, entry: (String, V), i: int)
    requires
        0 <= i < pairs.len(),
        pairs[i].0@ == entry.0@,
        forall|k: int| 0 <= k < i ==> (#[trigger] pairs[k]).0@ != entry.0@,
    ensures
        assoc_put(pairs, entry) == pairs.update(i, entry),
    decreases i,
{
    if i == 0 {
        assert(seq![entry] + pairs.skip(1) =~= pairs.update(0, entry));
    } else {
        assert(pairs.skip(1)[i - 1] == pairs[i]);
        assert(forall|k: int| 0 <= k < i - 1 ==> (#[trigger] pairs.skip(1)[k]).0@ != entry.0@);
        lemma_assoc_put_at(pairs.skip(1), entry, i - 1);
        assert(seq![pairs[0]] + pairs.skip(1).update(i - 1, entry) =~= pairs.update(i, entry));
    }
}

/// When the key is absent, storing appends the entry.
pub proof fn lemma_assoc_put_absent<V>(pairs: Seq<(String, V)>, entry: (String, V))
    requires
        forall|k: int| 0 <= k < pairs.len() ==> (#[trigger] pairs[k]).0@ != entry.0@,
    ensures
        assoc_put(pairs, entry) == pairs.push(entry),
    decreases pairs.len(),
{
    if pairs.len() == 0 {
        assert(seq![entry] =~= pairs.push(entry));
    } else {
        assert(forall|k: int| 0 <= k < pairs.skip(1).len() ==> (#[trigger] pairs.skip(1)[k]).0@
            != entry.0@);
        lemma_assoc_put_absent(pairs.skip(1), entry);
        assert(seq![pairs[0]] + pairs.skip(1).push(entry) =~= pairs.push(entry));
    }
}

/// Appending an entry under a key that is absent makes lookup find it.
pub proof fn lemma_assoc_lookup_push<V>(pairs: Seq<(String, V)>, key: Seq<char>, entry: (String, V))
    requires
        assoc_lookup(pairs, key) is None,
        entry.0@ == key,
    ensures
        assoc_lookup(pairs.push(entry), key) == Some(entry.1),
    decreases pairs.len(),
{
    if pairs.len() == 0 {
        assert(pairs.push(entry)[0] == entry);
    } else {
        assert(pairs.push(entry)[0] == pairs[0]);
        assert(pairs.push(entry).skip(1) =~= pairs.skip(1).push(entry));
        lemma_assoc_lookup_push(pairs.skip(1), key, entry);
    }
}

} // verus!
