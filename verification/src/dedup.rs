//! Deduplication of keyed entries in which the first occurrence of a key fixes its position
//! and the last occurrence fixes its value.

use vstd::prelude::*;

verus! {

/// The keys of the entries, in order.
pub open spec fn keys_of<K, V>(entries: Seq<(K, V)>) -> Seq<K> {
    entries.map_values(|entry: (K, V)| entry.0)
}

/// Each distinct key once, at the position of its first occurrence.
pub open spec fn first_seen_keys<K>(keys: Seq<K>) -> Seq<K>
    decreases keys.len(),
{
    if keys.len() == 0 {
        Seq::empty()
    } else {
        let earlier = first_seen_keys(keys.drop_last());
        if keys.drop_last().contains(keys.last()) {
            earlier
        } else {
            earlier.push(keys.last())
        }
    }
}

/// The map from each key to the value of its last occurrence.
pub open spec fn last_wins<K, V>(entries: Seq<(K, V)>) -> Map<K, V>
    decreases entries.len(),
{
    if entries.len() == 0 {
        Map::empty()
    } else {
        last_wins(entries.drop_last()).insert(entries.last().0, entries.last().1)
    }
}

/// One entry per distinct key, in first-seen order, each carrying the value of the key's
/// last occurrence.
pub open spec fn dedup_last_wins<K, V>(entries: Seq<(K, V)>) -> Seq<(K, V)> {
    first_seen_keys(keys_of(entries)).map_values(|k: K| (k, last_wins(entries)[k]))
}

/// The first-seen keys are exactly the keys that occur.
pub proof fn lemma_first_seen_contains<K>(keys: Seq<K>, k: K)
    ensures
        first_seen_keys(keys).contains(k) <==> keys.contains(k),
    decreases keys.len(),
{
    if keys.len() > 0 {
        let init = keys.drop_last();
        lemma_first_seen_contains(init, k);
        assert(keys =~= init.push(keys.last()));
        if init.contains(k) {
            let i = choose|i: int| 0 <= i < init.len() && init[i] == k;
            assert(keys[i] == k);
        }
        if keys.contains(k) && !init.contains(k) {
            let i = choose|i: int| 0 <= i < keys.len() && keys[i] == k;
            if i < init.len() {
                assert(init[i] == k);
            }
            assert(keys.last() == k);
        }
        let earlier = first_seen_keys(init);
        if !init.contains(keys.last()) {
            assert(earlier.push(keys.last())[earlier.len() as int] == keys.last());
            if earlier.contains(k) {
                let j = choose|j: int| 0 <= j < earlier.len() && earlier[j] == k;
                assert(earlier.push(keys.last())[j] == k);
            }
            if earlier.push(keys.last()).contains(k) && k != keys.last() {
                let j = choose|j: int|
                    0 <= j < earlier.len() + 1 && earlier.push(keys.last())[j] == k;
                assert(earlier[j] == k);
            }
        }
    }
}

/// No key is seen first twice.
pub proof fn lemma_first_seen_distinct<K>(keys: Seq<K>)
    ensures
        first_seen_keys(keys).no_duplicates(),
    decreases keys.len(),
{
    if keys.len() > 0 {
        let init = keys.drop_last();
        lemma_first_seen_distinct(init);
        lemma_first_seen_contains(init, keys.last());
        let earlier = first_seen_keys(init);
        if !init.contains(keys.last()) {
            let pushed = earlier.push(keys.last());
            assert forall|i: int, j: int|
                0 <= i < pushed.len() && 0 <= j < pushed.len() && i != j implies pushed[i]
                != pushed[j] by {
                if i < earlier.len() && j < earlier.len() {
                } else if i < earlier.len() {
                    assert(earlier.contains(pushed[i]));
                } else {
                    assert(earlier.contains(pushed[j]));
                }
            }
        }
    }
}

/// A key that already occurred does not change the first-seen keys.
pub proof fn lemma_first_seen_push_seen<K>(keys: Seq<K>, k: K)
    requires
        keys.contains(k),
    ensures
        first_seen_keys(keys.push(k)) == first_seen_keys(keys),
{
    assert(keys.push(k).drop_last() =~= keys);
}

/// A key that did not occur yet is appended to the first-seen keys.
pub proof fn lemma_first_seen_push_new<K>(keys: Seq<K>, k: K)
    requires
        !keys.contains(k),
    ensures
        first_seen_keys(keys.push(k)) == first_seen_keys(keys).push(k),
{
    assert(keys.push(k).drop_last() =~= keys);
}

/// The keys of the deduplicated entries are the first-seen keys.
pub proof fn lemma_dedup_keys<K, V>(entries: Seq<(K, V)>)
    ensures
        keys_of(dedup_last_wins(entries)) == first_seen_keys(keys_of(entries)),
{
    assert(keys_of(dedup_last_wins(entries)) =~= first_seen_keys(keys_of(entries)));
}

/// A key that occurs is in the domain of the last-wins map.
pub proof fn lemma_last_wins_dom<K, V>(entries: Seq<(K, V)>, k: K)
    ensures
        last_wins(entries).dom().contains(k) <==> keys_of(entries).contains(k),
    decreases entries.len(),
{
    if entries.len() > 0 {
        let init = entries.drop_last();
        lemma_last_wins_dom(init, k);
        assert(keys_of(entries) =~= keys_of(init).push(entries.last().0));
        if keys_of(init).contains(k) {
            let i = choose|i: int| 0 <= i < keys_of(init).len() && keys_of(init)[i] == k;
            assert(keys_of(entries)[i] == k);
        }
        if keys_of(entries).contains(k) && k != entries.last().0 {
            let i = choose|i: int| 0 <= i < keys_of(entries).len() && keys_of(entries)[i] == k;
            assert(i < init.len());
            assert(keys_of(init)[i] == k);
        }
        if k == entries.last().0 {
            assert(keys_of(entries)[entries.len() - 1] == k);
        }
    }
}

/// Appending an entry whose key already occurred replaces the value at that key's position.
pub proof fn lemma_dedup_push_seen<K, V>(entries: Seq<(K, V)>, k: K, v: V, index: int)
    requires
        0 <= index < dedup_last_wins(entries).len(),
        dedup_last_wins(entries)[index].0 == k,
    ensures
        dedup_last_wins(entries.push((k, v))) == dedup_last_wins(entries).update(index, (k, v)),
{
    let keys = keys_of(entries);
    let fs = first_seen_keys(keys);
    assert(keys_of(entries.push((k, v))) =~= keys.push(k));
    assert(fs[index] == k);
    assert(fs.contains(k));
    lemma_first_seen_contains(keys, k);
    lemma_first_seen_push_seen(keys, k);
    lemma_first_seen_distinct(keys);
    assert(entries.push((k, v)).drop_last() =~= entries);
    assert(dedup_last_wins(entries.push((k, v))) =~= dedup_last_wins(entries).update(
        index,
        (k, v),
    ));
}

/// Appending an entry with a new key appends it to the deduplicated entries.
pub proof fn lemma_dedup_push_new<K, V>(entries: Seq<(K, V)>, k: K, v: V)
    requires
        !keys_of(entries).contains(k),
    ensures
        dedup_last_wins(entries.push((k, v))) == dedup_last_wins(entries).push((k, v)),
{
    let keys = keys_of(entries);
    let fs = first_seen_keys(keys);
    assert(keys_of(entries.push((k, v))) =~= keys.push(k));
    lemma_first_seen_push_new(keys, k);
    lemma_first_seen_contains(keys, k);
    assert(entries.push((k, v)).drop_last() =~= entries);
    assert forall|j: int| 0 <= j < fs.len() implies fs[j] != k by {
        assert(fs.contains(fs[j]));
    }
    assert(dedup_last_wins(entries.push((k, v))) =~= dedup_last_wins(entries).push((k, v)));
}

} // verus!
