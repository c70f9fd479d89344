//! The keyed collection diff: two lists of entries, each a key with an item,
//! are split into the entries only the head has (added), the entries only the
//! base has (removed), and the keys both have whose items differ (changed).
//!
//! This module holds the mathematical statement of that split, shared by the
//! diffs of paths, of the operations of a path item and of parameters, and
//! the facts about it that those diffs rest on.

use vstd::prelude::*;

verus! {

/// Whether some entry of `entries` has the key `key`.
pub open spec fn has_key<K, V>(entries: Seq<(K, V)>, key: K) -> bool {
    exists|i: int| 0 <= i < entries.len() && (#[trigger] entries[i]).0 == key
}

/// Whether `i` is the first position of `entries` that holds `key`.
pub open spec fn is_first_position<K, V>(entries: Seq<(K, V)>, key: K, i: int) -> bool {
    &&& 0 <= i < entries.len()
    &&& entries[i].0 == key
    &&& forall|j: int| 0 <= j < i ==> (#[trigger] entries[j]).0 != key
}

/// The first position of `entries` that holds `key`.
pub open spec fn position_of<K, V>(entries: Seq<(K, V)>, key: K) -> int {
    choose|i: int| is_first_position(entries, key, i)
}

/// The item that `entries` holds under `key`: that of the first such entry.
pub open spec fn item_of<K, V>(entries: Seq<(K, V)>, key: K) -> V {
    entries[position_of(entries, key)].1
}

/// Whether no two entries of `entries` share a key.
pub open spec fn distinct_keys<K, V>(entries: Seq<(K, V)>) -> bool {
    forall|i: int, j: int|
        0 <= i < j < entries.len() ==> (#[trigger] entries[i]).0 != (#[trigger] entries[j]).0
}

/// The test that the key of an entry does not occur in `other`.
pub open spec fn lacks_key<K, V>(other: Seq<(K, V)>) -> spec_fn((K, V)) -> bool {
    |entry: (K, V)| !has_key(other, entry.0)
}

/// The entries of `entries` whose key `other` lacks, in their order.
pub open spec fn only_in<K, V>(entries: Seq<(K, V)>, other: Seq<(K, V)>) -> Seq<(K, V)> {
    entries.filter(lacks_key(other))
}

/// For an entry of the base: its key with the change of its item against the
/// item that `head` holds under that key, where there is such an item and
/// `change` reports one.
pub open spec fn change_of<K, V, D>(
    head: Seq<(K, V)>,
    change: spec_fn(V, V) -> Option<D>,
) -> spec_fn((K, V)) -> Option<(K, D)> {
    |entry: (K, V)|
        if has_key(head, entry.0) {
            match change(entry.1, item_of(head, entry.0)) {
                Some(d) => Some((entry.0, d)),
                None => None,
            }
        } else {
            None
        }
}

/// The changed entries: for each entry of `base`, in order, whose key `head`
/// has too and whose item differs from the head's by `change`, the key with
/// that change.
pub open spec fn changed_in<K, V, D>(
    base: Seq<(K, V)>,
    head: Seq<(K, V)>,
    change: spec_fn(V, V) -> Option<D>,
) -> Seq<(K, D)> {
    base.filter_map(change_of(head, change))
}

/// The first failure met while walking `base` in order and comparing each
/// item whose key `head` has too with the head's item; `None` where every
/// such comparison is possible.
pub open spec fn first_failure<K, V, E>(
    base: Seq<(K, V)>,
    head: Seq<(K, V)>,
    failure: spec_fn(V, V) -> Option<E>,
) -> Option<E>
    decreases base.len(),
{
    if base.len() == 0 {
        None
    } else {
        match first_failure(base.drop_last(), head, failure) {
            Some(e) => Some(e),
            None => if has_key(head, base.last().0) {
                failure(base.last().1, item_of(head, base.last().0))
            } else {
                None
            },
        }
    }
}

/// The first position that holds a key is the position that `position_of` names.
pub proof fn lemma_first_position<K, V>(entries: Seq<(K, V)>, key: K, i: int)
    requires
        is_first_position(entries, key, i),
    ensures
        has_key(entries, key),
        position_of(entries, key) == i,
        item_of(entries, key) == entries[i].1,
{
    let p = position_of(entries, key);
    assert(is_first_position(entries, key, p));
    if p < i {
        assert(entries[p].0 != key);
    }
    if i < p {
        assert(entries[i].0 != key);
    }
}

/// One more entry of the walk: what `only_in` keeps of a prefix one longer.
pub proof fn lemma_only_in_step<K, V>(entries: Seq<(K, V)>, other: Seq<(K, V)>, i: int)
    requires
        0 <= i < entries.len(),
    ensures
        only_in(entries.take(i + 1), other) == if has_key(other, entries[i].0) {
            only_in(entries.take(i), other)
        } else {
            only_in(entries.take(i), other).push(entries[i])
        },
{
    assert(entries.take(i + 1) =~= entries.take(i).push(entries[i]));
    entries.take(i).lemma_filter_push(entries[i], lacks_key(other));
}

/// One more entry of the walk: what `changed_in` holds for a prefix one longer.
pub proof fn lemma_changed_in_step<K, V, D>(
    base: Seq<(K, V)>,
    head: Seq<(K, V)>,
    change: spec_fn(V, V) -> Option<D>,
    i: int,
)
    requires
        0 <= i < base.len(),
    ensures
        changed_in(base.take(i + 1), head, change) == match change_of(head, change)(base[i]) {
            Some(entry) => changed_in(base.take(i), head, change).push(entry),
            None => changed_in(base.take(i), head, change),
        },
{
    base.lemma_filter_map_take_succ(change_of(head, change), i);
    match change_of(head, change)(base[i]) {
        Some(entry) => {
            assert(changed_in(base.take(i), head, change) + seq![entry] =~= changed_in(
                base.take(i),
                head,
                change,
            ).push(entry));
        },
        None => {
            assert(changed_in(base.take(i), head, change) + Seq::<(K, D)>::empty() =~= changed_in(
                base.take(i),
                head,
                change,
            ));
        },
    }
}

/// One more entry of the walk: the first failure of a prefix one longer.
pub proof fn lemma_first_failure_step<K, V, E>(
    base: Seq<(K, V)>,
    head: Seq<(K, V)>,
    failure: spec_fn(V, V) -> Option<E>,
    i: int,
)
    requires
        0 <= i < base.len(),
    ensures
        first_failure(base.take(i + 1), head, failure) == match first_failure(
            base.take(i),
            head,
            failure,
        ) {
            Some(e) => Some(e),
            None => if has_key(head, base[i].0) {
                failure(base[i].1, item_of(head, base[i].0))
            } else {
                None
            },
        },
{
    assert(base.take(i + 1).drop_last() =~= base.take(i));
}

/// A failure met on a prefix of the walk is the failure of the whole walk.
pub proof fn lemma_first_failure_stays<K, V, E>(
    base: Seq<(K, V)>,
    head: Seq<(K, V)>,
    failure: spec_fn(V, V) -> Option<E>,
    i: int,
)
    requires
        0 <= i <= base.len(),
        first_failure(base.take(i), head, failure) is Some,
    ensures
        first_failure(base, head, failure) == first_failure(base.take(i), head, failure),
    decreases base.len() - i,
{
    if i < base.len() {
        lemma_first_failure_step(base, head, failure, i);
        lemma_first_failure_stays(base, head, failure, i + 1);
    } else {
        assert(base.take(i) =~= base);
    }
}

/// An entry that `pick` maps to something sends that into the filtered list.
pub proof fn lemma_filter_map_keeps<A, B>(entries: Seq<A>, pick: spec_fn(A) -> Option<B>, i: int)
    requires
        0 <= i < entries.len(),
        pick(entries[i]) is Some,
    ensures
        entries.filter_map(pick).contains(pick(entries[i])->0),
    decreases entries.len(),
{
    let rest = entries.drop_last();
    let wanted = pick(entries[i])->0;
    if i == entries.len() - 1 {
        let all = rest.filter_map(pick) + seq![wanted];
        assert(all[all.len() - 1] == wanted);
    } else {
        lemma_filter_map_keeps(rest, pick, i);
        let at = choose|at: int|
            0 <= at < rest.filter_map(pick).len() && rest.filter_map(pick)[at] == wanted;
        match pick(entries.last()) {
            Some(other) => {
                assert((rest.filter_map(pick) + seq![other])[at] == wanted);
            },
            None => {},
        }
    }
}

/// The keys of `only_in(entries, other)` are the keys that `entries` has and `other` lacks.
pub proof fn lemma_only_in_keys<K, V>(entries: Seq<(K, V)>, other: Seq<(K, V)>, key: K)
    ensures
        has_key(only_in(entries, other), key) <==> has_key(entries, key) && !has_key(other, key),
{
    let kept = only_in(entries, other);
    if has_key(kept, key) {
        let i = choose|i: int| 0 <= i < kept.len() && (#[trigger] kept[i]).0 == key;
        entries.lemma_filter_pred(lacks_key(other), i);
        assert(kept.contains(kept[i]));
        entries.lemma_filter_contains_rev(lacks_key(other), kept[i]);
        let j = choose|j: int| 0 <= j < entries.len() && entries[j] == kept[i];
        assert(entries[j].0 == key);
    }
    if has_key(entries, key) && !has_key(other, key) {
        let j = choose|j: int| 0 <= j < entries.len() && (#[trigger] entries[j]).0 == key;
        entries.lemma_filter_contains(lacks_key(other), j);
        let i = choose|i: int| 0 <= i < kept.len() && kept[i] == entries[j];
        assert(kept[i].0 == key);
    }
}

/// Whether some entry of `base` under `key` differs by `change` from the
/// item that `head` holds under `key`.
pub open spec fn differs_under<K, V, D>(
    base: Seq<(K, V)>,
    head: Seq<(K, V)>,
    change: spec_fn(V, V) -> Option<D>,
    key: K,
) -> bool {
    exists|i: int|
        0 <= i < base.len() && (#[trigger] base[i]).0 == key && change(
            base[i].1,
            item_of(head, key),
        ) is Some
}

/// The keys of `changed_in(base, head, change)` are the keys that both have
/// and under which an entry of the base differs from the head's item.
pub proof fn lemma_changed_in_keys<K, V, D>(
    base: Seq<(K, V)>,
    head: Seq<(K, V)>,
    change: spec_fn(V, V) -> Option<D>,
    key: K,
)
    ensures
        has_key(changed_in(base, head, change), key) <==> has_key(head, key) && differs_under(
            base,
            head,
            change,
            key,
        ),
{
    let pick = change_of(head, change);
    let changed = changed_in(base, head, change);
    if has_key(changed, key) {
        let i = choose|i: int| 0 <= i < changed.len() && (#[trigger] changed[i]).0 == key;
        assert(changed.contains(changed[i]));
        base.lemma_filter_map_contains(pick, changed[i]);
        let entry = choose|entry: (K, V)| #[trigger]
            base.contains(entry) && pick(entry) == Some(changed[i]);
        let j = choose|j: int| 0 <= j < base.len() && base[j] == entry;
        assert(base[j].0 == key);
    }
    if has_key(head, key) && differs_under(base, head, change, key) {
        let j = choose|j: int|
            0 <= j < base.len() && (#[trigger] base[j]).0 == key && change(
                base[j].1,
                item_of(head, key),
            ) is Some;
        lemma_filter_map_keeps(base, pick, j);
        let wanted = pick(base[j])->0;
        let i = choose|i: int| 0 <= i < changed.len() && changed[i] == wanted;
        assert(changed[i].0 == key);
    }
}

/// The three partitions of a keyed collection diff are disjoint, name only
/// keys of the base or the head, and leave out exactly the keys that both
/// have and under which nothing differs.
pub proof fn lemma_partition<K, V, D>(
    base: Seq<(K, V)>,
    head: Seq<(K, V)>,
    change: spec_fn(V, V) -> Option<D>,
    key: K,
)
    ensures
        has_key(only_in(head, base), key) <==> has_key(head, key) && !has_key(base, key),
        has_key(only_in(base, head), key) <==> has_key(base, key) && !has_key(head, key),
        has_key(changed_in(base, head, change), key) <==> has_key(base, key) && has_key(head, key)
            && differs_under(base, head, change, key),
        !(has_key(only_in(head, base), key) && has_key(only_in(base, head), key)),
        !(has_key(only_in(head, base), key) && has_key(changed_in(base, head, change), key)),
        !(has_key(only_in(base, head), key) && has_key(changed_in(base, head, change), key)),
{
    lemma_only_in_keys(head, base, key);
    lemma_only_in_keys(base, head, key);
    lemma_changed_in_keys(base, head, change, key);
}

/// Where no two entries share a key, neither do two kept entries.
pub proof fn lemma_only_in_distinct<K, V>(entries: Seq<(K, V)>, other: Seq<(K, V)>)
    requires
        distinct_keys(entries),
    ensures
        distinct_keys(only_in(entries, other)),
    decreases entries.len(),
{
    reveal(Seq::filter);
    if entries.len() > 0 {
        let rest = entries.drop_last();
        lemma_only_in_distinct(rest, other);
        let kept = only_in(rest, other);
        assert forall|i: int| 0 <= i < kept.len() implies (#[trigger] kept[i]).0
            != entries.last().0 by {
            assert(has_key(kept, kept[i].0));
            lemma_only_in_keys(rest, other, kept[i].0);
            let j = choose|j: int| 0 <= j < rest.len() && (#[trigger] rest[j]).0 == kept[i].0;
            assert(entries[j].0 != entries[entries.len() - 1].0);
        }
    }
}

/// Where no two entries of the base share a key, neither do two changed entries.
pub proof fn lemma_changed_in_distinct<K, V, D>(
    base: Seq<(K, V)>,
    head: Seq<(K, V)>,
    change: spec_fn(V, V) -> Option<D>,
)
    requires
        distinct_keys(base),
    ensures
        distinct_keys(changed_in(base, head, change)),
    decreases base.len(),
{
    if base.len() > 0 {
        let rest = base.drop_last();
        lemma_changed_in_distinct(rest, head, change);
        let changed = changed_in(rest, head, change);
        assert forall|i: int| 0 <= i < changed.len() implies (#[trigger] changed[i]).0
            != base.last().0 by {
            assert(has_key(changed, changed[i].0));
            lemma_changed_in_keys(rest, head, change, changed[i].0);
            let j = choose|j: int|
                0 <= j < rest.len() && (#[trigger] rest[j]).0 == changed[i].0 && change(
                    rest[j].1,
                    item_of(head, changed[i].0),
                ) is Some;
            assert(base[j].0 != base[base.len() - 1].0);
        }
    }
}

/// A list compared with itself has no entry that only one side has.
pub proof fn lemma_only_in_self<K, V>(entries: Seq<(K, V)>)
    ensures
        only_in(entries, entries).len() == 0,
{
    let kept = only_in(entries, entries);
    if kept.len() > 0 {
        assert(has_key(kept, kept[0].0));
        lemma_only_in_keys(entries, entries, kept[0].0);
    }
}

/// Where `change` reports nothing between an item and itself, a list with
/// distinct keys compared with itself has no changed entry.
pub proof fn lemma_changed_in_self<K, V, D>(entries: Seq<(K, V)>, change: spec_fn(V, V) -> Option<D>)
    requires
        distinct_keys(entries),
        forall|i: int|
            0 <= i < entries.len() ==> change((#[trigger] entries[i]).1, entries[i].1) is None,
    ensures
        changed_in(entries, entries, change).len() == 0,
{
    let changed = changed_in(entries, entries, change);
    if changed.len() > 0 {
        let key = changed[0].0;
        assert(has_key(changed, key));
        lemma_changed_in_keys(entries, entries, change, key);
        let i = choose|i: int|
            0 <= i < entries.len() && (#[trigger] entries[i]).0 == key && change(
                entries[i].1,
                item_of(entries, key),
            ) is Some;
        lemma_distinct_position(entries, i);
    }
}

/// Where no two entries share a key, each entry is the first under its key.
pub proof fn lemma_distinct_position<K, V>(entries: Seq<(K, V)>, i: int)
    requires
        distinct_keys(entries),
        0 <= i < entries.len(),
    ensures
        is_first_position(entries, entries[i].0, i),
        item_of(entries, entries[i].0) == entries[i].1,
{
    assert forall|j: int| 0 <= j < i implies (#[trigger] entries[j]).0 != entries[i].0 by {
        assert(entries[j].0 != entries[i].0);
    }
    lemma_first_position(entries, entries[i].0, i);
}

/// Where no comparison of an item with itself fails, a list with distinct
/// keys compared with itself meets no failure.
pub proof fn lemma_first_failure_self<K, V, E>(
    entries: Seq<(K, V)>,
    failure: spec_fn(V, V) -> Option<E>,
    n: int,
)
    requires
        distinct_keys(entries),
        0 <= n <= entries.len(),
        forall|i: int|
            0 <= i < entries.len() ==> failure((#[trigger] entries[i]).1, entries[i].1) is None,
    ensures
        first_failure(entries.take(n), entries, failure) is None,
    decreases n,
{
    if n > 0 {
        lemma_first_failure_self(entries, failure, n - 1);
        lemma_first_failure_step(entries, entries, failure, n - 1);
        lemma_distinct_position(entries, n - 1);
    }
}

} // verus!
