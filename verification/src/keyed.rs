//! Sequences of records that are found by a key: the model of a keyed
//! store, and of a query that keeps some of its records.

use vstd::prelude::*;

verus! {

/// The position of the first record at or after `from` whose key is `id`,
/// or `items.len()` when there is none.
pub open spec fn position_of<T>(
    items: Seq<T>,
    key: spec_fn(T) -> Seq<char>,
    id: Seq<char>,
    from: int,
) -> int
    decreases items.len() - from,
{
    if from >= items.len() {
        items.len() as int
    } else if key(items[from]) == id {
        from
    } else {
        position_of(items, key, id, from + 1)
    }
}

/// The record stored under `id`.
pub open spec fn found<T>(items: Seq<T>, key: spec_fn(T) -> Seq<char>, id: Seq<char>) -> Option<T> {
    let at = position_of(items, key, id, 0);
    if at < items.len() {
        Some(items[at])
    } else {
        None
    }
}

/// The records after `item` has been stored: it takes the place of the
/// record with its key, or comes last where there is none.
pub open spec fn upserted<T>(items: Seq<T>, key: spec_fn(T) -> Seq<char>, item: T) -> Seq<T> {
    let at = position_of(items, key, key(item), 0);
    if at < items.len() {
        items.update(at, item)
    } else {
        items.push(item)
    }
}

/// No two records have the same key.
pub open spec fn distinct_keys<T>(items: Seq<T>, key: spec_fn(T) -> Seq<char>) -> bool {
    forall|i: int, j: int|
        0 <= i < j < items.len() ==> key(#[trigger] items[i]) != key(#[trigger] items[j])
}

/// Those of the first `n` records that `keep` holds of, in order.
pub open spec fn kept_upto<T>(items: Seq<T>, keep: spec_fn(T) -> bool, n: nat) -> Seq<T>
    decreases n,
{
    if n == 0 {
        Seq::empty()
    } else if keep(items[n - 1]) {
        kept_upto(items, keep, (n - 1) as nat).push(items[n - 1])
    } else {
        kept_upto(items, keep, (n - 1) as nat)
    }
}

/// The records that `keep` holds of, in order.
pub open spec fn kept<T>(items: Seq<T>, keep: spec_fn(T) -> bool) -> Seq<T> {
    kept_upto(items, keep, items.len())
}

/// `position_of` finds a record with the key, and none stands before it.
pub proof fn lemma_position_of<T>(
    items: Seq<T>,
    key: spec_fn(T) -> Seq<char>,
    id: Seq<char>,
    from: int,
)
    requires
        0 <= from <= items.len(),
    ensures
        from <= position_of(items, key, id, from) <= items.len(),
        position_of(items, key, id, from) < items.len() ==> key(
            items[position_of(items, key, id, from)],
        ) == id,
        forall|k: int|
            from <= k < position_of(items, key, id, from) ==> key(#[trigger] items[k]) != id,
    decreases items.len() - from,
{
    if from < items.len() && key(items[from]) != id {
        lemma_position_of(items, key, id, from + 1);
    }
}

/// Where the record at `at` is the first with the key `id`, `position_of`
/// is `at`.
pub proof fn lemma_position_is<T>(
    items: Seq<T>,
    key: spec_fn(T) -> Seq<char>,
    id: Seq<char>,
    from: int,
    at: int,
)
    requires
        0 <= from <= at <= items.len(),
        at < items.len() ==> key(items[at]) == id,
        forall|k: int| from <= k < at ==> key(#[trigger] items[k]) != id,
    ensures
        position_of(items, key, id, from) == at,
    decreases at - from,
{
    if from < at {
        lemma_position_is(items, key, id, from + 1, at);
    }
}

/// What was stored is what is found.
pub proof fn lemma_upsert_then_find<T>(items: Seq<T>, key: spec_fn(T) -> Seq<char>, item: T)
    ensures
        found(upserted(items, key, item), key, key(item)) == Some(item),
{
    let id = key(item);
    let at = position_of(items, key, id, 0);
    lemma_position_of(items, key, id, 0);
    let after = upserted(items, key, item);
    lemma_position_is(after, key, id, 0, at);
}

/// Storing a record leaves what is found under every other key unchanged.
pub proof fn lemma_upsert_keeps_others<T>(
    items: Seq<T>,
    key: spec_fn(T) -> Seq<char>,
    item: T,
    id: Seq<char>,
)
    requires
        id != key(item),
    ensures
        found(upserted(items, key, item), key, id) == found(items, key, id),
{
    let at = position_of(items, key, key(item), 0);
    lemma_position_of(items, key, key(item), 0);
    let other = position_of(items, key, id, 0);
    lemma_position_of(items, key, id, 0);
    let after = upserted(items, key, item);
    if other < items.len() {
        lemma_position_is(after, key, id, 0, other);
    } else {
        lemma_position_is(after, key, id, 0, after.len() as int);
    }
}

/// Storing a record removes none: whatever key was taken before is taken
/// after.
pub proof fn lemma_upsert_never_forgets<T>(
    items: Seq<T>,
    key: spec_fn(T) -> Seq<char>,
    item: T,
    id: Seq<char>,
)
    requires
        found(items, key, id) is Some,
    ensures
        found(upserted(items, key, item), key, id) is Some,
        upserted(items, key, item).len() >= items.len(),
{
    lemma_position_of(items, key, key(item), 0);
    if id == key(item) {
        lemma_upsert_then_find(items, key, item);
    } else {
        lemma_upsert_keeps_others(items, key, item, id);
    }
}

/// Storing a record keeps the keys distinct.
pub proof fn lemma_upsert_distinct<T>(items: Seq<T>, key: spec_fn(T) -> Seq<char>, item: T)
    requires
        distinct_keys(items, key),
    ensures
        distinct_keys(upserted(items, key, item), key),
{
    lemma_position_of(items, key, key(item), 0);
}

/// Storing two records with one key, one after the other, leaves the second
/// to be found.
pub proof fn lemma_last_write_wins<T>(
    items: Seq<T>,
    key: spec_fn(T) -> Seq<char>,
    first: T,
    second: T,
)
    requires
        key(first) == key(second),
    ensures
        found(upserted(upserted(items, key, first), key, second), key, key(second)) == Some(
            second,
        ),
        upserted(upserted(items, key, first), key, second).len() == upserted(
            items,
            key,
            first,
        ).len(),
{
    let once = upserted(items, key, first);
    lemma_upsert_then_find(once, key, second);
    lemma_upsert_then_find(items, key, first);
    lemma_position_of(once, key, key(second), 0);
}

/// What a query keeps: each kept record is a record among the first `n`
/// that `keep` holds of, and each such record is kept.
pub proof fn lemma_kept_upto<T>(items: Seq<T>, keep: spec_fn(T) -> bool, n: nat)
    requires
        n <= items.len(),
    ensures
        kept_upto(items, keep, n).len() <= n,
        forall|i: int|
            0 <= i < kept_upto(items, keep, n).len() ==> keep(
                #[trigger] kept_upto(items, keep, n)[i],
            ) && exists|k: int| 0 <= k < n && #[trigger] items[k] == kept_upto(items, keep, n)[i],
        forall|k: int|
            0 <= k < n && keep(#[trigger] items[k]) ==> exists|i: int|
                0 <= i < kept_upto(items, keep, n).len() && #[trigger] kept_upto(items, keep, n)[i]
                    == items[k],
    decreases n,
{
    if n > 0 {
        let before = kept_upto(items, keep, (n - 1) as nat);
        let now = kept_upto(items, keep, n);
        lemma_kept_upto(items, keep, (n - 1) as nat);
        assert forall|i: int| 0 <= i < now.len() implies keep(#[trigger] now[i]) && exists|k: int|
            0 <= k < n && #[trigger] items[k] == now[i] by {
            if i < before.len() {
                assert(now[i] == before[i]);
                let k = choose|k: int| 0 <= k < n - 1 && #[trigger] items[k] == before[i];
                assert(0 <= k < n && items[k] == now[i]);
            } else {
                assert(items[n - 1] == now[i]);
            }
        }
        assert forall|k: int| 0 <= k < n && keep(#[trigger] items[k]) implies exists|i: int|
            0 <= i < now.len() && #[trigger] now[i] == items[k] by {
            if k < n - 1 {
                let i = choose|i: int| 0 <= i < before.len() && #[trigger] before[i] == items[k];
                assert(now[i] == items[k]);
            } else {
                assert(now[now.len() - 1] == items[k]);
            }
        }
    }
}

} // verus!
