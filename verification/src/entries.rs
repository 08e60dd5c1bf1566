//! Members kept sorted by their text keys, each key once: the model of the
//! string-keyed maps of this crate.
use vstd::prelude::*;
use crate::text::{
    chars_lt, lemma_chars_lt_irreflexive, lemma_chars_lt_transitive, lemma_chars_lt_total,
    lemma_chars_lt_asymmetric,
};

verus! {

/// Whether the keys strictly increase, so that each key occurs once.
pub open spec fn keys_ordered<V>(e: Seq<(Seq<char>, V)>) -> bool {
    forall|i: int, j: int| 0 <= i < j < e.len() ==> chars_lt(#[trigger] e[i].0, #[trigger] e[j].0)
}

/// The value stored under `key`.
pub open spec fn entry_get<V>(e: Seq<(Seq<char>, V)>, key: Seq<char>) -> Option<V>
    decreases e.len(),
{
    if e.len() == 0 {
        None
    } else if e[0].0 == key {
        Some(e[0].1)
    } else {
        entry_get(e.drop_first(), key)
    }
}

/// Stores `value` under `key`: replaces the member with that key, or adds a
/// member before the first key that sorts after it.
pub open spec fn entry_insert<V>(e: Seq<(Seq<char>, V)>, key: Seq<char>, value: V) -> Seq<
    (Seq<char>, V),
>
    decreases e.len(),
{
    if e.len() == 0 {
        seq![(key, value)]
    } else if e[0].0 == key {
        seq![(key, value)] + e.drop_first()
    } else if chars_lt(key, e[0].0) {
        seq![(key, value)] + e
    } else {
        seq![e[0]] + entry_insert(e.drop_first(), key, value)
    }
}

/// Every key of the result is above `b` when `key` and every key of `e` are.
proof fn lemma_insert_lower_bound<V>(e: Seq<(Seq<char>, V)>, key: Seq<char>, value: V, b: Seq<char>)
    requires
        chars_lt(b, key),
        forall|j: int| 0 <= j < e.len() ==> chars_lt(b, #[trigger] e[j].0),
    ensures
        forall|i: int|
            0 <= i < entry_insert(e, key, value).len() ==> chars_lt(
                b,
                #[trigger] entry_insert(e, key, value)[i].0,
            ),
    decreases e.len(),
{
    let r = entry_insert(e, key, value);
    if e.len() > 0 && e[0].0 != key && !chars_lt(key, e[0].0) {
        lemma_insert_lower_bound(e.drop_first(), key, value, b);
        assert forall|i: int| 0 <= i < r.len() implies chars_lt(b, #[trigger] r[i].0) by {
            if i > 0 {
                assert(r[i] == entry_insert(e.drop_first(), key, value)[i - 1]);
            }
        }
    } else if e.len() > 0 && e[0].0 == key {
        assert forall|i: int| 0 <= i < r.len() implies chars_lt(b, #[trigger] r[i].0) by {
            if i > 0 {
                assert(r[i] == e[i]);
            }
        }
    } else if e.len() > 0 {
        assert forall|i: int| 0 <= i < r.len() implies chars_lt(b, #[trigger] r[i].0) by {
            if i > 0 {
                assert(r[i] == e[i - 1]);
            }
        }
    }
}

/// Storing keeps the keys strictly increasing.
pub proof fn lemma_insert_keeps_order<V>(e: Seq<(Seq<char>, V)>, key: Seq<char>, value: V)
    requires
        keys_ordered(e),
    ensures
        keys_ordered(entry_insert(e, key, value)),
    decreases e.len(),
{
    let r = entry_insert(e, key, value);
    if e.len() == 0 {
    } else if e[0].0 == key {
        assert forall|i: int, j: int| 0 <= i < j < r.len() implies chars_lt(
            #[trigger] r[i].0,
            #[trigger] r[j].0,
        ) by {
            assert(r[j] == e[j]);
            if i > 0 {
                assert(r[i] == e[i]);
            }
        }
    } else if chars_lt(key, e[0].0) {
        assert forall|i: int, j: int| 0 <= i < j < r.len() implies chars_lt(
            #[trigger] r[i].0,
            #[trigger] r[j].0,
        ) by {
            assert(r[j] == e[j - 1]);
            if i > 0 {
                assert(r[i] == e[i - 1]);
            } else if j - 1 > 0 {
                lemma_chars_lt_transitive(key, e[0].0, e[j - 1].0);
            }
        }
    } else {
        let rest = e.drop_first();
        assert(keys_ordered(rest)) by {
            assert forall|i: int, j: int| 0 <= i < j < rest.len() implies chars_lt(
                #[trigger] rest[i].0,
                #[trigger] rest[j].0,
            ) by {
                assert(rest[i] == e[i + 1] && rest[j] == e[j + 1]);
            }
        }
        lemma_insert_keeps_order(rest, key, value);
        lemma_chars_lt_total(key, e[0].0);
        assert forall|j: int| 0 <= j < rest.len() implies chars_lt(e[0].0, #[trigger] rest[j].0) by {
            assert(rest[j] == e[j + 1]);
        }
        lemma_insert_lower_bound(rest, key, value, e[0].0);
        let tail = entry_insert(rest, key, value);
        assert forall|i: int, j: int| 0 <= i < j < r.len() implies chars_lt(
            #[trigger] r[i].0,
            #[trigger] r[j].0,
        ) by {
            assert(r[j] == tail[j - 1]);
            if i > 0 {
                assert(r[i] == tail[i - 1]);
            }
        }
    }
}

/// Reading a key after storing under a key.
pub proof fn lemma_get_after_insert<V>(e: Seq<(Seq<char>, V)>, key: Seq<char>, value: V, other: Seq<char>)
    ensures
        entry_get(entry_insert(e, key, value), other) == if other == key {
            Some(value)
        } else {
            entry_get(e, other)
        },
    decreases e.len(),
{
    let r = entry_insert(e, key, value);
    if e.len() == 0 {
        assert(r.drop_first() =~= e);
    } else if e[0].0 == key {
        assert(r.drop_first() =~= e.drop_first());
    } else if chars_lt(key, e[0].0) {
        assert(r.drop_first() =~= e);
    } else {
        lemma_get_after_insert(e.drop_first(), key, value, other);
        assert(r.drop_first() =~= entry_insert(e.drop_first(), key, value));
    }
}

/// A key equal to no member's key is absent.
proof fn lemma_get_none<V>(e: Seq<(Seq<char>, V)>, key: Seq<char>)
    requires
        forall|j: int| 0 <= j < e.len() ==> (#[trigger] e[j]).0 != key,
    ensures
        entry_get(e, key) is None,
    decreases e.len(),
{
    if e.len() > 0 {
        assert forall|j: int| 0 <= j < e.drop_first().len() implies (#[trigger] e.drop_first()[j]).0
            != key by {
            assert(e.drop_first()[j] == e[j + 1]);
        }
        lemma_get_none(e.drop_first(), key);
    }
}

/// The suffix of an ordered sequence is ordered.
proof fn lemma_rest_ordered<V>(e: Seq<(Seq<char>, V)>)
    requires
        keys_ordered(e),
        e.len() > 0,
    ensures
        keys_ordered(e.drop_first()),
{
    let rest = e.drop_first();
    assert forall|i: int, j: int| 0 <= i < j < rest.len() implies chars_lt(
        #[trigger] rest[i].0,
        #[trigger] rest[j].0,
    ) by {
        assert(rest[i] == e[i + 1] && rest[j] == e[j + 1]);
    }
}

/// Storing under a key adds a member exactly when the key was absent.
pub proof fn lemma_insert_len<V>(e: Seq<(Seq<char>, V)>, key: Seq<char>, value: V)
    requires
        keys_ordered(e),
    ensures
        entry_insert(e, key, value).len() == if entry_get(e, key) is Some {
            e.len()
        } else {
            e.len() + 1
        },
    decreases e.len(),
{
    if e.len() > 0 && e[0].0 != key && !chars_lt(key, e[0].0) {
        lemma_rest_ordered(e);
        lemma_insert_len(e.drop_first(), key, value);
    } else if e.len() > 0 && e[0].0 != key {
        assert forall|j: int| 0 <= j < e.len() implies (#[trigger] e[j]).0 != key by {
            if j > 0 {
                lemma_chars_lt_transitive(key, e[0].0, e[j].0);
            }
            lemma_chars_lt_irreflexive(key);
        }
        lemma_get_none(e, key);
    }
}

} // verus!
