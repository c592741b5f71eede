//! The tree value type and the spec-level vocabulary for talking about
//! keyed entry lists.

use vstd::prelude::*;

verus! {

/// A dynamically-cased tree value, as a parser would hand it over:
/// exactly one case is active at a time.
///
/// The `Number` case carries the 64-bit pattern of the numeric value.  This
/// layer never interprets a number arithmetically — it only moves numbers
/// around — so the payload is kept as the raw bits and callers convert at
/// the edge.
///
/// The `Object` case keeps its entries in insertion order; a well-formed
/// object has pairwise distinct keys (see [`unique_keys`]).
#[derive(Debug, PartialEq)]
pub enum Json {
    Null,
    Boolean(bool),
    Number(u64),
    Text(String),
    Array(Vec<Json>),
    Object(Vec<(String, Json)>),
}

/// Whether some entry of `e` carries the key `k`.
pub open spec fn has_key<V>(e: Seq<(String, V)>, k: Seq<char>) -> bool {
    exists|i: int| 0 <= i < e.len() && e[i].0@ == k
}

/// The value stored under the first entry of `e` whose key is `k`,
/// or `None` when no entry carries `k`.
pub open spec fn lookup<V>(e: Seq<(String, V)>, k: Seq<char>) -> Option<V>
    decreases e.len(),
{
    if e.len() == 0 {
        None
    } else if e[0].0@ == k {
        Some(e[0].1)
    } else {
        lookup(e.drop_first(), k)
    }
}

/// `e` with the first entry whose key is `k` removed; `e` itself when no
/// entry carries `k`.
pub open spec fn remove_key<V>(e: Seq<(String, V)>, k: Seq<char>) -> Seq<(String, V)>
    decreases e.len(),
{
    if e.len() == 0 {
        e
    } else if e[0].0@ == k {
        e.drop_first()
    } else {
        seq![e[0]] + remove_key(e.drop_first(), k)
    }
}

/// `e` with the value of the first entry whose key is `k` replaced by `v`;
/// `e` itself when no entry carries `k`.
pub open spec fn update_key<V>(e: Seq<(String, V)>, k: Seq<char>, v: V) -> Seq<(String, V)>
    decreases e.len(),
{
    if e.len() == 0 {
        e
    } else if e[0].0@ == k {
        seq![(e[0].0, v)] + e.drop_first()
    } else {
        seq![e[0]] + update_key(e.drop_first(), k, v)
    }
}

/// Pairwise distinct keys: what a well-formed object's entry list satisfies.
pub open spec fn unique_keys<V>(e: Seq<(String, V)>) -> bool {
    forall|i: int, j: int| 0 <= i < j < e.len() ==> e[i].0@ != e[j].0@
}

/// When `i` is the first position carrying `k`, the looked-up value is the
/// one stored there.
pub(crate) proof fn lemma_found_lookup<V>(e: Seq<(String, V)>, k: Seq<char>, i: int)
    requires
        0 <= i < e.len(),
        e[i].0@ == k,
        forall|j: int| 0 <= j < i ==> e[j].0@ != k,
    ensures
        lookup(e, k) == Some(e[i].1),
    decreases i,
{
    if i > 0 {
        lemma_found_lookup(e.drop_first(), k, i - 1);
    }
}

/// When `i` is the first position carrying `k`, removing `k` removes
/// exactly the entry at `i`.
pub(crate) proof fn lemma_found_remove<V>(e: Seq<(String, V)>, k: Seq<char>, i: int)
    requires
        0 <= i < e.len(),
        e[i].0@ == k,
        forall|j: int| 0 <= j < i ==> e[j].0@ != k,
    ensures
        remove_key(e, k) == e.remove(i),
    decreases i,
{
    if i == 0 {
        assert(remove_key(e, k) =~= e.remove(0));
    } else {
        lemma_found_remove(e.drop_first(), k, i - 1);
        assert(seq![e[0]] + e.drop_first().remove(i - 1) =~= e.remove(i));
    }
}

/// When `i` is the first position carrying `k`, updating under `k` updates
/// exactly the value at `i`, for any replacement.
pub(crate) proof fn lemma_found_update<V>(e: Seq<(String, V)>, k: Seq<char>, i: int)
    requires
        0 <= i < e.len(),
        e[i].0@ == k,
        forall|j: int| 0 <= j < i ==> e[j].0@ != k,
    ensures
        forall|v: V| #[trigger] update_key(e, k, v) == e.update(i, (e[i].0, v)),
    decreases i,
{
    if i == 0 {
        assert forall|v: V| #[trigger] update_key(e, k, v) == e.update(i, (e[i].0, v)) by {
            assert(update_key(e, k, v) =~= e.update(0, (e[0].0, v)));
        }
    } else {
        lemma_found_update(e.drop_first(), k, i - 1);
        assert forall|v: V| #[trigger] update_key(e, k, v) == e.update(i, (e[i].0, v)) by {
            assert(update_key(e.drop_first(), k, v) == e.drop_first().update(
                i - 1,
                (e.drop_first()[i - 1].0, v),
            ));
            assert(seq![e[0]] + e.drop_first().update(i - 1, (e[i].0, v)) =~= e.update(
                i,
                (e[i].0, v),
            ));
        }
    }
}

/// When no entry carries `k`, looking up, removing and updating under `k`
/// all leave `e` as it is.
pub(crate) proof fn lemma_absent_key<V>(e: Seq<(String, V)>, k: Seq<char>)
    requires
        forall|j: int| 0 <= j < e.len() ==> e[j].0@ != k,
    ensures
        lookup(e, k) is None,
        remove_key(e, k) == e,
        forall|v: V| #[trigger] update_key(e, k, v) == e,
    decreases e.len(),
{
    if e.len() > 0 {
        lemma_absent_key(e.drop_first(), k);
        assert(seq![e[0]] + e.drop_first() =~= e);
        assert forall|v: V| #[trigger] update_key(e, k, v) == e by {
            assert(update_key(e, k, v) == seq![e[0]] + update_key(e.drop_first(), k, v));
        }
    }
}

/// A key is present exactly when looking it up finds a value.
pub proof fn lemma_has_key_lookup<V>(e: Seq<(String, V)>, k: Seq<char>)
    ensures
        has_key(e, k) <==> lookup(e, k) is Some,
    decreases e.len(),
{
    if e.len() == 0 {
    } else if e[0].0@ == k {
        assert(has_key(e, k)) by {
            assert(0 <= 0 < e.len() && e[0].0@ == k);
        }
    } else {
        lemma_has_key_lookup(e.drop_first(), k);
        assert(has_key(e.drop_first(), k) ==> has_key(e, k)) by {
            if has_key(e.drop_first(), k) {
                let i: int = choose|i: int|
                    0 <= i < e.drop_first().len() && e.drop_first()[i].0@ == k;
                assert(e[i + 1].0@ == k);
            }
        }
        assert(has_key(e, k) ==> has_key(e.drop_first(), k)) by {
            if has_key(e, k) {
                let i: int = choose|i: int| 0 <= i < e.len() && e[i].0@ == k;
                assert(e.drop_first()[i - 1].0@ == k);
            }
        }
    }
}

/// Removing a key from an entry list with pairwise distinct keys leaves the
/// key absent: after a removal that found the key, the key is gone.
pub proof fn lemma_remove_key_removes<V>(e: Seq<(String, V)>, k: Seq<char>)
    requires
        unique_keys(e),
    ensures
        !has_key(remove_key(e, k), k),
    decreases e.len(),
{
    if e.len() > 0 {
        if e[0].0@ == k {
            assert forall|i: int| 0 <= i < e.drop_first().len() implies e.drop_first()[i].0@
                != k by {
                assert(e[0].0@ != e[i + 1].0@);
            }
        } else {
            assert(unique_keys(e.drop_first())) by {
                assert forall|i: int, j: int|
                    0 <= i < j < e.drop_first().len() implies e.drop_first()[i].0@
                    != e.drop_first()[j].0@ by {
                    assert(e[i + 1].0@ != e[j + 1].0@);
                }
            }
            lemma_remove_key_removes(e.drop_first(), k);
            let r = remove_key(e, k);
            assert(r == seq![e[0]] + remove_key(e.drop_first(), k));
            assert forall|i: int| 0 <= i < r.len() implies r[i].0@ != k by {
                if i > 0 {
                    assert(r[i] == remove_key(e.drop_first(), k)[i - 1]);
                    assert(!has_key(remove_key(e.drop_first(), k), k));
                }
            }
        }
    }
}

} // verus!
