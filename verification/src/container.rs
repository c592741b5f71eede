//! The user-facing container operations over a tree value: generic typed
//! extraction, keyed property access and array iteration.

use vstd::prelude::*;
use crate::extract::FromT;
use crate::iter::TIterator;
use crate::iter::TMoveIterator;
use crate::iter::TMutIterator;
use crate::value::Json;
use crate::value::lemma_absent_key;
use crate::value::lemma_found_lookup;
use crate::value::lemma_found_remove;
use crate::value::lemma_found_update;
use crate::value::lookup;
use crate::value::remove_key;
use crate::value::update_key;

verus! {

/// The operations available on every tree value: typed extraction in three
/// ownership modes, an emptiness check, keyed property access when the
/// object case is active, and array iteration that yields nothing when the
/// array case is not.
pub trait TContainer: Sized {
    /// Whether the active case is the null case.
    spec fn null_case(self) -> bool;

    /// Whether the active case is the array case.
    spec fn arr_case(self) -> bool;

    /// The array elements; empty unless the array case is active.
    spec fn arr_seq(self) -> Seq<Self>;

    /// Whether the active case is the keyed-object case.
    spec fn obj_case(self) -> bool;

    /// The key/value entries in order; empty unless the object case is
    /// active.
    spec fn entries_of(self) -> Seq<(String, Self)>;

    /// Typed consuming extraction; the node is gone whether or not its
    /// case matched.
    fn take<U: FromT<Self>>(self) -> (r: Option<U>)
        ensures
            r == (if U::case_matches(self) {
                Some(U::payload(self))
            } else {
                None::<U>
            }),
    ;

    /// Typed read-only extraction; the node is untouched.
    fn peek<'a, U: FromT<Self>>(&'a self) -> (r: Option<&'a U>)
        ensures
            r is Some <==> U::case_matches(*self),
            r is Some ==> *r.unwrap() == U::payload(*self),
    ;

    /// Typed in-place extraction: on a match the node ends up wrapping
    /// whatever the caller leaves behind the returned reference; on a
    /// mismatch it is untouched.
    fn mut_peek<'a, U: FromT<Self>>(&'a mut self) -> (r: Option<&'a mut U>)
        ensures
            r is Some <==> U::case_matches(*old(self)),
            r is Some ==> *r.unwrap() == U::payload(*old(self)) && *final(self) == U::wrap(
                *final(r.unwrap()),
            ),
            r is None ==> *final(self) == *old(self),
    ;

    /// Removes the property under `prop` and extracts its value with the
    /// requested type.  Whenever the key is found its entry is removed,
    /// even when the extraction type then fails to match and the removed
    /// value is lost; a node of another case, or an object without the
    /// key, is untouched.
    fn pop_property<U: FromT<Self>>(&mut self, prop: String) -> (r: Option<U>)
        ensures
            ({
                let e = old(self).entries_of();
                let found = lookup(e, prop@);
                &&& !(old(self).obj_case() && found is Some) ==> {
                    &&& r is None
                    &&& *final(self) == *old(self)
                }
                &&& (old(self).obj_case() && found is Some) ==> {
                    &&& final(self).obj_case()
                    &&& final(self).entries_of() == remove_key(e, prop@)
                    &&& r == (if U::case_matches(found.unwrap()) {
                        Some(U::payload(found.unwrap()))
                    } else {
                        None::<U>
                    })
                }
            }),
    ;

    /// Looks the property under `prop` up and peeks at its value with the
    /// requested type: absent when the node is of another case, the key is
    /// missing, or the value's case does not match.
    fn property<'a, U: FromT<Self>>(&'a self, prop: String) -> (r: Option<&'a U>)
        ensures
            ({
                let found = lookup(self.entries_of(), prop@);
                &&& r is Some <==> found is Some && U::case_matches(found.unwrap())
                &&& r is Some ==> *r.unwrap() == U::payload(found.unwrap())
            }),
    ;

    /// Looks the property under `prop` up and peeks mutably at its value
    /// with the requested type; on a hit the entry ends up holding
    /// whatever the caller leaves behind the returned reference, under its
    /// old key and in its old position.
    fn mut_property<'a, U: FromT<Self>>(&'a mut self, prop: String) -> (r: Option<&'a mut U>)
        ensures
            ({
                let e = old(self).entries_of();
                let found = lookup(e, prop@);
                &&& (r is Some <==> found is Some && U::case_matches(found.unwrap()))
                &&& r is None ==> *final(self) == *old(self)
                &&& r is Some ==> {
                    &&& *r.unwrap() == U::payload(found.unwrap())
                    &&& final(self).obj_case()
                    &&& final(self).entries_of() == update_key(
                        e,
                        prop@,
                        U::wrap(*final(r.unwrap())),
                    )
                }
            }),
    ;

    /// Consuming iteration over the array elements; a node of any other
    /// case yields nothing and is dropped.
    fn array_move_iter(self) -> (it: TMoveIterator<Self>)
        ensures
            it.remaining() == self.arr_seq(),
    ;

    /// Read-only iteration over the array elements; a node of any other
    /// case yields nothing.
    fn array_iter<'a>(&'a self) -> (it: TIterator<'a, Self>)
        ensures
            it.remaining() == self.arr_seq(),
    ;

    /// In-place iteration over the array elements; a node of any other
    /// case yields nothing and is untouched.  On an array the node stays
    /// an array, holding whatever the caller leaves behind the yielded
    /// references.
    fn array_mut_iter<'a>(&'a mut self) -> (it: TMutIterator<'a, Self>)
        ensures
            it.remaining() == old(self).arr_seq(),
            !old(self).arr_case() ==> *final(self) == *old(self) && it.rest is None,
            old(self).arr_case() ==> it.rest is Some && final(self).arr_case() && (match it.rest {
                Some(s) => final(self).arr_seq() == final(s)@,
                None => true,
            }),
    ;

    /// Whether the node is the empty (null) node; an empty array or empty
    /// object is not empty in this sense.
    fn empty(&self) -> (r: bool)
        ensures
            r == self.null_case(),
    ;
}

/// For an object node with pairwise distinct keys that carries `k`, a pop
/// under `k` finds the key — so by [`TContainer::pop_property`]'s contract
/// the entry is removed whether or not the requested type then matches —
/// and afterwards the key is gone from the node's entries.
pub proof fn lemma_pop_property_removes(m: Json, k: Seq<char>)
    requires
        crate::value::unique_keys(m.entries_of()),
        crate::value::has_key(m.entries_of(), k),
    ensures
        lookup(m.entries_of(), k) is Some,
        !crate::value::has_key(remove_key(m.entries_of(), k), k),
{
    crate::value::lemma_has_key_lookup(m.entries_of(), k);
    crate::value::lemma_remove_key_removes(m.entries_of(), k);
}

/// The position of the first entry of `entries` whose key is `prop`.
fn find_key(entries: &Vec<(String, Json)>, prop: &String) -> (r: Option<usize>)
    ensures
        r matches Some(i) ==> i < entries@.len() && entries@[i as int].0@ == prop@ && (forall|
            j: int,
        |
            0 <= j < i ==> entries@[j].0@ != prop@),
        r is None ==> forall|j: int| 0 <= j < entries@.len() ==> entries@[j].0@ != prop@,
{
    let mut i: usize = 0;
    while i < entries.len()
        invariant
            i <= entries@.len(),
            forall|j: int| 0 <= j < i ==> entries@[j].0@ != prop@,
        decreases entries@.len() - i,
    {
        if entries[i].0.eq(prop) {
            return Some(i);
        }
        i += 1;
    }
    None
}

/// A mutable reference to the value of the entry at `i`, leaving the key
/// and the other entries as they are.
fn entry_value_mut<'v>(entries: &'v mut Vec<(String, Json)>, i: usize) -> (vr: &'v mut Json)
    requires
        i < old(entries)@.len(),
    ensures
        *vr == old(entries)@[i as int].1,
        final(entries)@ == old(entries)@.update(
            i as int,
            (old(entries)@[i as int].0, *final(vr)),
        ),
{
    let entry = &mut entries[i];
    &mut entry.1
}

impl TContainer for Json {
    open spec fn null_case(self) -> bool {
        self is Null
    }

    open spec fn arr_case(self) -> bool {
        self is Array
    }

    open spec fn arr_seq(self) -> Seq<Json> {
        match self {
            Json::Array(v) => v@,
            _ => Seq::empty(),
        }
    }

    open spec fn obj_case(self) -> bool {
        self is Object
    }

    open spec fn entries_of(self) -> Seq<(String, Json)> {
        match self {
            Json::Object(e) => e@,
            _ => Seq::empty(),
        }
    }

    fn take<U: FromT<Json>>(self) -> (r: Option<U>) {
        U::take(self)
    }

    fn peek<'a, U: FromT<Json>>(&'a self) -> (r: Option<&'a U>) {
        U::peek(self)
    }

    fn mut_peek<'a, U: FromT<Json>>(&'a mut self) -> (r: Option<&'a mut U>) {
        U::mut_peek(self)
    }

    fn pop_property<U: FromT<Json>>(&mut self, prop: String) -> (r: Option<U>) {
        match self {
            Json::Object(entries) => {
                match find_key(entries, &prop) {
                    Some(i) => {
                        proof {
                            lemma_found_lookup(entries@, prop@, i as int);
                            lemma_found_remove(entries@, prop@, i as int);
                        }
                        let entry = entries.remove(i);
                        U::take(entry.1)
                    },
                    None => {
                        proof {
                            lemma_absent_key::<Json>(entries@, prop@);
                        }
                        None
                    },
                }
            },
            _ => None,
        }
    }

    fn property<'a, U: FromT<Json>>(&'a self, prop: String) -> (r: Option<&'a U>) {
        match self {
            Json::Object(entries) => {
                match find_key(entries, &prop) {
                    Some(i) => {
                        proof {
                            lemma_found_lookup(entries@, prop@, i as int);
                        }
                        U::peek(&entries[i].1)
                    },
                    None => {
                        proof {
                            lemma_absent_key::<Json>(entries@, prop@);
                        }
                        None
                    },
                }
            },
            _ => None,
        }
    }

    fn mut_property<'a, U: FromT<Json>>(&'a mut self, prop: String) -> (r: Option<&'a mut U>) {
        match self {
            Json::Object(entries) => {
                match find_key(entries, &prop) {
                    Some(i) => {
                        proof {
                            lemma_found_lookup(entries@, prop@, i as int);
                            lemma_found_update(entries@, prop@, i as int);
                        }
                        if U::peek(&entries[i].1).is_none() {
                            return None;
                        }
                        let vr = entry_value_mut(entries, i);
                        U::mut_peek(vr)
                    },
                    None => {
                        proof {
                            lemma_absent_key::<Json>(entries@, prop@);
                        }
                        None
                    },
                }
            },
            _ => None,
        }
    }

    fn array_move_iter(self) -> (it: TMoveIterator<Json>) {
        match self {
            Json::Array(values) => TMoveIterator::over(values),
            _ => TMoveIterator::exhausted(),
        }
    }

    fn array_iter<'a>(&'a self) -> (it: TIterator<'a, Json>) {
        match self {
            Json::Array(values) => TIterator::over(values),
            _ => TIterator::exhausted(),
        }
    }

    fn array_mut_iter<'a>(&'a mut self) -> (it: TMutIterator<'a, Json>) {
        match self {
            Json::Array(values) => TMutIterator::over(values.as_mut_slice()),
            _ => TMutIterator::exhausted(),
        }
    }

    fn empty(&self) -> (r: bool) {
        match self {
            Json::Null => true,
            _ => false,
        }
    }
}

} // verus!
