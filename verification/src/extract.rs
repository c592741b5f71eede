//! The typed extraction capability: one implementation per target type.

use vstd::prelude::*;
use crate::value::Json;

verus! {

/// The extraction capability for pulling a `Self` out of a container `T`.
///
/// One implementation exists per concrete payload type the container can
/// hold, plus an identity implementation for the container itself.  Each
/// implementation fixes a case predicate ([`FromT::case_matches`]), the
/// payload read out of a matching container ([`FromT::payload`]), and the
/// container built back around a payload ([`FromT::wrap`]); the three
/// extraction modes (consuming, borrowing, mutably borrowing) are then
/// specified uniformly in terms of those three.
///
/// Adding a further target type is a matter of one more implementation of
/// this trait — the set of target types is open, not a closed switch.
pub trait FromT<T>: Sized {
    /// Whether the container's active case is the one this target type
    /// extracts.
    spec fn case_matches(t: T) -> bool;

    /// The payload carried by a matching container.
    spec fn payload(t: T) -> Self
        recommends
            Self::case_matches(t),
    ;

    /// The container whose active case carries the given payload.
    spec fn wrap(p: Self) -> T;

    /// `payload` and `wrap` are inverse to one another on the matching case.
    proof fn wrap_properties(t: T, p: Self)
        ensures
            Self::case_matches(Self::wrap(p)),
            Self::payload(Self::wrap(p)) == p,
            Self::case_matches(t) ==> Self::wrap(Self::payload(t)) == t,
    ;

    /// Consuming extraction: the payload when the case matches, `None`
    /// otherwise; the container is gone either way.
    fn take(t: T) -> (r: Option<Self>)
        ensures
            r == (if Self::case_matches(t) {
                Some(Self::payload(t))
            } else {
                None::<Self>
            }),
    ;

    /// Read-only extraction: a reference into the container's payload when
    /// the case matches, `None` otherwise; the container is untouched.
    fn peek<'a>(t: &'a T) -> (r: Option<&'a Self>)
        ensures
            r is Some <==> Self::case_matches(*t),
            r is Some ==> *r.unwrap() == Self::payload(*t),
    ;

    /// In-place extraction: a mutable reference into the container's
    /// payload when the case matches, `None` otherwise.  On a match the
    /// container ends up carrying whatever the caller leaves behind the
    /// returned reference; on a mismatch it is untouched.
    fn mut_peek<'a>(t: &'a mut T) -> (r: Option<&'a mut Self>)
        ensures
            r is Some <==> Self::case_matches(*old(t)),
            r is Some ==> *r.unwrap() == Self::payload(*old(t)) && *final(t) == Self::wrap(
                *final(r.unwrap()),
            ),
            r is None ==> *final(t) == *old(t),
    ;
}

impl FromT<Json> for bool {
    open spec fn case_matches(t: Json) -> bool {
        t is Boolean
    }

    open spec fn payload(t: Json) -> bool {
        t->Boolean_0
    }

    open spec fn wrap(p: bool) -> Json {
        Json::Boolean(p)
    }

    proof fn wrap_properties(t: Json, p: bool) {
    }

    fn take(t: Json) -> (r: Option<bool>) {
        match t {
            Json::Boolean(b) => Some(b),
            _ => None,
        }
    }

    fn peek<'a>(t: &'a Json) -> (r: Option<&'a bool>) {
        match t {
            Json::Boolean(b) => Some(b),
            _ => None,
        }
    }

    fn mut_peek<'a>(t: &'a mut Json) -> (r: Option<&'a mut bool>) {
        match t {
            Json::Boolean(b) => Some(b),
            _ => None,
        }
    }
}

impl FromT<Json> for u64 {
    open spec fn case_matches(t: Json) -> bool {
        t is Number
    }

    open spec fn payload(t: Json) -> u64 {
        t->Number_0
    }

    open spec fn wrap(p: u64) -> Json {
        Json::Number(p)
    }

    proof fn wrap_properties(t: Json, p: u64) {
    }

    fn take(t: Json) -> (r: Option<u64>) {
        match t {
            Json::Number(n) => Some(n),
            _ => None,
        }
    }

    fn peek<'a>(t: &'a Json) -> (r: Option<&'a u64>) {
        match t {
            Json::Number(n) => Some(n),
            _ => None,
        }
    }

    fn mut_peek<'a>(t: &'a mut Json) -> (r: Option<&'a mut u64>) {
        match t {
            Json::Number(n) => Some(n),
            _ => None,
        }
    }
}

impl FromT<Json> for String {
    open spec fn case_matches(t: Json) -> bool {
        t is Text
    }

    open spec fn payload(t: Json) -> String {
        t->Text_0
    }

    open spec fn wrap(p: String) -> Json {
        Json::Text(p)
    }

    proof fn wrap_properties(t: Json, p: String) {
    }

    fn take(t: Json) -> (r: Option<String>) {
        match t {
            Json::Text(s) => Some(s),
            _ => None,
        }
    }

    fn peek<'a>(t: &'a Json) -> (r: Option<&'a String>) {
        match t {
            Json::Text(s) => Some(s),
            _ => None,
        }
    }

    fn mut_peek<'a>(t: &'a mut Json) -> (r: Option<&'a mut String>) {
        match t {
            Json::Text(s) => Some(s),
            _ => None,
        }
    }
}

impl FromT<Json> for Vec<Json> {
    open spec fn case_matches(t: Json) -> bool {
        t is Array
    }

    open spec fn payload(t: Json) -> Vec<Json> {
        t->Array_0
    }

    open spec fn wrap(p: Vec<Json>) -> Json {
        Json::Array(p)
    }

    proof fn wrap_properties(t: Json, p: Vec<Json>) {
    }

    fn take(t: Json) -> (r: Option<Vec<Json>>) {
        match t {
            Json::Array(v) => Some(v),
            _ => None,
        }
    }

    fn peek<'a>(t: &'a Json) -> (r: Option<&'a Vec<Json>>) {
        match t {
            Json::Array(v) => Some(v),
            _ => None,
        }
    }

    fn mut_peek<'a>(t: &'a mut Json) -> (r: Option<&'a mut Vec<Json>>) {
        match t {
            Json::Array(v) => Some(v),
            _ => None,
        }
    }
}

impl FromT<Json> for Vec<(String, Json)> {
    open spec fn case_matches(t: Json) -> bool {
        t is Object
    }

    open spec fn payload(t: Json) -> Vec<(String, Json)> {
        t->Object_0
    }

    open spec fn wrap(p: Vec<(String, Json)>) -> Json {
        Json::Object(p)
    }

    proof fn wrap_properties(t: Json, p: Vec<(String, Json)>) {
    }

    fn take(t: Json) -> (r: Option<Vec<(String, Json)>>) {
        match t {
            Json::Object(e) => Some(e),
            _ => None,
        }
    }

    fn peek<'a>(t: &'a Json) -> (r: Option<&'a Vec<(String, Json)>>) {
        match t {
            Json::Object(e) => Some(e),
            _ => None,
        }
    }

    fn mut_peek<'a>(t: &'a mut Json) -> (r: Option<&'a mut Vec<(String, Json)>>) {
        match t {
            Json::Object(e) => Some(e),
            _ => None,
        }
    }
}

/// The identity implementation: requesting the generic tree value itself
/// always succeeds and hands the node through unchanged.
impl FromT<Json> for Json {
    open spec fn case_matches(t: Json) -> bool {
        true
    }

    open spec fn payload(t: Json) -> Json {
        t
    }

    open spec fn wrap(p: Json) -> Json {
        p
    }

    proof fn wrap_properties(t: Json, p: Json) {
    }

    fn take(t: Json) -> (r: Option<Json>) {
        Some(t)
    }

    fn peek<'a>(t: &'a Json) -> (r: Option<&'a Json>) {
        Some(t)
    }

    fn mut_peek<'a>(t: &'a mut Json) -> (r: Option<&'a mut Json>) {
        Some(t)
    }
}

} // verus!
