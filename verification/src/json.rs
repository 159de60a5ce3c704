//! The library's model of a parsed wire JSON value.
//!
//! The transport hands every inbound frame over as an already-parsed generic
//! JSON value; this module is the shape of such a value as the decoders read
//! it, together with the field-lookup primitives they share.

use vstd::prelude::*;
use vstd::string::StrSliceExecFns;

use crate::error::{malformed, DecodeError, DecodeErrorV};

verus! {

/// A parsed JSON value.
///
/// A `Num` carries its `u64` reading when the number is a non-negative
/// integer in range — the only numeric reading the decoders ever take —
/// and `None` for any other number.  An object keeps its bindings in wire
/// order; lookups take the first binding of a key.
#[derive(Debug)]
pub enum Json {
    Null,
    Bool(bool),
    Num(Option<u64>),
    Str(String),
    Arr(Vec<Json>),
    Obj(Vec<(String, Json)>),
}

/// The first binding of `key` in `fields`, if any.
pub open spec fn lookup_fields(fields: Seq<(String, Json)>, key: Seq<char>) -> Option<Json>
    decreases fields.len(),
{
    if fields.len() == 0 {
        None
    } else if fields[0].0@ == key {
        Some(fields[0].1)
    } else {
        lookup_fields(fields.drop_first(), key)
    }
}

/// What `key` names in `j`: `None` when `j` is not an object or has no such
/// binding.
pub open spec fn lookup(j: Json, key: Seq<char>) -> Option<Json> {
    match j {
        Json::Obj(fields) => lookup_fields(fields@, key),
        _ => None,
    }
}

/// What `key` names in `j`, reading JSON `null` as absence: `null` is the
/// wire's marker for a value that was not supplied.
pub open spec fn field_of(j: Json, key: Seq<char>) -> Option<Json> {
    match lookup(j, key) {
        Some(Json::Null) => None,
        r => r,
    }
}

/// Character-for-character string equality, decided against the views.
pub fn str_eq(a: &str, b: &str) -> (r: bool)
    ensures
        r == (a@ == b@),
{
    let la = a.unicode_len();
    let lb = b.unicode_len();
    if la != lb {
        return false;
    }
    let mut i: usize = 0;
    while i < la
        invariant
            la == a@.len(),
            la == b@.len(),
            i <= la,
            forall|k: int| 0 <= k < i ==> a@[k] == b@[k],
        decreases la - i,
    {
        let ca = a.get_char(i);
        let cb = b.get_char(i);
        if ca != cb {
            return false;
        }
        i = i + 1;
    }
    proof {
        assert(a@ =~= b@);
    }
    true
}

/// The first binding of `key` in `j`, by reference.
pub fn get<'a>(j: &'a Json, key: &str) -> (r: Option<&'a Json>)
    ensures
        match r {
            Some(f) => lookup(*j, key@) == Some(*f),
            None => lookup(*j, key@) is None,
        },
{
    match j {
        Json::Obj(fields) => {
            let n = fields.len();
            let mut i: usize = 0;
            proof {
                assert(fields@.skip(0) =~= fields@);
            }
            while i < n
                invariant
                    n == fields@.len(),
                    i <= n,
                    lookup(*j, key@) == lookup_fields(fields@, key@),
                    lookup_fields(fields@, key@) == lookup_fields(
                        fields@.skip(i as int),
                        key@,
                    ),
            decreases n - i,
            {
                if str_eq(fields[i].0.as_str(), key) {
                    proof {
                        let s = fields@.skip(i as int);
                        assert(s[0] == fields@[i as int]);
                        assert(lookup_fields(s, key@) == Some(s[0].1));
                    }
                    return Some(&fields[i].1);
                }
                proof {
                    let s = fields@.skip(i as int);
                    assert(s[0] == fields@[i as int]);
                    assert(s.drop_first() =~= fields@.skip(i + 1));
                    assert(lookup_fields(s, key@) == lookup_fields(s.drop_first(), key@));
                }
                i = i + 1;
            }
            proof {
                assert(fields@.skip(i as int).len() == 0);
            }
            None
        },
        _ => None,
    }
}

/// The first binding of `key` in `j`, with JSON `null` read as absence.
pub fn get_field<'a>(j: &'a Json, key: &str) -> (r: Option<&'a Json>)
    ensures
        match r {
            Some(f) => field_of(*j, key@) == Some(*f),
            None => field_of(*j, key@) is None,
        },
{
    match get(j, key) {
        Some(f) => match f {
            Json::Null => None,
            _ => Some(f),
        },
        None => None,
    }
}

/// The decodable capability: a payload type constructible by a pure,
/// fallible conversion from an untyped wire value.
pub trait FromValue: View + Sized {
    /// The value this type's rule reads out of `v`, or the failure met.
    spec fn decoded(v: Json) -> Result<Self::V, DecodeErrorV>;

    /// Decodes a payload of this type from an untyped wire value.
    fn from_value(v: &Json) -> (r: Result<Self, DecodeError>)
        ensures
            match r {
                Ok(p) => Self::decoded(*v) == Ok::<Self::V, DecodeErrorV>(p@),
                Err(e) => Self::decoded(*v) == Err::<Self::V, DecodeErrorV>(e@),
            },
    ;
}

/// A required string field of the payload object `v`: missing, null, or of
/// another JSON type is a malformed payload naming the field.
pub open spec fn req_str_v(v: Json, key: Seq<char>) -> Result<Seq<char>, DecodeErrorV> {
    match field_of(v, key) {
        Some(Json::Str(s)) => Ok(s@),
        _ => Err(DecodeErrorV::MalformedPayload { field: key }),
    }
}

/// Reads the required string field `key` of `v`.
pub fn req_str(v: &Json, key: &str) -> (r: Result<String, DecodeError>)
    ensures
        match r {
            Ok(s) => req_str_v(*v, key@) == Ok::<Seq<char>, DecodeErrorV>(s@),
            Err(e) => req_str_v(*v, key@) == Err::<Seq<char>, DecodeErrorV>(e@),
        },
{
    match get_field(v, key) {
        Some(Json::Str(s)) => Ok(s.clone()),
        _ => Err(malformed(key)),
    }
}

/// A required boolean field of `v`, read the same way.
pub open spec fn req_bool_v(v: Json, key: Seq<char>) -> Result<bool, DecodeErrorV> {
    match field_of(v, key) {
        Some(Json::Bool(b)) => Ok(b),
        _ => Err(DecodeErrorV::MalformedPayload { field: key }),
    }
}

/// Reads the required boolean field `key` of `v`.
pub fn req_bool(v: &Json, key: &str) -> (r: Result<bool, DecodeError>)
    ensures
        match r {
            Ok(b) => req_bool_v(*v, key@) == Ok::<bool, DecodeErrorV>(b),
            Err(e) => req_bool_v(*v, key@) == Err::<bool, DecodeErrorV>(e@),
        },
{
    match get_field(v, key) {
        Some(Json::Bool(b)) => Ok(*b),
        _ => Err(malformed(key)),
    }
}

} // verus!
