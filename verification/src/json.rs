//! The document model the resolver works on: a plain JSON-shaped tree of
//! owned values. The surrounding program turns fetched documents into this
//! shape; every walk over it here is verified.

use vstd::prelude::*;
use crate::text::str_eq;

verus! {

/// A JSON-shaped document value. Object members keep the order of the
/// document, so every walk over a document is deterministic.
pub enum Json {
    Null,
    Bool(bool),
    Int(i64),
    Str(String),
    Arr(Vec<Json>),
    Obj(Vec<(String, Json)>),
}

/// The value of the first member named `key`, if any.
pub open spec fn obj_get_spec(fields: Seq<(String, Json)>, key: Seq<char>) -> Option<Json>
    decreases fields.len(),
{
    if fields.len() == 0 {
        None
    } else if fields[0].0@ == key {
        Some(fields[0].1)
    } else {
        obj_get_spec(fields.drop_first(), key)
    }
}

/// The member named `key` of an object value; `None` on any other value.
pub open spec fn json_get_spec(j: Json, key: Seq<char>) -> Option<Json> {
    match j {
        Json::Obj(fields) => obj_get_spec(fields@, key),
        _ => None,
    }
}

/// The text of a string value; `None` on any other value.
pub open spec fn json_str_spec(j: Json) -> Option<Seq<char>> {
    match j {
        Json::Str(s) => Some(s@),
        _ => None,
    }
}

/// The integer of a number value; `None` on any other value.
pub open spec fn json_int_spec(j: Json) -> Option<int> {
    match j {
        Json::Int(n) => Some(n as int),
        _ => None,
    }
}

/// Looks the member named `key` up in an object value, as the first member
/// of that name; any other kind of value has no members.
pub fn json_get<'a>(j: &'a Json, key: &str) -> (r: Option<&'a Json>)
    ensures
        match r {
            Some(v) => json_get_spec(*j, key@) == Some(*v),
            None => json_get_spec(*j, key@).is_none(),
        },
{
    match j {
        Json::Obj(fields) => {
            let n = fields.len();
            proof {
                assert(fields@.skip(0) =~= fields@);
            }
            let mut i: usize = 0;
            while i < n
                invariant
                    i <= n,
                    n == fields@.len(),
                    json_get_spec(*j, key@) == obj_get_spec(fields@, key@),
                    obj_get_spec(fields@, key@) == obj_get_spec(fields@.skip(i as int), key@),
                decreases n - i,
            {
                let pair = &fields[i];
                if str_eq(pair.0.as_str(), key) {
                    proof {
                        let rest = fields@.skip(i as int);
                        assert(rest[0] == fields@[i as int]);
                        assert(rest.len() > 0 && rest[0].0@ == key@);
                        assert(obj_get_spec(rest, key@) == Some(rest[0].1));
                        assert(rest[0].1 == fields@[i as int].1);
                    }
                    return Some(&fields[i].1);
                }
                proof {
                    assert(fields@.skip(i as int).drop_first() =~= fields@.skip(i + 1));
                    assert(fields@.skip(i as int)[0] == fields@[i as int]);
                }
                i += 1;
            }
            None
        },
        _ => None,
    }
}

/// The text of a string value.
pub fn json_as_str<'a>(j: &'a Json) -> (r: Option<&'a String>)
    ensures
        match r {
            Some(s) => json_str_spec(*j) == Some(s@),
            None => json_str_spec(*j).is_none(),
        },
{
    match j {
        Json::Str(s) => Some(s),
        _ => None,
    }
}

/// The elements of an array value.
pub fn json_as_array<'a>(j: &'a Json) -> (r: Option<&'a Vec<Json>>)
    ensures
        match r {
            Some(a) => *j matches Json::Arr(v) && v == *a,
            None => !(*j matches Json::Arr(_)),
        },
{
    match j {
        Json::Arr(a) => Some(a),
        _ => None,
    }
}

/// The integer of a number value.
pub fn json_as_int(j: &Json) -> (r: Option<i64>)
    ensures
        match r {
            Some(n) => json_int_spec(*j) == Some(n as int),
            None => json_int_spec(*j).is_none(),
        },
{
    match j {
        Json::Int(n) => Some(*n),
        _ => None,
    }
}

} // verus!
