//! A model of the JSON values the remote API answers with. The library
//! holds a parsed document in its own [`Json`] type; the one call into the
//! json crate is the parse itself, behind a trusted wrapper whose result is
//! named by [`json_of`].

use vstd::prelude::*;

use vstd::string::StringExecFns;

use crate::text::str_eq;

verus! {

/// A JSON value. A number is kept in the textual form the wire carried, so
/// that reading it as an integer is this library's own, checked, logic.
#[derive(Debug)]
pub enum Json {
    Null,
    Bool(bool),
    Num(String),
    Str(String),
    Arr(Vec<Json>),
    Obj(Vec<(String, Json)>),
}

/// The value under `key` among `entries`: the first entry with that key.
pub open spec fn lookup(entries: Seq<(String, Json)>, key: Seq<char>) -> Option<Json>
    decreases entries.len(),
{
    if entries.len() == 0 {
        None
    } else if entries[0].0@ == key {
        Some(entries[0].1)
    } else {
        lookup(entries.drop_first(), key)
    }
}

/// `v` is an object with an entry under `key`.
pub open spec fn has_key(v: Json, key: Seq<char>) -> bool {
    &&& v matches Json::Obj(entries)
    &&& lookup(entries@, key) is Some
}

/// The value under `key` in `v`; `Null` when `v` is not an object or has no
/// such entry, as indexing a JSON document answers.
pub open spec fn at_key(v: Json, key: Seq<char>) -> Json {
    match v {
        Json::Obj(entries) => match lookup(entries@, key) {
            Some(w) => w,
            None => Json::Null,
        },
        _ => Json::Null,
    }
}

/// The text a scalar value reads as: `None` for arrays and objects.
pub open spec fn scalar_text(v: Json) -> Option<Seq<char>> {
    match v {
        Json::Null => Some("null"@),
        Json::Bool(b) => Some(if b { "true"@ } else { "false"@ }),
        Json::Num(t) => Some(t@),
        Json::Str(t) => Some(t@),
        _ => None,
    }
}

/// Borrows the value under `key` in `v`, if `v` is an object holding one.
pub fn json_get<'a>(v: &'a Json, key: &str) -> (r: Option<&'a Json>)
    ensures
        match r {
            Some(w) => has_key(*v, key@) && *w == at_key(*v, key@),
            None => !has_key(*v, key@),
        },
{
    match v {
        Json::Obj(entries) => {
            let n = entries.len();
            let mut i: usize = 0;
            proof {
                assert(entries@.skip(0) =~= entries@);
            }
            while i < n
                invariant
                    *v == Json::Obj(*entries),
                    n == entries.len(),
                    i <= n,
                    lookup(entries@, key@) == lookup(entries@.skip(i as int), key@),
                decreases n - i,
            {
                if str_eq(entries[i].0.as_str(), key) {
                    proof {
                        assert(entries@.skip(i as int)[0] == entries@[i as int]);
                        assert(lookup(entries@.skip(i as int), key@) == Some(
                            entries@[i as int].1,
                        ));
                    }
                    return Some(&entries[i].1);
                }
                proof {
                    assert(entries@.skip(i as int)[0] == entries@[i as int]);
                    assert(entries@.skip(i as int).drop_first() =~= entries@.skip(i as int + 1));
                }
                i += 1;
            }
            proof {
                assert(entries@.skip(n as int).len() == 0);
            }
            None
        },
        _ => None,
    }
}

/// `v` is an object with an entry under `key`.
pub fn json_has_key(v: &Json, key: &str) -> (r: bool)
    ensures
        r == has_key(*v, key@),
{
    match json_get(v, key) {
        Some(_) => true,
        None => false,
    }
}

/// Takes the value under `key` out of `v`; `Null` when there is none.
pub fn json_take(v: Json, key: &str) -> (r: Json)
    ensures
        r == at_key(v, key@),
{
    match v {
        Json::Obj(mut entries) => {
            let n = entries.len();
            let mut i: usize = 0;
            proof {
                assert(entries@.skip(0) =~= entries@);
            }
            while i < n
                invariant
                    v == Json::Obj(entries),
                    n == entries.len(),
                    i <= n,
                    lookup(entries@, key@) == lookup(entries@.skip(i as int), key@),
                decreases n - i,
            {
                if str_eq(entries[i].0.as_str(), key) {
                    proof {
                        assert(entries@.skip(i as int)[0] == entries@[i as int]);
                        assert(lookup(entries@.skip(i as int), key@) == Some(
                            entries@[i as int].1,
                        ));
                    }
                    let pair = entries.remove(i);
                    return pair.1;
                }
                proof {
                    assert(entries@.skip(i as int)[0] == entries@[i as int]);
                    assert(entries@.skip(i as int).drop_first() =~= entries@.skip(i as int + 1));
                }
                i += 1;
            }
            proof {
                assert(entries@.skip(n as int).len() == 0);
            }
            Json::Null
        },
        _ => Json::Null,
    }
}

/// The text of a scalar value, as [`scalar_text`] gives it.
pub fn scalar_string(v: &Json) -> (r: Option<String>)
    ensures
        match r {
            Some(t) => scalar_text(*v) == Some(t@),
            None => scalar_text(*v) is None,
        },
{
    match v {
        Json::Null => Some(String::from_str("null")),
        Json::Bool(b) => Some(
            if *b {
                String::from_str("true")
            } else {
                String::from_str("false")
            },
        ),
        Json::Num(t) => Some(t.clone()),
        Json::Str(t) => Some(t.clone()),
        _ => None,
    }
}

#[verifier::external_type_specification]
#[verifier::external_body]
pub struct ExJsonValue(json::JsonValue);

/// What `json::parse` yields on a given text, carried over into [`Json`];
/// `None` stands for a parse error.
pub uninterp spec fn json_of(s: Seq<char>) -> Option<Json>;

/// Relies on `json::parse`: the outcome depends on the text alone.
#[verifier::external_body]
pub(crate) fn parse_json(s: &str) -> (r: Option<Json>)
    ensures
        r == json_of(s@),
{
    json::parse(s).ok().map(|v| from_parsed(&v))
}

/// Relies on the json crate's value enum: each variant is carried over one
/// for one, numbers in the textual form their display gives.
#[verifier::external_body]
fn from_parsed(v: &json::JsonValue) -> Json {
    match v {
        json::JsonValue::Null => Json::Null,
        json::JsonValue::Boolean(b) => Json::Bool(*b),
        json::JsonValue::Number(n) => Json::Num(n.to_string()),
        json::JsonValue::Short(s) => Json::Str(s.to_string()),
        json::JsonValue::String(s) => Json::Str(s.clone()),
        json::JsonValue::Array(a) => Json::Arr(a.iter().map(from_parsed).collect()),
        json::JsonValue::Object(o) => Json::Obj(
            o.iter().map(|(k, w)| (k.to_string(), from_parsed(w))).collect(),
        ),
    }
}

} // verus!
