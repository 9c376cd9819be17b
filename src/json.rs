//! A JSON document as the library reads it: objects keep their members in
//! document order, numbers keep their text.
use crate::parsing::text::same_text;
use vstd::prelude::*;

verus! {

#[derive(Debug)]
pub enum Json {
    Null,
    Bool(bool),
    Number(String),
    Str(String),
    Array(Vec<Json>),
    Object(Vec<(String, Json)>),
}

/// The position of the first member named `key`, or -1.
pub open spec fn key_index(es: Seq<(String, Json)>, key: Seq<char>) -> int
    decreases es.len(),
{
    if es.len() == 0 {
        -1
    } else if es[0].0@ == key {
        0
    } else {
        let r = key_index(es.drop_first(), key);
        if r < 0 {
            -1
        } else {
            r + 1
        }
    }
}

/// The member `key` of an object; `None` for a missing member or a value
/// that is not an object.
pub open spec fn field(j: Json, key: Seq<char>) -> Option<Json> {
    match j {
        Json::Object(es) => {
            let i = key_index(es@, key);
            if 0 <= i < es@.len() {
                Some(es@[i].1)
            } else {
                None
            }
        },
        _ => None,
    }
}

/// The text of a string value.
pub open spec fn as_text(j: Option<Json>) -> Option<Seq<char>> {
    match j {
        Some(Json::Str(s)) => Some(s@),
        _ => None,
    }
}

/// The items of an array value.
pub open spec fn as_items(j: Option<Json>) -> Option<Seq<Json>> {
    match j {
        Some(Json::Array(v)) => Some(v@),
        _ => None,
    }
}

/// Finds the first member named `key`.
pub fn find_key(es: &Vec<(String, Json)>, key: &str) -> (r: Option<usize>)
    ensures
        match r {
            Some(i) => i as int == key_index(es@, key@) && i < es@.len(),
            None => key_index(es@, key@) == -1,
        },
{
    let mut i: usize = 0;
    assert(es@.subrange(0, es@.len() as int) =~= es@);
    while i < es.len()
        invariant
            i <= es@.len(),
            key_index(es@, key@) == if key_index(es@.subrange(i as int, es@.len() as int), key@)
                < 0 {
                -1
            } else {
                key_index(es@.subrange(i as int, es@.len() as int), key@) + i
            },
        decreases es@.len() - i,
    {
        let ghost rest = es@.subrange(i as int, es@.len() as int);
        assert(rest.drop_first() =~= es@.subrange(i + 1, es@.len() as int));
        if same_text(es[i].0.as_str(), key) {
            return Some(i);
        }
        i = i + 1;
    }
    assert(es@.subrange(i as int, es@.len() as int) =~= Seq::<(String, Json)>::empty());
    None
}

/// The member `key` of `j`, if `j` is an object that has one.
pub fn get_field<'a>(j: &'a Json, key: &str) -> (r: Option<&'a Json>)
    ensures
        match r {
            Some(x) => field(*j, key@) == Some(*x),
            None => field(*j, key@) is None,
        },
{
    match j {
        Json::Object(es) => match find_key(es, key) {
            Some(i) => Some(&es[i].1),
            None => None,
        },
        _ => None,
    }
}

} // verus!
