//! A JSON document as plain values, and lookup of an object's members.
use vstd::prelude::*;

verus! {

/// A parsed JSON value. A number is held as the text that JSON writes for
/// it; an object holds its members as a list, in whatever order the parser
/// handed them over, and a lookup takes the first member with a key.
pub enum Json {
    Null,
    Bool(bool),
    Number(String),
    Str(String),
    Array(Vec<Json>),
    Object(Vec<(String, Json)>),
}

/// The value of the first member at or after position `i` whose key is `key`.
pub open spec fn member_from(fields: Seq<(String, Json)>, key: Seq<char>, i: int) -> Option<Json>
    decreases fields.len() - i,
{
    if i < 0 || i >= fields.len() {
        None
    } else if fields[i].0@ == key {
        Some(fields[i].1)
    } else {
        member_from(fields, key, i + 1)
    }
}

/// The value of the member named `key`, if the object has one.
pub open spec fn member(fields: Seq<(String, Json)>, key: Seq<char>) -> Option<Json> {
    member_from(fields, key, 0)
}

/// Forgets the reference of an optional borrowed value.
pub open spec fn present(f: Option<&Json>) -> Option<Json> {
    match f {
        Some(j) => Some(*j),
        None => None,
    }
}

/// Looks up the member named `key` among an object's members.
pub fn get_member<'a>(fields: &'a Vec<(String, Json)>, key: &str) -> (r: Option<&'a Json>)
    ensures
        present(r) == member(fields@, key@),
{
    let k = key.to_string();
    let mut i: usize = 0;
    while i < fields.len()
        invariant
            i <= fields@.len(),
            k@ == key@,
            member(fields@, key@) == member_from(fields@, key@, i as int),
        decreases fields.len() - i,
    {
        if fields[i].0 == k {
            return Some(&fields[i].1);
        }
        i = i + 1;
    }
    None
}

} // verus!
