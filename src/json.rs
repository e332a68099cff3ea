//! A JSON value, as the service's reply holds it, and reading its members.

use vstd::prelude::*;

verus! {

/// A JSON value. Numbers keep what the response schema can read: a
/// non-negative integer, a negative integer, or the mark of a number with a
/// fraction or an exponent.
pub enum Json {
    Null,
    Bool(bool),
    UInt(u64),
    NegInt(i64),
    Fraction,
    Str(String),
    Array(Vec<Json>),
    Object(Vec<(String, Json)>),
}

/// The value of the first entry named `key`.
pub open spec fn entry_of(entries: Seq<(String, Json)>, key: Seq<char>) -> Option<Json>
    decreases entries.len(),
{
    if entries.len() == 0 {
        None
    } else if entries[0].0@ == key {
        Some(entries[0].1)
    } else {
        entry_of(entries.drop_first(), key)
    }
}

/// The member `key` of an object; `None` for a value that is no object.
pub open spec fn member(j: Json, key: Seq<char>) -> Option<Json> {
    match j {
        Json::Object(m) => entry_of(m@, key),
        _ => None,
    }
}

pub open spec fn text_at(j: Json, key: Seq<char>) -> Option<Seq<char>> {
    match member(j, key) {
        Some(Json::Str(s)) => Some(s@),
        _ => None,
    }
}

pub open spec fn flag_at(j: Json, key: Seq<char>) -> Option<bool> {
    match member(j, key) {
        Some(Json::Bool(b)) => Some(b),
        _ => None,
    }
}

/// An integer member that fits in a `u32`.
pub open spec fn u32_at(j: Json, key: Seq<char>) -> Option<u32> {
    match member(j, key) {
        Some(Json::UInt(n)) => if n <= u32::MAX as u64 {
            Some(n as u32)
        } else {
            None
        },
        _ => None,
    }
}

/// An integer member that fits in a `u8`.
pub open spec fn u8_at(j: Json, key: Seq<char>) -> Option<u8> {
    match member(j, key) {
        Some(Json::UInt(n)) => if n <= u8::MAX as u64 {
            Some(n as u8)
        } else {
            None
        },
        _ => None,
    }
}

pub open spec fn list_at(j: Json, key: Seq<char>) -> Option<Seq<Json>> {
    match member(j, key) {
        Some(Json::Array(a)) => Some(a@),
        _ => None,
    }
}

/// The member `key` of an object.
pub fn get_member<'a>(j: &'a Json, key: &str) -> (r: Option<&'a Json>)
    ensures
        match r {
            Some(v) => member(*j, key@) == Some(*v),
            None => member(*j, key@) is None,
        },
{
    match j {
        Json::Object(m) => {
            let k = key.to_owned();
            let mut i: usize = 0;
            assert(m@.subrange(0, m@.len() as int) =~= m@);
            while i < m.len()
                invariant
                    i <= m@.len(),
                    k@ == key@,
                    member(*j, key@) == entry_of(m@, key@),
                    entry_of(m@, key@) == entry_of(m@.subrange(i as int, m@.len() as int), key@),
                decreases m@.len() - i,
            {
                assert(m@.subrange(i as int, m@.len() as int).drop_first() =~= m@.subrange(
                    i + 1,
                    m@.len() as int,
                ));
                let ghost rest = m@.subrange(i as int, m@.len() as int);
                assert(rest[0] == m@[i as int]);
                if m[i].0 == k {
                    assert(entry_of(rest, key@) == Some(m@[i as int].1));
                    return Some(&m[i].1);
                }
                i += 1;
            }
            None
        },
        _ => None,
    }
}

pub fn get_text(j: &Json, key: &str) -> (r: Option<String>)
    ensures
        match r {
            Some(s) => text_at(*j, key@) == Some(s@),
            None => text_at(*j, key@) is None,
        },
{
    match get_member(j, key) {
        Some(Json::Str(s)) => Some(s.clone()),
        _ => None,
    }
}

pub fn get_flag(j: &Json, key: &str) -> (r: Option<bool>)
    ensures
        r == flag_at(*j, key@),
{
    match get_member(j, key) {
        Some(Json::Bool(b)) => Some(*b),
        _ => None,
    }
}

pub fn get_u32(j: &Json, key: &str) -> (r: Option<u32>)
    ensures
        r == u32_at(*j, key@),
{
    match get_member(j, key) {
        Some(Json::UInt(n)) => if *n <= u32::MAX as u64 {
            Some(*n as u32)
        } else {
            None
        },
        _ => None,
    }
}

pub fn get_u8(j: &Json, key: &str) -> (r: Option<u8>)
    ensures
        r == u8_at(*j, key@),
{
    match get_member(j, key) {
        Some(Json::UInt(n)) => if *n <= u8::MAX as u64 {
            Some(*n as u8)
        } else {
            None
        },
        _ => None,
    }
}

pub fn get_list<'a>(j: &'a Json, key: &str) -> (r: Option<&'a Vec<Json>>)
    ensures
        match r {
            Some(a) => list_at(*j, key@) == Some(a@),
            None => list_at(*j, key@) is None,
        },
{
    match get_member(j, key) {
        Some(Json::Array(a)) => Some(a),
        _ => None,
    }
}

} // verus!
