//! JSON values, as far as event payloads are read.

use vstd::prelude::*;

use crate::models::Double;
use crate::text::same_text;

verus! {

/// A JSON number. What has no fraction and fits is an integer; negative numbers are kept apart.
#[derive(Debug, PartialEq)]
pub enum Number {
    Unsigned(u64),
    Negative(i64),
    Float(Double),
}

/// A JSON value. The keys of an object are distinct.
#[derive(Debug, PartialEq)]
pub enum Json {
    Null,
    Bool(bool),
    Number(Number),
    Text(String),
    Array(Vec<Json>),
    Object(Vec<(String, Json)>),
}

/// The value under `key`, if there is one.
pub open spec fn entry(entries: Seq<(String, Json)>, key: Seq<char>) -> Option<Json>
    decreases entries.len(),
{
    if entries.len() == 0 {
        None
    } else if entries[0].0@ == key {
        Some(entries[0].1)
    } else {
        entry(entries.skip(1), key)
    }
}

/// The member of an object under `key`; anything else has no members.
pub open spec fn member(value: Json, key: Seq<char>) -> Option<Json> {
    match value {
        Json::Object(entries) => entry(entries@, key),
        _ => None,
    }
}

/// The member under `key`, or else the one under `other`.
pub open spec fn member_or(value: Json, key: Seq<char>, other: Seq<char>) -> Option<Json> {
    match member(value, key) {
        Some(v) => Some(v),
        None => member(value, other),
    }
}

/// The text that a value is, if it is one.
pub open spec fn text_of(value: Option<Json>) -> Option<Seq<char>> {
    match value {
        Some(Json::Text(s)) => Some(s@),
        _ => None,
    }
}

/// The text that a value is, or else a default.
pub open spec fn text_or(value: Option<Json>, default: Seq<char>) -> Seq<char> {
    match text_of(value) {
        Some(s) => s,
        None => default,
    }
}

/// The unsigned integer that a value is, or else 0.
pub open spec fn unsigned_or_zero(value: Option<Json>) -> u64 {
    match value {
        Some(Json::Number(Number::Unsigned(n))) => n,
        _ => 0,
    }
}

/// Whether a value is a text.
pub open spec fn is_text(value: Json) -> bool {
    value is Text
}

/// The texts that a value lists: none unless it is an array that holds nothing but texts.
pub open spec fn texts_of(value: Option<Json>) -> Seq<Seq<char>> {
    match value {
        Some(Json::Array(items)) if forall|i: int|
            0 <= i < items@.len() ==> is_text(#[trigger] items@[i]) => Seq::new(
            items@.len(),
            |i: int| items@[i]->Text_0@,
        ),
        _ => seq![],
    }
}

impl Json {
    /// The member of an object under `key`; anything else has no members.
    pub fn get(&self, key: &str) -> (r: Option<&Json>)
        ensures
            match r {
                Some(v) => member(*self, key@) == Some(*v),
                None => member(*self, key@) is None,
            },
    {
        match self {
            Json::Object(entries) => {
                let mut i: usize = 0;
                assert(entries@.skip(0) == entries@);
                while i < entries.len()
                    invariant
                        i <= entries@.len(),
                        self matches Json::Object(e) && e == *entries,
                        entry(entries@, key@) == entry(entries@.skip(i as int), key@),
                    decreases entries@.len() - i,
                {
                    assert(entries@.skip(i as int)[0] == entries@[i as int]);
                    if same_text(entries[i].0.as_str(), key) {
                        return Some(&entries[i].1);
                    }
                    assert(entries@.skip(i as int).skip(1) == entries@.skip(i + 1));
                    i = i + 1;
                }
                None
            },
            _ => None,
        }
    }

    /// The member under `key`, or else the one under `other`.
    pub fn get_or(&self, key: &str, other: &str) -> (r: Option<&Json>)
        ensures
            match r {
                Some(v) => member_or(*self, key@, other@) == Some(*v),
                None => member_or(*self, key@, other@) is None,
            },
    {
        match self.get(key) {
            Some(v) => Some(v),
            None => self.get(other),
        }
    }
}

/// What an optional reference points at.
pub open spec fn pointee(value: Option<&Json>) -> Option<Json> {
    match value {
        Some(v) => Some(*v),
        None => None,
    }
}

/// The text that a value is, if it is one.
pub fn read_text(value: Option<&Json>) -> (r: Option<String>)
    ensures
        match r {
            Some(s) => text_of(pointee(value)) == Some(s@),
            None => text_of(pointee(value)) is None,
        },
{
    match value {
        Some(Json::Text(s)) => Some(s.clone()),
        _ => None,
    }
}

/// The text that a value is, or else a default.
pub fn read_text_or(value: Option<&Json>, default: &str) -> (r: String)
    ensures
        r@ == text_or(pointee(value), default@),
{
    match value {
        Some(Json::Text(s)) => s.clone(),
        _ => default.to_string(),
    }
}

/// The unsigned integer that a value is, or else 0.
pub fn read_unsigned_or_zero(value: Option<&Json>) -> (r: u64)
    ensures
        r == unsigned_or_zero(pointee(value)),
{
    match value {
        Some(Json::Number(Number::Unsigned(n))) => *n,
        _ => 0,
    }
}

/// The texts that a value lists: none unless it is an array that holds nothing but texts.
pub fn read_texts(value: Option<&Json>) -> (r: Vec<String>)
    ensures
        r@.map_values(|s: String| s@) == texts_of(pointee(value)),
{
    let mut r: Vec<String> = Vec::new();
    if let Some(Json::Array(items)) = value {
        let mut i: usize = 0;
        while i < items.len()
            invariant
                value matches Some(v) && *v matches Json::Array(a) && a == *items,
                i == r@.len() <= items@.len(),
                forall|j: int|
                    0 <= j < i ==> is_text(#[trigger] items@[j]) && r@[j]@ == items@[j]->Text_0@,
            decreases items@.len() - i,
        {
            match &items[i] {
                Json::Text(s) => r.push(s.clone()),
                _ => {
                    assert(!is_text(items@[i as int]));
                    let none: Vec<String> = Vec::new();
                    assert(none@.map_values(|s: String| s@) =~= texts_of(pointee(value)));
                    return none;
                },
            }
            i = i + 1;
        }
    }
    assert(r@.map_values(|s: String| s@) =~= texts_of(pointee(value)));
    r
}

} // verus!
