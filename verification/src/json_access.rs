//! Reading members of JSON objects as the content rules need them: required and optional
//! strings, integers, numbers, arrays and attribute objects, and the set of allowed keys.

use vstd::prelude::*;

use crate::models::json::{JsonNumber, JsonValue};
use crate::text::{concat, str_equals};

verus! {

/// The position of the member named `key`, the first one if several share it.
pub open spec fn member_index(members: Seq<(String, JsonValue)>, key: Seq<char>, from: int) -> Option<int>
    decreases members.len() - from,
{
    if from < 0 || from >= members.len() {
        None
    } else if members[from].0@ == key {
        Some(from)
    } else {
        member_index(members, key, from + 1)
    }
}

/// The value of the member named `key`, if any.
pub open spec fn member(members: Seq<(String, JsonValue)>, key: Seq<char>) -> Option<JsonValue> {
    match member_index(members, key, 0) {
        Some(i) => Some(members[i].1),
        None => None,
    }
}

/// A member found from `from` lies inside the members.
pub proof fn lemma_member_index_bounds(members: Seq<(String, JsonValue)>, key: Seq<char>, from: int)
    requires
        0 <= from,
    ensures
        member_index(members, key, from) matches Some(i) ==> from <= i < members.len()
            && members[i].0@ == key,
    decreases members.len() - from,
{
    if from < members.len() && members[from].0@ != key {
        lemma_member_index_bounds(members, key, from + 1);
    }
}

/// The position of the member named `key`.
pub fn find_member(members: &Vec<(String, JsonValue)>, key: &str) -> (r: Option<usize>)
    ensures
        r matches Some(i) ==> i < members.len() && member_index(members@, key@, 0) == Some(i as int),
        r is None ==> member_index(members@, key@, 0) is None,
{
    let mut i: usize = 0;
    while i < members.len()
        invariant
            i <= members.len(),
            member_index(members@, key@, 0) == member_index(members@, key@, i as int),
        decreases members.len() - i,
    {
        if str_equals(members[i].0.as_str(), key) {
            return Some(i);
        }
        i = i + 1;
    }
    None
}

/// The message for a member `key` that is missing or of the wrong type.
pub open spec fn invalid_value_message(key: Seq<char>) -> Seq<char> {
    "contains an invalid "@ + key + " value"@
}

/// The message for a member `key` that is missing or of the wrong type.
pub fn invalid_value(key: &str) -> (r: String)
    ensures
        r@ == invalid_value_message(key@),
{
    let start = concat("contains an invalid ", key);
    concat(start.as_str(), " value")
}

/// The message for a node whose attributes are not an object.
pub open spec fn invalid_attributes_message() -> Seq<char> {
    "contains invalid node attributes"@
}

/// The message for a value that should be an object.
pub open spec fn not_object_message() -> Seq<char> {
    "contains a value that is not an object"@
}

/// The string member `key`.
pub open spec fn required_string_spec(members: Seq<(String, JsonValue)>, key: Seq<char>) -> Result<Seq<char>, Seq<char>> {
    match member(members, key) {
        Some(JsonValue::String(s)) => Ok(s@),
        _ => Err(invalid_value_message(key)),
    }
}

/// The string member `key`, or the message that refuses it.
pub fn required_string<'a>(members: &'a Vec<(String, JsonValue)>, key: &str) -> (r: Result<&'a String, String>)
    ensures
        match r {
            Ok(s) => required_string_spec(members@, key@) == Ok::<Seq<char>, Seq<char>>(s@),
            Err(m) => required_string_spec(members@, key@) == Err::<Seq<char>, Seq<char>>(m@),
        },
{
    match find_member(members, key) {
        Some(i) => match &members[i].1 {
            JsonValue::String(s) => Ok(s),
            _ => Err(invalid_value(key)),
        },
        None => Err(invalid_value(key)),
    }
}

/// The value of a number as a signed 64-bit integer, when it is one.
pub open spec fn number_as_i64(n: JsonNumber) -> Option<i64> {
    match n {
        JsonNumber::PosInt(u) => if u <= i64::MAX {
            Some(u as i64)
        } else {
            None
        },
        JsonNumber::NegInt(i) => Some(i),
        JsonNumber::Float { .. } => None,
    }
}

/// The value of a number as a signed 64-bit integer, when it is one.
pub fn as_i64(n: JsonNumber) -> (r: Option<i64>)
    ensures
        r == number_as_i64(n),
{
    match n {
        JsonNumber::PosInt(u) => {
            if u <= 9_223_372_036_854_775_807 {
                Some(u as i64)
            } else {
                None
            }
        },
        JsonNumber::NegInt(i) => Some(i),
        JsonNumber::Float { .. } => None,
    }
}

/// The integer member `key`.
pub open spec fn required_integer_spec(members: Seq<(String, JsonValue)>, key: Seq<char>) -> Result<i64, Seq<char>> {
    match member(members, key) {
        Some(JsonValue::Number(n)) => match number_as_i64(n) {
            Some(i) => Ok(i),
            None => Err(invalid_value_message(key)),
        },
        _ => Err(invalid_value_message(key)),
    }
}

/// The integer member `key`, or the message that refuses it.
pub fn required_integer(members: &Vec<(String, JsonValue)>, key: &str) -> (r: Result<i64, String>)
    ensures
        match r {
            Ok(i) => required_integer_spec(members@, key@) == Ok::<i64, Seq<char>>(i),
            Err(m) => required_integer_spec(members@, key@) == Err::<i64, Seq<char>>(m@),
        },
{
    match find_member(members, key) {
        Some(i) => match &members[i].1 {
            JsonValue::Number(n) => match as_i64(*n) {
                Some(v) => Ok(v),
                None => Err(invalid_value(key)),
            },
            _ => Err(invalid_value(key)),
        },
        None => Err(invalid_value(key)),
    }
}

/// The optional integer member `key`: absent or null reads as none.
pub open spec fn optional_integer_spec(members: Seq<(String, JsonValue)>, key: Seq<char>) -> Result<Option<i64>, Seq<char>> {
    match member(members, key) {
        Some(JsonValue::Number(n)) => match number_as_i64(n) {
            Some(i) => Ok(Some(i)),
            None => Err(invalid_value_message(key)),
        },
        Some(JsonValue::Null) => Ok(None),
        None => Ok(None),
        Some(_) => Err(invalid_value_message(key)),
    }
}

/// The optional integer member `key`, or the message that refuses it.
pub fn optional_integer(members: &Vec<(String, JsonValue)>, key: &str) -> (r: Result<Option<i64>, String>)
    ensures
        match r {
            Ok(i) => optional_integer_spec(members@, key@) == Ok::<Option<i64>, Seq<char>>(i),
            Err(m) => optional_integer_spec(members@, key@) == Err::<Option<i64>, Seq<char>>(m@),
        },
{
    match find_member(members, key) {
        Some(i) => match &members[i].1 {
            JsonValue::Number(n) => match as_i64(*n) {
                Some(v) => Ok(Some(v)),
                None => Err(invalid_value(key)),
            },
            JsonValue::Null => Ok(None),
            _ => Err(invalid_value(key)),
        },
        None => Ok(None),
    }
}

/// The number member `key`.
pub open spec fn required_number_spec(members: Seq<(String, JsonValue)>, key: Seq<char>) -> Result<JsonNumber, Seq<char>> {
    match member(members, key) {
        Some(JsonValue::Number(n)) => Ok(n),
        _ => Err(invalid_value_message(key)),
    }
}

/// The number member `key`, or the message that refuses it.
pub fn required_number(members: &Vec<(String, JsonValue)>, key: &str) -> (r: Result<JsonNumber, String>)
    ensures
        match r {
            Ok(n) => required_number_spec(members@, key@) == Ok::<JsonNumber, Seq<char>>(n),
            Err(m) => required_number_spec(members@, key@) == Err::<JsonNumber, Seq<char>>(m@),
        },
{
    match find_member(members, key) {
        Some(i) => match &members[i].1 {
            JsonValue::Number(n) => Ok(*n),
            _ => Err(invalid_value(key)),
        },
        None => Err(invalid_value(key)),
    }
}

/// The attribute object of a node.
pub open spec fn required_attributes_spec(members: Seq<(String, JsonValue)>) -> Result<Seq<(String, JsonValue)>, Seq<char>> {
    match member(members, "attrs"@) {
        Some(JsonValue::Object(a)) => Ok(a@),
        _ => Err(invalid_attributes_message()),
    }
}

/// The attribute object of a node, or the message that refuses it.
pub fn required_attributes<'a>(members: &'a Vec<(String, JsonValue)>) -> (r: Result<&'a Vec<(String, JsonValue)>, String>)
    ensures
        match r {
            Ok(a) => required_attributes_spec(members@) == Ok::<Seq<(String, JsonValue)>, Seq<char>>(a@),
            Err(m) => required_attributes_spec(members@) == Err::<Seq<(String, JsonValue)>, Seq<char>>(m@),
        },
{
    match find_member(members, "attrs") {
        Some(i) => match &members[i].1 {
            JsonValue::Object(a) => Ok(a),
            _ => Err("contains invalid node attributes".to_owned()),
        },
        None => Err("contains invalid node attributes".to_owned()),
    }
}

/// The attribute object of a node, if it has one.
pub open spec fn optional_attributes_spec(members: Seq<(String, JsonValue)>) -> Result<Option<Seq<(String, JsonValue)>>, Seq<char>> {
    match member(members, "attrs"@) {
        Some(JsonValue::Object(a)) => Ok(Some(a@)),
        Some(_) => Err(invalid_attributes_message()),
        None => Ok(None),
    }
}

/// The attribute object of a node if it has one, or the message that refuses it.
pub fn optional_attributes<'a>(members: &'a Vec<(String, JsonValue)>) -> (r: Result<Option<&'a Vec<(String, JsonValue)>>, String>)
    ensures
        match r {
            Ok(Some(a)) => optional_attributes_spec(members@) == Ok::<Option<Seq<(String, JsonValue)>>, Seq<char>>(Some(a@)),
            Ok(None) => optional_attributes_spec(members@) == Ok::<Option<Seq<(String, JsonValue)>>, Seq<char>>(None),
            Err(m) => optional_attributes_spec(members@) == Err::<Option<Seq<(String, JsonValue)>>, Seq<char>>(m@),
        },
{
    match find_member(members, "attrs") {
        Some(i) => match &members[i].1 {
            JsonValue::Object(a) => Ok(Some(a)),
            _ => Err("contains invalid node attributes".to_owned()),
        },
        None => Ok(None),
    }
}

/// A short optional string member: absent, null, or a string of at most `maximum`
/// characters.
pub open spec fn short_string_ok(members: Seq<(String, JsonValue)>, key: Seq<char>, maximum: nat) -> bool {
    match member(members, key) {
        Some(JsonValue::String(s)) => s@.len() <= maximum,
        Some(JsonValue::Null) => true,
        None => true,
        Some(_) => false,
    }
}

/// Checks a short optional string member, giving the message that refuses it.
pub fn validate_optional_short_string(members: &Vec<(String, JsonValue)>, key: &str, maximum: usize) -> (r: Result<(), String>)
    ensures
        r is Ok <==> short_string_ok(members@, key@, maximum as nat),
        r matches Err(m) ==> m@ == invalid_value_message(key@),
{
    match find_member(members, key) {
        Some(i) => match &members[i].1 {
            JsonValue::String(s) => {
                if s.unicode_len() <= maximum {
                    Ok(())
                } else {
                    Err(invalid_value(key))
                }
            },
            JsonValue::Null => Ok(()),
            _ => Err(invalid_value(key)),
        },
        None => Ok(()),
    }
}

/// The first key, in member order, that is not allowed.
pub open spec fn first_unexpected_key(members: Seq<(String, JsonValue)>, allowed: Seq<Seq<char>>, from: int) -> Option<Seq<char>>
    decreases members.len() - from,
{
    if from < 0 || from >= members.len() {
        None
    } else if !allowed.contains(members[from].0@) {
        Some(members[from].0@)
    } else {
        first_unexpected_key(members, allowed, from + 1)
    }
}

/// Only the allowed keys occur; otherwise the first other key is reported.
pub open spec fn keys_spec(members: Seq<(String, JsonValue)>, allowed: Seq<Seq<char>>) -> Result<(), Seq<char>> {
    match first_unexpected_key(members, allowed, 0) {
        Some(k) => Err("contains an unsupported "@ + k + " property"@),
        None => Ok(()),
    }
}

/// The texts of a list of string slices.
pub open spec fn key_texts(v: Seq<&str>) -> Seq<Seq<char>> {
    v.map_values(|s: &str| s@)
}

/// Whether `key` is one of the allowed keys.
fn is_allowed_key(allowed: &Vec<&'static str>, key: &String) -> (r: bool)
    ensures
        r == key_texts(allowed@).contains(key@),
{
    let mut i: usize = 0;
    while i < allowed.len()
        invariant
            i <= allowed.len(),
            forall|j: int| 0 <= j < i ==> allowed@[j]@ != key@,
        decreases allowed.len() - i,
    {
        if str_equals(allowed[i], key.as_str()) {
            assert(key_texts(allowed@)[i as int] == key@);
            return true;
        }
        i = i + 1;
    }
    assert forall|j: int| 0 <= j < key_texts(allowed@).len() implies key_texts(allowed@)[j] != key@ by {
        assert(key_texts(allowed@)[j] == allowed@[j]@);
    }
    false
}

/// Checks that only the allowed keys occur, giving the message for the first other key.
pub fn ensure_keys(members: &Vec<(String, JsonValue)>, allowed: &Vec<&'static str>) -> (r: Result<(), String>)
    ensures
        match r {
            Ok(()) => keys_spec(members@, key_texts(allowed@)) == Ok::<(), Seq<char>>(()),
            Err(m) => keys_spec(members@, key_texts(allowed@)) == Err::<(), Seq<char>>(m@),
        },
{
    let mut i: usize = 0;
    while i < members.len()
        invariant
            i <= members.len(),
            first_unexpected_key(members@, key_texts(allowed@), 0) == first_unexpected_key(
                members@,
                key_texts(allowed@),
                i as int,
            ),
        decreases members.len() - i,
    {
        if !is_allowed_key(allowed, &members[i].0) {
            let start = concat("contains an unsupported ", members[i].0.as_str());
            return Err(concat(start.as_str(), " property"));
        }
        i = i + 1;
    }
    Ok(())
}

/// The array member `key`.
pub open spec fn required_array_spec(members: Seq<(String, JsonValue)>, key: Seq<char>) -> Result<Seq<JsonValue>, Seq<char>> {
    match member(members, key) {
        Some(JsonValue::Array(items)) => Ok(items@),
        _ => Err(invalid_value_message(key)),
    }
}

/// The optional array member `key`: absent reads as empty.
pub open spec fn optional_array_spec(members: Seq<(String, JsonValue)>, key: Seq<char>) -> Result<Seq<JsonValue>, Seq<char>> {
    match member(members, key) {
        Some(JsonValue::Array(items)) => Ok(items@),
        Some(_) => Err(invalid_value_message(key)),
        None => Ok(Seq::empty()),
    }
}

} // verus!
