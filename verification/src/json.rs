//! The JSON documents and identifiers that pass through the library.
//!
//! `serde_json::Value` and `uuid::Uuid` are carried as they are. To the
//! verifier a `Value` stands for the JSON document it holds, and nothing of
//! that document is known but what is said here. What the library reads from
//! a document, or builds as one, goes through the few functions below. Their
//! bodies call `serde_json`, and their contracts are taken on trust: each
//! says that the result is what `serde_json` makes of the arguments, under a
//! name that the contracts of the library can then speak of.

use serde_json::Value;
use vstd::prelude::*;

verus! {

/// A JSON document of `serde_json`, opaque to the verifier.
#[verifier::external_type_specification]
#[verifier::external_body]
pub struct ExValue(serde_json::Value);

/// A 128-bit identifier of `uuid`, opaque to the verifier.
#[verifier::external_type_specification]
#[verifier::external_body]
pub struct ExUuid(uuid::Uuid);

/// The member that `value[key]` denotes in `serde_json`.
pub uninterp spec fn json_member(value: Value, key: Seq<char>) -> Value;

/// The element that `value[index]` denotes in `serde_json`.
pub uninterp spec fn json_element(value: Value, index: int) -> Value;

/// The text of `value` where it is a JSON string, as `Value::as_str` gives it.
pub uninterp spec fn json_text(value: Value) -> Option<Seq<char>>;

/// The JSON object that `serde_json` collects from pairs of a key and a text.
pub uninterp spec fn json_object(entries: Seq<(Seq<char>, Seq<char>)>) -> Value;

/// `value[key]` of `serde_json` (`Index<&str>`): the member stored under
/// `key` where `value` is an object that has it, JSON null otherwise. The call
/// never panics and depends on nothing but its arguments, so the result is the
/// named member.
#[verifier::external_body]
pub(crate) fn member<'a>(value: &'a Value, key: &str) -> (found: &'a Value)
    ensures
        *found == json_member(*value, key@),
{
    &value[key]
}

/// `value[index]` of `serde_json` (`Index<usize>`): the element at `index`
/// where `value` is an array that long, JSON null otherwise. The call never
/// panics and depends on nothing but its arguments.
#[verifier::external_body]
pub(crate) fn element<'a>(value: &'a Value, index: usize) -> (found: &'a Value)
    ensures
        *found == json_element(*value, index as int),
{
    &value[index]
}

/// `Value::as_str` of `serde_json`: the text of a JSON string, `None` for
/// every other kind of value.
#[verifier::external_body]
pub(crate) fn string_of<'a>(value: &'a Value) -> (found: Option<&'a str>)
    ensures
        match found {
            Some(s) => json_text(*value) == Some(s@),
            None => json_text(*value) is None,
        },
{
    value.as_str()
}

/// Pairs of a key and a text, as mathematical values.
pub open spec fn entry_texts(entries: Seq<(String, String)>) -> Seq<(Seq<char>, Seq<char>)> {
    Seq::new(entries.len(), |i: int| (entries[i].0@, entries[i].1@))
}

/// `Value::from_iter` of `serde_json` on pairs of a key and a text: the JSON
/// object whose members are those pairs, each text a JSON string. The result
/// depends on the pairs alone.
#[verifier::external_body]
pub(crate) fn object_of(entries: &Vec<(String, String)>) -> (value: Value)
    ensures
        value == json_object(entry_texts(entries@)),
{
    Value::from_iter(entries.iter().map(|entry| (entry.0.as_str(), entry.1.as_str())))
}

} // verus!
