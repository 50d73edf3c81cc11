//! The dictionary file: a JSON object whose member names are the words and
//! whose member values are the readings.
//!
//! Reading and writing JSON is left to `serde_json`. What it makes of a text
//! is not described here; it is only given a name, so that the functions
//! that build on it can say exactly what they do with it.

use std::collections::BTreeMap;
use vstd::prelude::*;
use crate::dictionary::{DictError, DictView, Dictionary, built_from, pairs_view};

verus! {

/// The error type of `serde_json`. Nothing is known of its contents.
#[verifier::external_type_specification]
#[verifier::external_body]
pub struct ExJsonError(serde_json::Error);

/// The members that `serde_json::from_str` finds when it reads `text` as a
/// map from strings to strings, in the order in which the map hands them
/// out (by member name); `None` when it reports an error.
pub uninterp spec fn json_object_entries(text: Seq<char>) -> Option<Seq<(Seq<char>, Seq<char>)>>;

/// The text that `serde_json::to_string` writes for the map made of
/// `entries`; `None` when it reports an error.
pub uninterp spec fn json_object_text(entries: Seq<(Seq<char>, Seq<char>)>) -> Option<Seq<char>>;

/// Calls `serde_json::from_str` to read `text` as a map from strings to
/// strings and hands the members out as a list. The contract claims only
/// that the outcome depends on `text` alone: it is the outcome named
/// [`json_object_entries`].
#[verifier::external_body]
fn decode_object(text: &str) -> (r: Result<Vec<(String, String)>, serde_json::Error>)
    ensures
        match json_object_entries(text@) {
            Some(entries) => r is Ok && pairs_view(r->Ok_0@) == entries,
            None => r is Err,
        },
{
    let map: BTreeMap<String, String> = serde_json::from_str(text)?;
    Ok(map.into_iter().collect())
}

/// Calls `serde_json::to_string` on the map made of `entries`. The contract
/// claims only that the outcome depends on `entries` alone: it is the
/// outcome named [`json_object_text`].
#[verifier::external_body]
fn encode_object(entries: &Vec<(String, String)>) -> (r: Result<String, serde_json::Error>)
    ensures
        match json_object_text(pairs_view(entries@)) {
            Some(text) => r is Ok && r->Ok_0@ == text,
            None => r is Err,
        },
{
    let map: BTreeMap<&str, &str> = entries.iter().map(|e| (e.0.as_str(), e.1.as_str())).collect();
    serde_json::to_string(&map)
}

/// The dictionary that a dictionary file holds: its members, registered one
/// after the other.
pub open spec fn dictionary_of_json(text: Seq<char>) -> Result<DictView, DictError> {
    match json_object_entries(text) {
        Some(entries) => built_from(entries),
        None => Err(DictError::Malformed),
    }
}

/// The text of the dictionary file for the entries `d`.
pub open spec fn json_of_dictionary(d: DictView) -> Result<Seq<char>, DictError> {
    match json_object_text(d) {
        Some(text) => Ok(text),
        None => Err(DictError::Unwritable),
    }
}

/// Reads a dictionary from the text of a dictionary file. A text that is no
/// JSON object of strings is malformed; a member with an empty name is an
/// empty word.
pub fn dictionary_from_json(text: &str) -> (r: Result<Dictionary, DictError>)
    ensures
        match r {
            Ok(d) => dictionary_of_json(text@) == Ok::<DictView, DictError>(d@) && d.wf(),
            Err(e) => dictionary_of_json(text@) == Err::<DictView, DictError>(e),
        },
{
    match decode_object(text) {
        Ok(pairs) => Dictionary::from_entries(&pairs),
        Err(_) => Err(DictError::Malformed),
    }
}

/// Writes the dictionary as the text of a dictionary file.
pub fn dictionary_to_json(dict: &Dictionary) -> (r: Result<String, DictError>)
    ensures
        match r {
            Ok(text) => json_of_dictionary(dict@) == Ok::<Seq<char>, DictError>(text@),
            Err(e) => json_of_dictionary(dict@) == Err::<Seq<char>, DictError>(e),
        },
{
    let pairs = dict.entries();
    match encode_object(&pairs) {
        Ok(text) => Ok(text),
        Err(_) => Err(DictError::Unwritable),
    }
}

} // verus!
