//! The JSON documents that the remote services answer with.
//!
//! Parsing and rendering are `serde_json`'s; nothing in this module is
//! proved. A document is known by its compact text, and what the parser, the
//! member lookup and the string accessor return has a name here, so that the
//! rest of the library can say exactly which of their results it relies on.

use serde_json::Value;
use vstd::prelude::*;

verus! {

/// `serde_json::Value`, a JSON document. Nothing is seen inside it: the
/// library hands documents from one of the functions below to the next.
#[verifier::external_type_specification]
#[verifier::external_body]
pub struct ExValue(serde_json::Value);

/// What a document holds: its compact JSON text, as `serde_json` prints it.
pub uninterp spec fn json_text(doc: Value) -> Seq<char>;

/// The compact text of the document that `serde_json::from_str` reads from
/// `text`, or the words of the error that it reports.
pub uninterp spec fn json_parsed(text: Seq<char>) -> Result<Seq<char>, Seq<char>>;

/// The compact text of the member that `Value::get` finds under `key` in the
/// document with compact text `doc`, or `None` where it finds none.
pub uninterp spec fn json_member(doc: Seq<char>, key: Seq<char>) -> Option<Seq<char>>;

/// The characters that `Value::as_str` returns for the document with compact
/// text `doc`, or `None` where the document is not a string.
pub uninterp spec fn json_string(doc: Seq<char>) -> Option<Seq<char>>;

/// `serde_json::from_str` for a `Value`: either the document read from the
/// text, or the parser's error in its own words, as its `Display` prints
/// them. The contract only names the outcome.
#[verifier::external_body]
pub(crate) fn parse(text: &str) -> (r: Result<Value, String>)
    ensures
        match r {
            Ok(doc) => json_parsed(text@) == Ok::<Seq<char>, Seq<char>>(json_text(doc)),
            Err(words) => json_parsed(text@) == Err::<Seq<char>, Seq<char>>(words@),
        },
{
    match serde_json::from_str::<Value>(text) {
        Ok(doc) => Ok(doc),
        Err(error) => Err(error.to_string()),
    }
}

/// `Value::get` with a string key: the member of an object under that key;
/// `None` for a missing key and for a document that is no object. The
/// contract only names the outcome.
#[verifier::external_body]
pub(crate) fn member<'a>(doc: &'a Value, key: &str) -> (r: Option<&'a Value>)
    ensures
        match r {
            Some(found) => json_member(json_text(*doc), key@) == Some(json_text(*found)),
            None => json_member(json_text(*doc), key@) is None,
        },
{
    doc.get(key)
}

/// `Value::as_str`: the characters of a JSON string, `None` for any other
/// document. The contract only names the outcome.
#[verifier::external_body]
pub(crate) fn string_of<'a>(doc: &'a Value) -> (r: Option<&'a str>)
    ensures
        match r {
            Some(s) => json_string(json_text(*doc)) == Some(s@),
            None => json_string(json_text(*doc)) is None,
        },
{
    doc.as_str()
}

/// `Value`'s `Display`, through `to_string`: the compact JSON text of the
/// document, by which the contracts of this module know it.
#[verifier::external_body]
pub(crate) fn render(doc: &Value) -> (r: String)
    ensures
        r@ == json_text(*doc),
{
    doc.to_string()
}

} // verus!
