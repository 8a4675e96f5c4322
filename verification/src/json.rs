//! The JSON documents that the options travel in. Reading, indexing, building
//! and printing them is `serde_json`'s work; every item of this module is a
//! statement about that crate which is believed, not proved.

use vstd::prelude::*;

verus! {

/// `serde_json::Value`: a JSON document, carried through without a look inside.
#[verifier::external_type_specification]
#[verifier::external_body]
pub struct ExValue(serde_json::Value);

/// `serde_json::Error`: why a document could not be printed.
#[verifier::external_type_specification]
#[verifier::external_body]
pub struct ExError(serde_json::Error);

/// The document that `serde_json::from_str` reads from `text`, or `None` where
/// it rejects the text.
pub uninterp spec fn parsed_json(text: Seq<char>) -> Option<serde_json::Value>;

/// The member that `serde_json::Value::get` finds in `doc` under the string
/// index `key`, or `None` where `doc` is no object or has no such member.
pub uninterp spec fn json_member(doc: serde_json::Value, key: Seq<char>) -> Option<
    serde_json::Value,
>;

/// The object that collecting the single pair `(key, member)` into a
/// `serde_json::Value` gives.
pub uninterp spec fn json_object(key: Seq<char>, member: serde_json::Value) -> serde_json::Value;

/// What `serde_json::to_string_pretty` returns for `doc`: the indented text, or
/// the error it failed with.
pub uninterp spec fn pretty_json(doc: serde_json::Value) -> Result<Seq<char>, serde_json::Error>;

/// The message that `serde_json::Error`'s `Display` impl prints for `error`.
pub uninterp spec fn error_text(error: serde_json::Error) -> Seq<char>;

/// Calls `serde_json::from_str` at the type `serde_json::Value` and drops the
/// error. Claimed: the outcome is a function of the text alone.
#[verifier::external_body]
pub(crate) fn parse_json(text: &str) -> (doc: Option<serde_json::Value>)
    ensures
        doc == parsed_json(text@),
{
    serde_json::from_str::<serde_json::Value>(text).ok()
}

/// Calls `serde_json::Value::get` with a string index. Claimed: what is found
/// is a function of the document and the key alone.
#[verifier::external_body]
pub(crate) fn member<'a>(doc: &'a serde_json::Value, key: &str) -> (found: Option<
    &'a serde_json::Value,
>)
    ensures
        match found {
            Some(m) => json_member(*doc, key@) == Some(*m),
            None => json_member(*doc, key@) is None,
        },
{
    doc.get(key)
}

/// Calls `serde_json::Value`'s `Clone` impl. Claimed: the copy is the same
/// document.
#[verifier::external_body]
pub(crate) fn clone_value(doc: &serde_json::Value) -> (copy: serde_json::Value)
    ensures
        copy == *doc,
{
    doc.clone()
}

/// Calls `serde_json::Value`'s `FromIterator` impl for key-value pairs on one
/// pair. Claimed: the object is a function of the pair alone, and indexing it
/// with `key` finds `member`.
#[verifier::external_body]
pub(crate) fn object_with(key: &str, member: serde_json::Value) -> (doc: serde_json::Value)
    ensures
        doc == json_object(key@, member),
        json_member(doc, key@) == Some(member),
{
    serde_json::Value::from_iter([(key, member)])
}

/// Calls `serde_json::to_string_pretty` on a document. Claimed: text or error
/// is a function of the document alone; success is not promised.
#[verifier::external_body]
pub(crate) fn to_pretty(doc: &serde_json::Value) -> (text: Result<String, serde_json::Error>)
    ensures
        match text {
            Ok(t) => pretty_json(*doc) == Ok::<Seq<char>, serde_json::Error>(t@),
            Err(e) => pretty_json(*doc) == Err::<Seq<char>, serde_json::Error>(e),
        },
{
    serde_json::to_string_pretty(doc)
}

/// Calls `to_string` on a `serde_json::Error`, which goes through its `Display`
/// impl. Claimed: the message is a function of the error alone.
#[verifier::external_body]
pub(crate) fn error_message(error: &serde_json::Error) -> (message: String)
    ensures
        message@ == error_text(*error),
{
    error.to_string()
}

} // verus!
