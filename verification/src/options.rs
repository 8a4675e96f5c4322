//! The options object and the one-member JSON object it is stored as.

use crate::json::{
    clone_value, error_message, error_text, json_member, json_object, member, object_with,
    parse_json, parsed_json, pretty_json, to_pretty,
};
use vstd::prelude::*;

verus! {

/// Name of the one member of the stored object.
pub const GROUPS_FIELD: &'static str = "groups";

/// Name of the directory, below the per-user data directory, that holds the file.
pub const APP_DIR_NAME: &'static str = "lottery-system";

/// Name of the file that holds the options.
pub const DATA_FILE_NAME: &'static str = "data.json";

/// The user's lottery options. `groups` is any JSON document; nothing is asked
/// of its shape.
#[derive(Debug)]
pub struct LotteryOptions {
    pub groups: serde_json::Value,
}

impl Clone for LotteryOptions {
    fn clone(&self) -> (copy: Self)
        ensures
            copy == *self,
    {
        LotteryOptions { groups: clone_value(&self.groups) }
    }
}

/// The options that hold `groups`, where there is one.
pub open spec fn options_with(groups: Option<serde_json::Value>) -> Option<LotteryOptions> {
    match groups {
        Some(g) => Some(LotteryOptions { groups: g }),
        None => None,
    }
}

/// The options stored in a document: its member `groups`, where it has one.
pub open spec fn options_in(doc: Option<serde_json::Value>) -> Option<LotteryOptions> {
    match doc {
        Some(d) => options_with(json_member(d, GROUPS_FIELD@)),
        None => None,
    }
}

/// The options that a file's contents give. `None` for `contents` stands for a
/// file that could not be read.
pub open spec fn loaded(contents: Option<Seq<char>>) -> Option<LotteryOptions> {
    match contents {
        Some(text) => options_in(parsed_json(text)),
        None => None,
    }
}

/// The document that `options` is stored as.
pub open spec fn stored_document(options: LotteryOptions) -> serde_json::Value {
    json_object(GROUPS_FIELD@, options.groups)
}

/// The outcome of printing: the text as it is, an error by its message.
pub open spec fn rendering(printed: Result<Seq<char>, serde_json::Error>) -> Result<
    Seq<char>,
    Seq<char>,
> {
    match printed {
        Ok(text) => Ok(text),
        Err(error) => Err(error_text(error)),
    }
}

/// The file contents for `options`, or the message of the error that printing
/// them ends in.
pub open spec fn rendered(options: LotteryOptions) -> Result<Seq<char>, Seq<char>> {
    rendering(pretty_json(stored_document(options)))
}

/// The characters of a file's contents, where the file could be read.
pub open spec fn contents_view(contents: Option<&str>) -> Option<Seq<char>> {
    match contents {
        Some(text) => Some(text@),
        None => None,
    }
}

/// The outcome of printing, with the text as a sequence of characters.
pub open spec fn printed_view(printed: Result<String, serde_json::Error>) -> Result<
    Seq<char>,
    serde_json::Error,
> {
    match printed {
        Ok(text) => Ok(text@),
        Err(error) => Err(error),
    }
}

/// The text or message held by a result, as sequences of characters.
pub open spec fn text_of(result: Result<String, String>) -> Result<Seq<char>, Seq<char>> {
    match result {
        Ok(text) => Ok(text@),
        Err(message) => Err(message@),
    }
}

/// Makes options of the `groups` member found in a document, if one was found.
pub fn options_from_groups(groups: Option<&serde_json::Value>) -> (options: Option<LotteryOptions>)
    ensures
        options == options_with(
            match groups {
                Some(g) => Some(*g),
                None => None,
            },
        ),
        options is Some <==> groups is Some,
{
    match groups {
        Some(g) => Some(LotteryOptions { groups: clone_value(g) }),
        None => None,
    }
}

/// Reads the options out of a parsed document. A document that is no object, or
/// has no member `groups`, holds none; other members are ignored.
pub fn options_from_document(doc: Option<serde_json::Value>) -> (options: Option<LotteryOptions>)
    ensures
        options == options_in(doc),
        doc is None ==> options is None,
{
    match doc {
        Some(d) => options_from_groups(member(&d, GROUPS_FIELD)),
        None => None,
    }
}

/// Parses a file's text as options. Text that is not JSON gives `None`, like
/// JSON that holds no options.
pub fn parse_options(text: &str) -> (options: Option<LotteryOptions>)
    ensures
        options == options_in(parsed_json(text@)),
        parsed_json(text@) is None ==> options is None,
{
    options_from_document(parse_json(text))
}

/// Best-effort load: the options in the file's contents, or `None` where the
/// file could not be read (`contents` is `None`), is not JSON, or holds no
/// options. No failure is told from another.
pub fn load_options_from_file(contents: Option<&str>) -> (options: Option<LotteryOptions>)
    ensures
        options == loaded(contents_view(contents)),
        contents is None ==> options is None,
{
    match contents {
        Some(text) => parse_options(text),
        None => None,
    }
}

/// Wraps the options in the one-member object they are stored as. Reading the
/// options out of that object gives them back.
pub fn document_of(options: &LotteryOptions) -> (doc: serde_json::Value)
    ensures
        doc == stored_document(*options),
        options_in(Some(doc)) == Some(*options),
{
    object_with(GROUPS_FIELD, clone_value(&options.groups))
}

/// Turns the outcome of printing into file contents or an error message.
pub fn rendering_of(printed: Result<String, serde_json::Error>) -> (result: Result<String, String>)
    ensures
        text_of(result) == rendering(printed_view(printed)),
        printed is Ok ==> result == Ok::<String, String>(printed->Ok_0),
{
    match printed {
        Ok(text) => Ok(text),
        Err(error) => Err(error_message(&error)),
    }
}

/// Serializes the options to the pretty-printed text of the file, or returns
/// the message of the error that stopped it.
pub fn render_options(options: &LotteryOptions) -> (result: Result<String, String>)
    ensures
        text_of(result) == rendered(*options),
{
    let doc = document_of(options);
    rendering_of(to_pretty(&doc))
}

} // verus!
