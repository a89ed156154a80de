//! The configuration document: a JSON value that the session stores and
//! shows as pretty-printed text.
//!
//! The value is `serde_json::Value`. Nothing here looks inside it: the
//! session only carries it from the fetch to the screen and asks how many
//! lines its pretty-printed text has.

use crate::text::{lines_of, split_lines, to_chars};
use vstd::prelude::*;

verus! {

/// `serde_json::Value`, carried through as an opaque value.
#[verifier::external_type_specification]
#[verifier::external_body]
pub struct ExJsonValue(serde_json::Value);

/// `serde_json::Error`, carried through as an opaque value.
#[verifier::external_type_specification]
#[verifier::external_body]
pub struct ExJsonError(serde_json::Error);

/// What `serde_json::to_string_pretty` makes of a document: the
/// pretty-printed text, or nothing where serialisation fails. The text is
/// not spelled out here; it is decided by the document alone.
pub uninterp spec fn pretty_json(doc: serde_json::Value) -> Option<Seq<char>>;

/// Pretty-prints `doc` by calling `serde_json::to_string_pretty`. The
/// contract claims only that the outcome is the one that the document
/// decides: the text on success, an error where there is no text.
#[verifier::external_body]
fn to_string_pretty(doc: &serde_json::Value) -> (r: Result<String, serde_json::Error>)
    ensures
        match r {
            Ok(text) => pretty_json(*doc) == Some(text@),
            Err(_) => pretty_json(*doc) is None,
        },
{
    serde_json::to_string_pretty(doc)
}

/// The text shown for a document: its pretty-printed form, or the empty
/// text where it has none.
pub open spec fn config_text(doc: serde_json::Value) -> Seq<char> {
    match pretty_json(doc) {
        Some(text) => text,
        None => Seq::empty(),
    }
}

/// The text shown for an outcome of pretty-printing.
pub open spec fn text_or_empty(printed: Result<String, serde_json::Error>) -> Seq<char> {
    match printed {
        Ok(text) => text@,
        Err(_) => Seq::empty(),
    }
}

/// The largest scroll offset that shows a line of `text`: the number of its
/// lines less one, and zero for text without lines.
pub open spec fn max_offset_of(text: Seq<char>) -> nat {
    let n = lines_of(text).len();
    if n > 0 {
        (n - 1) as nat
    } else {
        0
    }
}

/// The text of an outcome of pretty-printing; a failure gives the empty
/// text.
pub fn printed_text(printed: Result<String, serde_json::Error>) -> (text: String)
    ensures
        text@ == text_or_empty(printed),
{
    match printed {
        Ok(text) => text,
        Err(_) => String::new(),
    }
}

/// The pretty-printed text of `doc`, empty where it cannot be printed.
pub fn render_config(doc: &serde_json::Value) -> (text: String)
    ensures
        text@ == config_text(*doc),
{
    printed_text(to_string_pretty(doc))
}

/// The number of lines of `text`.
pub fn count_lines(text: &str) -> (n: usize)
    ensures
        n == lines_of(text@).len(),
{
    let chars = to_chars(text);
    let lines = split_lines(&chars);
    lines.len()
}

/// The largest scroll offset that shows a line of `text`.
pub fn max_offset(text: &str) -> (bound: usize)
    ensures
        bound == max_offset_of(text@),
{
    let n = count_lines(text);
    if n > 0 {
        n - 1
    } else {
        0
    }
}

} // verus!
