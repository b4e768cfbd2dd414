//! JSON text: what is taken on trust about `serde_json`.

use vstd::prelude::*;
use vstd::string::*;
use serde_json::Value;
use crate::text::optional_text;

verus! {

/// A JSON document.
#[verifier::external_type_specification]
#[verifier::external_body]
pub struct ExValue(Value);

/// The JSON document that a text is, where it is one.
pub uninterp spec fn parsed_json(text: Seq<char>) -> Option<Value>;

/// The indented text that `serde_json` writes for a JSON document, where
/// it can be written.
pub uninterp spec fn pretty_text(document: Value) -> Option<Seq<char>>;

/// `serde_json::from_str` for a `serde_json::Value`: the document that the
/// text is, or nothing where the text is no JSON document. It depends on
/// the text alone.
#[verifier::external_body]
fn parse_json(text: &str) -> (r: Option<Value>)
    ensures
        r == parsed_json(text@),
{
    serde_json::from_str::<Value>(text).ok()
}

/// `serde_json::to_string_pretty`: the document written as indented text,
/// or nothing where writing fails. It depends on the document alone.
#[verifier::external_body]
fn write_pretty(document: &Value) -> (r: Option<String>)
    ensures
        optional_text(r) == pretty_text(*document),
{
    serde_json::to_string_pretty(document).ok()
}

/// The indented form of a text, where the text is a JSON document that can
/// be written back.
pub open spec fn pretty_json_of(text: Seq<char>) -> Option<Seq<char>> {
    match parsed_json(text) {
        Some(document) => pretty_text(document),
        None => None,
    }
}

/// How a body is shown: indented where it is a JSON document, else as it
/// is.
pub open spec fn displayed_body(body: Seq<char>) -> Seq<char> {
    match pretty_json_of(body) {
        Some(pretty) => pretty,
        None => body,
    }
}

/// Chooses how a body is shown from its indented form, if it has one.
pub fn pretty_or_raw(body: &str, pretty: Option<String>) -> (r: String)
    ensures
        r@ == match pretty {
            Some(p) => p@,
            None => body@,
        },
{
    match pretty {
        Some(p) => p,
        None => String::from_str(body),
    }
}

/// The text that is shown for a body: indented where it is a JSON
/// document, else as it is.
pub fn display_body(body: &str) -> (r: String)
    ensures
        r@ == displayed_body(body@),
{
    let pretty = match parse_json(body) {
        Some(document) => write_pretty(&document),
        None => None,
    };
    pretty_or_raw(body, pretty)
}

} // verus!
