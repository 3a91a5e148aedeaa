//! Rendering of inbound message payloads: JSON is re-serialised (compact or
//! pretty), anything else is shown as it arrived.

use vstd::prelude::*;

verus! {

#[verifier::external_type_specification]
#[verifier::external_body]
pub struct ExJsonValue(serde_json::Value);

#[verifier::external_type_specification]
#[verifier::external_body]
pub struct ExJsonError(serde_json::Error);

/// Whether the text is exactly one JSON document.
pub uninterp spec fn json_parses(text: Seq<char>) -> bool;

/// Compact serialisation of the JSON value that `text` parses to, if it succeeds.
pub uninterp spec fn json_compact(text: Seq<char>) -> Option<Seq<char>>;

/// Indented serialisation of the JSON value that `text` parses to, if it succeeds.
pub uninterp spec fn json_pretty(text: Seq<char>) -> Option<Seq<char>>;

/// A parsed JSON value together with the text it was parsed from.
struct JsonDoc {
    value: serde_json::Value,
    source: Ghost<Seq<char>>,
}

impl JsonDoc {
    spec fn source(&self) -> Seq<char> {
        self.source@
    }
}

/// Relies on `serde_json::from_str::<serde_json::Value>`: it succeeds exactly
/// when the text is one JSON document, and its result depends on the text alone.
#[verifier::external_body]
fn parse_json(text: &str) -> (r: Result<JsonDoc, serde_json::Error>)
    ensures
        r is Ok <==> json_parses(text@),
        r matches Ok(d) ==> d.source() == text@,
{
    match serde_json::from_str::<serde_json::Value>(text) {
        Ok(value) => Ok(JsonDoc { value, source: Ghost(text@) }),
        Err(e) => Err(e),
    }
}

/// Relies on `serde_json::to_string`: the compact text of a value, which
/// depends on the value alone.
#[verifier::external_body]
fn compact_text(doc: &JsonDoc) -> (r: Result<String, serde_json::Error>)
    ensures
        match r {
            Ok(t) => json_compact(doc.source()) == Some(t@),
            Err(_) => json_compact(doc.source()) is None,
        },
{
    serde_json::to_string(&doc.value)
}

/// Relies on `serde_json::to_string_pretty`: the indented text of a value,
/// which depends on the value alone.
#[verifier::external_body]
fn pretty_text(doc: &JsonDoc) -> (r: Result<String, serde_json::Error>)
    ensures
        match r {
            Ok(t) => json_pretty(doc.source()) == Some(t@),
            Err(_) => json_pretty(doc.source()) is None,
        },
{
    serde_json::to_string_pretty(&doc.value)
}

/// What is shown for a payload: its re-serialisation when the payload is JSON
/// and serialising succeeds, the payload itself otherwise.
pub open spec fn formatted(raw: Seq<char>, pretty_print: bool) -> Seq<char> {
    if !json_parses(raw) {
        raw
    } else {
        let rendering = if pretty_print {
            json_pretty(raw)
        } else {
            json_compact(raw)
        };
        match rendering {
            Some(t) => t,
            None => raw,
        }
    }
}

/// The rendering when there is one, otherwise the raw payload.
pub fn choose_display(raw: &str, rendering: Option<String>) -> (r: String)
    ensures
        r@ == match rendering {
            Some(t) => t@,
            None => raw@,
        },
{
    match rendering {
        Some(t) => t,
        None => raw.to_string(),
    }
}

/// Renders a payload for display; never fails.
pub fn format_ql_json(msg: &str, pretty_print: bool) -> (r: String)
    ensures
        r@ == formatted(msg@, pretty_print),
        !json_parses(msg@) ==> r@ == msg@,
{
    let rendering = match parse_json(msg) {
        Err(_) => None,
        Ok(doc) => {
            let text = if pretty_print {
                pretty_text(&doc)
            } else {
                compact_text(&doc)
            };
            match text {
                Ok(t) => Some(t),
                Err(_) => None,
            }
        },
    };
    choose_display(msg, rendering)
}

} // verus!
