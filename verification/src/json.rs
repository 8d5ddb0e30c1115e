//! The trusted boundary to `serde_json`, and the verified classification
//! of one stream record on top of it.
//!
//! A parsed document (`serde_json::Value`) is opaque here. What the
//! engine reads from it is named by uninterpreted spec functions, one
//! per `serde_json` function relied on; every one of those functions is
//! deterministic in its arguments, so the names are well defined. The
//! verified logic then composes the names into exact statements about
//! whole lines of the stream.

use vstd::prelude::*;

verus! {

#[verifier::external_type_specification]
#[verifier::external_body]
pub struct ExValue(serde_json::Value);

/// The document that `serde_json::from_str::<Value>` yields on this
/// text, or `None` where the text is not one valid JSON document.
pub uninterp spec fn json_parse(s: Seq<char>) -> Option<serde_json::Value>;

/// The message text of the error that `serde_json::from_str::<Value>`
/// reports on this (unparseable) text.
pub uninterp spec fn json_error_text(s: Seq<char>) -> Seq<char>;

/// What `serde_json::Value::get` yields for this string key: the value
/// under the key where the document is an object that has it, `None`
/// otherwise.
pub uninterp spec fn json_field(v: serde_json::Value, key: Seq<char>) -> Option<serde_json::Value>;

/// What `serde_json::Value::get` yields for this array index: the
/// element where the document is an array long enough, `None` otherwise.
pub uninterp spec fn json_item(v: serde_json::Value, i: int) -> Option<serde_json::Value>;

/// What `serde_json::Value::as_bool` yields: the boolean where the
/// document is a JSON boolean, `None` otherwise.
pub uninterp spec fn json_bool(v: serde_json::Value) -> Option<bool>;

/// What `serde_json::Value::as_str` yields: the text where the document
/// is a JSON string, `None` otherwise.
pub uninterp spec fn json_text(v: serde_json::Value) -> Option<Seq<char>>;

/// The decimal text of the document where it is a JSON number
/// (`serde_json::Value::as_number` and the number's display form),
/// `None` otherwise.
pub uninterp spec fn json_number_text(v: serde_json::Value) -> Option<Seq<char>>;

/// Relies on serde_json::from_str::<Value>: parses one JSON document
/// from text, keeping the message text of the reported error;
/// deterministic in the text.
#[verifier::external_body]
pub fn parse_document(s: &str) -> (r: Result<serde_json::Value, String>)
    ensures
        r is Ok <==> json_parse(s@) is Some,
        (r matches Ok(v) ==> json_parse(s@) == Some(v)),
        (r matches Err(m) ==> m@ == json_error_text(s@)),
{
    serde_json::from_str::<serde_json::Value>(s).map_err(|e| e.to_string())
}

/// Relies on serde_json::Value::get with a string key: field lookup on
/// an object, `None` on anything else.
#[verifier::external_body]
pub fn get_field<'a>(v: &'a serde_json::Value, key: &str) -> (r: Option<&'a serde_json::Value>)
    ensures
        (r matches Some(f) ==> json_field(*v, key@) == Some(*f)),
        (r is None ==> json_field(*v, key@) is None),
{
    v.get(key)
}

/// Relies on serde_json::Value::get with an array index: element lookup
/// on an array, `None` on anything else.
#[verifier::external_body]
pub fn get_item<'a>(v: &'a serde_json::Value, i: usize) -> (r: Option<&'a serde_json::Value>)
    ensures
        (r matches Some(f) ==> json_item(*v, i as int) == Some(*f)),
        (r is None ==> json_item(*v, i as int) is None),
{
    v.get(i)
}

/// Relies on serde_json::Value::as_bool: the boolean of a JSON boolean.
#[verifier::external_body]
pub fn get_bool(v: &serde_json::Value) -> (r: Option<bool>)
    ensures
        r == json_bool(*v),
{
    v.as_bool()
}

/// Relies on serde_json::Value::as_str: the text of a JSON string.
#[verifier::external_body]
pub fn get_text(v: &serde_json::Value) -> (r: Option<String>)
    ensures
        (r matches Some(t) ==> json_text(*v) == Some(t@)),
        (r is None ==> json_text(*v) is None),
{
    v.as_str().map(|t| t.to_owned())
}

/// Relies on serde_json::Value::as_number and the display form of
/// serde_json::Number: the decimal text of a JSON number.
#[verifier::external_body]
pub fn get_number_text(v: &serde_json::Value) -> (r: Option<String>)
    ensures
        (r matches Some(t) ==> json_number_text(*v) == Some(t@)),
        (r is None ==> json_number_text(*v) is None),
{
    v.as_number().map(|n| n.to_string())
}

/// Whether this record's terminal marker field is set true.
pub open spec fn record_is_terminal(line: Seq<char>) -> bool {
    match json_parse(line) {
        Some(doc) => match json_field(doc, "done"@) {
            Some(flag) => json_bool(flag) == Some(true),
            None => false,
        },
        None => false,
    }
}

/// The text fragment this record carries, where it is not terminal and
/// its fragment field is a JSON string.
pub open spec fn record_fragment(line: Seq<char>) -> Option<Seq<char>> {
    if record_is_terminal(line) {
        None
    } else {
        match json_parse(line) {
            Some(doc) => match json_field(doc, "response"@) {
                Some(field) => json_text(field),
                None => None,
            },
            None => None,
        }
    }
}

/// The verdict on one line of the stream: the record's terminal marker
/// is set, or the record carries a text fragment, or the line is to be
/// skipped (blank, unparseable, or a record with neither field).
#[derive(PartialEq, Debug)]
pub enum LineVerdict {
    Done,
    Token(String),
    Skip,
}

impl LineVerdict {
    pub open spec fn matches_line(self, line: Seq<char>) -> bool {
        match self {
            LineVerdict::Done => record_is_terminal(line),
            LineVerdict::Token(t) => !record_is_terminal(line) && record_fragment(line)
                == Some(t@),
            LineVerdict::Skip => !record_is_terminal(line) && record_fragment(line) is None,
        }
    }
}

/// Applies the decision table of the stream protocol to one line.
pub fn classify_line(line: &str) -> (v: LineVerdict)
    ensures
        v.matches_line(line@),
{
    let doc = match parse_document(line) {
        Err(_) => {
            return LineVerdict::Skip;
        },
        Ok(d) => d,
    };
    let terminal = match get_field(&doc, "done") {
        Some(flag) => match get_bool(flag) {
            Some(b) => b,
            None => false,
        },
        None => false,
    };
    if terminal {
        return LineVerdict::Done;
    }
    match get_field(&doc, "response") {
        Some(field) => match get_text(field) {
            Some(t) => LineVerdict::Token(t),
            None => LineVerdict::Skip,
        },
        None => LineVerdict::Skip,
    }
}

} // verus!
