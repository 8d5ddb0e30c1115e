//! The two quote accessors over the market-data response document.
//!
//! The signal path (`quote_with_fallback`) never fails: where the
//! transport failed, or a field of the nested response is absent or not
//! a number, the documented defaults stand in — default price, zero
//! change. The raw path (`raw_quote`) is the opposite: a transport or
//! decode failure there is surfaced as a message-carrying error, never
//! defaulted. Numbers travel as decimal text; this crate never
//! interprets them.

use vstd::prelude::*;
use vstd::string::StringExecFns;
use crate::json::get_field;
use crate::json::get_item;
use crate::json::get_number_text;
use crate::json::json_error_text;
use crate::json::json_field;
use crate::json::json_item;
use crate::json::json_number_text;
use crate::json::json_parse;
use crate::json::parse_document;

verus! {

/// The price to report when the response yields none.
pub open spec fn default_price_text() -> Seq<char> {
    "25000"@
}

/// The change to report when the response yields none.
pub open spec fn default_change_text() -> Seq<char> {
    "0"@
}

/// The `meta` object of the response: `chart`, then `result`, then its
/// first element, then `meta`.
pub open spec fn meta_doc(root: serde_json::Value) -> Option<serde_json::Value> {
    match json_field(root, "chart"@) {
        Some(chart) => match json_field(chart, "result"@) {
            Some(results) => match json_item(results, 0) {
                Some(first) => json_field(first, "meta"@),
                None => None,
            },
            None => None,
        },
        None => None,
    }
}

/// The decimal text of a numeric field of the `meta` object, if the
/// whole path down to it exists and holds a number.
pub open spec fn meta_number(root: serde_json::Value, key: Seq<char>) -> Option<Seq<char>> {
    match meta_doc(root) {
        Some(meta) => match json_field(meta, key) {
            Some(field) => json_number_text(field),
            None => None,
        },
        None => None,
    }
}

/// The price of the signal path: the response's regular market price,
/// or the default where there is no response or no such number.
pub open spec fn quote_price(root: Option<serde_json::Value>) -> Seq<char> {
    match root {
        Some(v) => match meta_number(v, "regularMarketPrice"@) {
            Some(t) => t,
            None => default_price_text(),
        },
        None => default_price_text(),
    }
}

/// The change of the signal path: the response's regular market change
/// percent, or zero where there is no response or no such number.
pub open spec fn quote_change(root: Option<serde_json::Value>) -> Seq<char> {
    match root {
        Some(v) => match meta_number(v, "regularMarketChangePercent"@) {
            Some(t) => t,
            None => default_change_text(),
        },
        None => default_change_text(),
    }
}

/// The provider-side identifier for a symbol key: the static lookup
/// table of the quote accessors.
pub open spec fn provider_symbol_of(symbol: Seq<char>) -> Seq<char> {
    if symbol == "NIFTY"@ {
        "^NSEI"@
    } else {
        "^NSEBANK"@
    }
}

/// Selects the provider-side identifier for a symbol key.
pub fn provider_symbol(symbol: &String) -> (r: String)
    ensures
        r@ == provider_symbol_of(symbol@),
{
    let nifty = String::from_str("NIFTY");
    if *symbol == nifty {
        String::from_str("^NSEI")
    } else {
        String::from_str("^NSEBANK")
    }
}

/// A quote as the signal path reports it: price and change percent as
/// decimal text.
#[derive(PartialEq, Debug)]
pub struct Quote {
    pub price: String,
    pub change: String,
}

/// Walks to the `meta` object of a response document.
fn meta_of<'a>(root: &'a serde_json::Value) -> (r: Option<&'a serde_json::Value>)
    ensures
        (r matches Some(m) ==> meta_doc(*root) == Some(*m)),
        (r is None ==> meta_doc(*root) is None),
{
    let chart = match get_field(root, "chart") {
        Some(c) => c,
        None => {
            return None;
        },
    };
    let results = match get_field(chart, "result") {
        Some(l) => l,
        None => {
            return None;
        },
    };
    let first = match get_item(results, 0) {
        Some(f) => f,
        None => {
            return None;
        },
    };
    get_field(first, "meta")
}

/// Reads one numeric field of the `meta` object as decimal text.
fn meta_number_text(root: &serde_json::Value, key: &str) -> (r: Option<String>)
    ensures
        (r matches Some(t) ==> meta_number(*root, key@) == Some(t@)),
        (r is None ==> meta_number(*root, key@) is None),
{
    let meta = match meta_of(root) {
        Some(m) => m,
        None => {
            return None;
        },
    };
    let field = match get_field(meta, key) {
        Some(f) => f,
        None => {
            return None;
        },
    };
    get_number_text(field)
}

/// The signal-path accessor: extracts price and change percent from
/// the response, substituting the documented defaults field by field
/// where the transport failed (`None`) or the response lacks the
/// number. It never reports a failure.
pub fn quote_with_fallback(root: Option<&serde_json::Value>) -> (q: Quote)
    ensures
        (root matches Some(v) ==> q.price@ == quote_price(Some(*v)) && q.change@ == quote_change(
            Some(*v),
        )),
        (root is None ==> q.price@ == default_price_text() && q.change@ == default_change_text()),
{
    match root {
        Some(v) => {
            let price = match meta_number_text(v, "regularMarketPrice") {
                Some(t) => t,
                None => String::from_str("25000"),
            };
            let change = match meta_number_text(v, "regularMarketChangePercent") {
                Some(t) => t,
                None => String::from_str("0"),
            };
            Quote { price, change }
        },
        None => Quote { price: String::from_str("25000"), change: String::from_str("0") },
    }
}

/// Why the raw accessor failed, with the message text it carries.
#[derive(PartialEq, Debug)]
pub enum QuoteError {
    /// The request itself failed; carries the transport's message.
    Transport(String),
    /// The response body was not one valid JSON document; carries the
    /// decoder's message.
    Decode(String),
}

/// The text of a transport failure as the raw accessor reports it.
pub open spec fn transport_message(detail: Seq<char>) -> Seq<char> {
    "Yahoo API failed: "@ + detail
}

/// The text of a decode failure as the raw accessor reports it.
pub open spec fn decode_message(detail: Seq<char>) -> Seq<char> {
    "JSON parse failed: "@ + detail
}

impl QuoteError {
    pub fn message(&self) -> (r: String)
        ensures
            (self matches QuoteError::Transport(d) ==> r@ == transport_message(d@)),
            (self matches QuoteError::Decode(d) ==> r@ == decode_message(d@)),
    {
        match self {
            QuoteError::Transport(d) => String::from_str("Yahoo API failed: ").concat(d.as_str()),
            QuoteError::Decode(d) => String::from_str("JSON parse failed: ").concat(d.as_str()),
        }
    }
}

/// What the raw accessor yields, as a function of the transport result.
pub enum RawOutcome {
    Document(serde_json::Value),
    TransportFailure(Seq<char>),
    DecodeFailure(Seq<char>),
}

pub open spec fn raw_outcome(transport: Result<Seq<char>, Seq<char>>) -> RawOutcome {
    match transport {
        Err(e) => RawOutcome::TransportFailure(e),
        Ok(body) => match json_parse(body) {
            Some(v) => RawOutcome::Document(v),
            None => RawOutcome::DecodeFailure(json_error_text(body)),
        },
    }
}

/// The raw-path accessor: the decision on a completed transport
/// attempt. A transport failure and an undecodable body each surface
/// as a distinct error carrying the underlying message; a decodable
/// body is returned whole.
pub fn raw_quote(transport: Result<String, String>) -> (r: Result<serde_json::Value, QuoteError>)
    ensures
        (transport matches Err(e) ==> r matches Err(q) && q matches QuoteError::Transport(m)
            && m@ == e@ && raw_outcome(Err(e@)) == RawOutcome::TransportFailure(e@)),
        (transport matches Ok(body) ==> {
            &&& (raw_outcome(Ok(body@)) matches RawOutcome::Document(v) ==> r == Ok::<
                serde_json::Value,
                QuoteError,
            >(v))
            &&& (raw_outcome(Ok(body@)) matches RawOutcome::DecodeFailure(d) ==> r matches Err(q)
                && q matches QuoteError::Decode(m) && m@ == d)
        }),
{
    match transport {
        Err(e) => Err(QuoteError::Transport(e)),
        Ok(body) => match parse_document(body.as_str()) {
            Ok(v) => Ok(v),
            Err(m) => Err(QuoteError::Decode(m)),
        },
    }
}

/// Fallback asymmetry: under the identical failure condition — the
/// transport call fails — the signal path yields the documented
/// default price and zero change, while the raw path reports the
/// failure instead of any default.
pub proof fn lemma_fallback_asymmetry(detail: Seq<char>)
    ensures
        quote_price(None) == default_price_text(),
        quote_change(None) == default_change_text(),
        raw_outcome(Err(detail)) == RawOutcome::TransportFailure(detail),
{
}

} // verus!
