use supervise::quote::Quote;
use supervise::quote::QuoteError;
use supervise::quote::provider_symbol;
use supervise::quote::quote_with_fallback;
use supervise::quote::raw_quote;

const BODY: &str = "{\"chart\":{\"result\":[{\"meta\":{\"regularMarketPrice\":123.45,\"regularMarketChangePercent\":-0.5}}]}}";

#[test]
fn fallback_asymmetry_under_transport_failure() {
    // The signal path absorbs the failure into the documented defaults.
    let q = quote_with_fallback(None);
    assert_eq!(q, Quote { price: "25000".to_string(), change: "0".to_string() });
    assert_eq!(q.price.parse::<f64>().unwrap(), 25000.0);
    assert_eq!(q.change.parse::<f64>().unwrap(), 0.0);

    // The raw path surfaces the identical failure as an explicit error.
    let r = raw_quote(Err("connection refused".to_string()));
    match r {
        Err(QuoteError::Transport(m)) => assert_eq!(m, "connection refused"),
        other => panic!("expected a transport error, got {:?}", other),
    }
}

#[test]
fn quote_extracts_both_numbers() {
    let v: serde_json::Value = serde_json::from_str(BODY).unwrap();
    let q = quote_with_fallback(Some(&v));
    assert_eq!(q.price, "123.45");
    assert_eq!(q.change, "-0.5");
}

#[test]
fn missing_field_defaults_field_by_field() {
    let body = "{\"chart\":{\"result\":[{\"meta\":{\"regularMarketPrice\":42}}]}}";
    let v: serde_json::Value = serde_json::from_str(body).unwrap();
    let q = quote_with_fallback(Some(&v));
    assert_eq!(q.price, "42");
    assert_eq!(q.change, "0");
}

#[test]
fn unrelated_document_yields_both_defaults() {
    let v: serde_json::Value = serde_json::from_str("{\"other\":1}").unwrap();
    let q = quote_with_fallback(Some(&v));
    assert_eq!(q.price, "25000");
    assert_eq!(q.change, "0");
}

#[test]
fn raw_quote_returns_the_document_whole() {
    let r = raw_quote(Ok(BODY.to_string())).unwrap();
    let expected: serde_json::Value = serde_json::from_str(BODY).unwrap();
    assert_eq!(r, expected);
}

#[test]
fn raw_quote_surfaces_decode_failure() {
    let r = raw_quote(Ok("not json at all".to_string()));
    match r {
        Err(e @ QuoteError::Decode(_)) => {
            assert!(e.message().starts_with("JSON parse failed: "));
        },
        other => panic!("expected a decode error, got {:?}", other),
    }
}

#[test]
fn transport_error_message_text() {
    let e = QuoteError::Transport("timed out".to_string());
    assert_eq!(e.message(), "Yahoo API failed: timed out");
}

#[test]
fn provider_symbol_lookup() {
    assert_eq!(provider_symbol(&"NIFTY".to_string()), "^NSEI");
    assert_eq!(provider_symbol(&"BANKNIFTY".to_string()), "^NSEBANK");
    assert_eq!(provider_symbol(&"anything else".to_string()), "^NSEBANK");
}
