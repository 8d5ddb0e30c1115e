use supervise::events::Payload;
use supervise::events::iframe_event;
use supervise::events::price_event;
use supervise::events::ready_events;

#[test]
fn iframe_call_is_forwarded_under_its_name() {
    let e = iframe_event("payload-from-iframe".to_string());
    assert_eq!(e.name, "iframe-call");
    assert_eq!(e.payload, Payload::Text("payload-from-iframe".to_string()));
}

#[test]
fn price_event_carries_both_numbers() {
    let e = price_event("123.45".to_string(), "-0.5".to_string());
    assert_eq!(e.name, "trade-price");
    assert_eq!(
        e.payload,
        Payload::Numbers("123.45".to_string(), "-0.5".to_string())
    );
}

#[test]
fn readiness_events_come_in_order() {
    let r = ready_events();
    assert_eq!(r.len(), 2);
    assert_eq!(r[0].name, "ollama-ready");
    assert_eq!(r[1].name, "backend-ready");
    assert_eq!(r[0].payload, Payload::Empty);
    assert_eq!(r[1].payload, Payload::Empty);
}
