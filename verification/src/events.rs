//! Outbound events: the closed vocabulary that the engine hands to the
//! host's event sink. Ordering within one producing task is what the
//! relay and monitor contracts speak about; the sink itself is outside
//! this crate.

use vstd::prelude::*;
use vstd::string::StringExecFns;

verus! {

/// Which streaming session a relay event belongs to; fixes the three
/// event names of that session.
#[derive(Clone, Copy, PartialEq, Eq, Structural, Debug)]
pub enum Prefix {
    Research,
    Trade,
}

/// Payload carried by an outbound event.
#[derive(PartialEq, Debug)]
pub enum Payload {
    /// No payload (end-of-stream and readiness events).
    Empty,
    /// A text payload (start subject, token fragment, forwarded call).
    Text(String),
    /// A quote: price and change, both as decimal text.
    Numbers(String, String),
    /// A byte count (memory warning sample).
    Amount(u64),
}

/// Mathematical model of a payload.
pub enum PayloadModel {
    Empty,
    Text(Seq<char>),
    Numbers(Seq<char>, Seq<char>),
    Amount(u64),
}

/// One named outbound event.
#[derive(PartialEq, Debug)]
pub struct Event {
    pub name: String,
    pub payload: Payload,
}

/// Mathematical model of an event.
pub struct EventModel {
    pub name: Seq<char>,
    pub payload: PayloadModel,
}

impl View for Payload {
    type V = PayloadModel;

    open spec fn view(&self) -> PayloadModel {
        match self {
            Payload::Empty => PayloadModel::Empty,
            Payload::Text(t) => PayloadModel::Text(t@),
            Payload::Numbers(p, c) => PayloadModel::Numbers(p@, c@),
            Payload::Amount(n) => PayloadModel::Amount(*n),
        }
    }
}

impl View for Event {
    type V = EventModel;

    open spec fn view(&self) -> EventModel {
        EventModel { name: self.name@, payload: self.payload@ }
    }
}

impl Prefix {
    pub open spec fn spec_start_name(self) -> Seq<char> {
        match self {
            Prefix::Research => "research-start"@,
            Prefix::Trade => "trade-stream-start"@,
        }
    }

    pub open spec fn spec_token_name(self) -> Seq<char> {
        match self {
            Prefix::Research => "research-token"@,
            Prefix::Trade => "trade-token"@,
        }
    }

    pub open spec fn spec_end_name(self) -> Seq<char> {
        match self {
            Prefix::Research => "research-end"@,
            Prefix::Trade => "trade-stream-end"@,
        }
    }

    pub fn start_name(&self) -> (r: String)
        ensures
            r@ == self.spec_start_name(),
    {
        match self {
            Prefix::Research => String::from_str("research-start"),
            Prefix::Trade => String::from_str("trade-stream-start"),
        }
    }

    pub fn token_name(&self) -> (r: String)
        ensures
            r@ == self.spec_token_name(),
    {
        match self {
            Prefix::Research => String::from_str("research-token"),
            Prefix::Trade => String::from_str("trade-token"),
        }
    }

    pub fn end_name(&self) -> (r: String)
        ensures
            r@ == self.spec_end_name(),
    {
        match self {
            Prefix::Research => String::from_str("research-end"),
            Prefix::Trade => String::from_str("trade-stream-end"),
        }
    }
}

/// Model of the start event of a session: carries the request subject.
pub open spec fn start_model(prefix: Prefix, subject: Seq<char>) -> EventModel {
    EventModel { name: prefix.spec_start_name(), payload: PayloadModel::Text(subject) }
}

/// Model of one token event of a session.
pub open spec fn token_model(prefix: Prefix, fragment: Seq<char>) -> EventModel {
    EventModel { name: prefix.spec_token_name(), payload: PayloadModel::Text(fragment) }
}

/// Model of the end event of a session.
pub open spec fn end_model(prefix: Prefix) -> EventModel {
    EventModel { name: prefix.spec_end_name(), payload: PayloadModel::Empty }
}

/// Model of a memory warning carrying the offending sample.
pub open spec fn warning_model(sample: u64) -> EventModel {
    EventModel { name: "memory-warning"@, payload: PayloadModel::Amount(sample) }
}

/// Model of the quote event carrying price and change as decimal text.
pub open spec fn price_model(price: Seq<char>, change: Seq<char>) -> EventModel {
    EventModel { name: "trade-price"@, payload: PayloadModel::Numbers(price, change) }
}

/// Model of the forwarded in-page call.
pub open spec fn iframe_model(shim: Seq<char>) -> EventModel {
    EventModel { name: "iframe-call"@, payload: PayloadModel::Text(shim) }
}

pub fn start_event(prefix: Prefix, subject: String) -> (e: Event)
    ensures
        e@ == start_model(prefix, subject@),
{
    Event { name: prefix.start_name(), payload: Payload::Text(subject) }
}

pub fn token_event(prefix: Prefix, fragment: String) -> (e: Event)
    ensures
        e@ == token_model(prefix, fragment@),
{
    Event { name: prefix.token_name(), payload: Payload::Text(fragment) }
}

pub fn end_event(prefix: Prefix) -> (e: Event)
    ensures
        e@ == end_model(prefix),
{
    Event { name: prefix.end_name(), payload: Payload::Empty }
}

pub fn warning_event(sample: u64) -> (e: Event)
    ensures
        e@ == warning_model(sample),
{
    Event { name: String::from_str("memory-warning"), payload: Payload::Amount(sample) }
}

pub fn price_event(price: String, change: String) -> (e: Event)
    ensures
        e@ == price_model(price@, change@),
{
    Event { name: String::from_str("trade-price"), payload: Payload::Numbers(price, change) }
}

pub fn iframe_event(shim: String) -> (e: Event)
    ensures
        e@ == iframe_model(shim@),
{
    Event { name: String::from_str("iframe-call"), payload: Payload::Text(shim) }
}

/// The two readiness notifications sent once startup bootstrapping has
/// been attempted, in the order the host expects them.
pub fn ready_events() -> (r: Vec<Event>)
    ensures
        r@.len() == 2,
        r@[0]@.name == "ollama-ready"@,
        r@[0]@.payload == PayloadModel::Empty,
        r@[1]@.name == "backend-ready"@,
        r@[1]@.payload == PayloadModel::Empty,
{
    let mut r: Vec<Event> = Vec::new();
    r.push(Event { name: String::from_str("ollama-ready"), payload: Payload::Empty });
    r.push(Event { name: String::from_str("backend-ready"), payload: Payload::Empty });
    r
}

} // verus!
