//! The stream relay: a per-request session that reassembles a chunked
//! byte stream into lines, decodes each complete line as one record,
//! and emits the session's events in strict arrival order — start,
//! then one token per fragment record, then end on the terminal record.
//!
//! A session that ends without ever seeing a terminal record is a
//! failure ("upstream not responding"), distinct from a clean end.

use vstd::prelude::*;
use vstd::string::StrSliceExecFns;
use vstd::string::StringExecFns;
use crate::events::Event;
use crate::events::EventModel;
use crate::events::Prefix;
use crate::events::end_event;
use crate::events::end_model;
use crate::events::start_event;
use crate::events::start_model;
use crate::events::token_event;
use crate::events::token_model;
use crate::json::LineVerdict;
use crate::json::classify_line;
use crate::json::record_fragment;
use crate::json::record_is_terminal;
use crate::lines::chunk_text;
use crate::lines::find_newline;
use crate::lines::first_newline;
use crate::lines::lemma_first_newline;
use crate::lines::line_body;
use crate::lines::split_at_newline;
use crate::lines::utf8_text;

verus! {

/// Why a relay session failed.
#[derive(Clone, Copy, PartialEq, Eq, Structural, Debug)]
pub enum RelayError {
    /// The stream closed (or was abandoned) without a terminal record.
    UpstreamNotResponding,
}

impl RelayError {
    pub fn message(&self) -> (r: String)
        ensures
            r@ == "upstream not responding"@,
    {
        String::from_str("upstream not responding")
    }
}

/// What draining the buffered text of its complete lines yields: the
/// fragments of the token records in arrival order, the text left in
/// the buffer, and whether a terminal record was reached.
pub struct Drained {
    pub tokens: Seq<Seq<char>>,
    pub rest: Seq<char>,
    pub done: bool,
}

/// Processes every complete line of the buffered text, in order,
/// stopping at a terminal record.
pub open spec fn drain(buf: Seq<char>) -> Drained
    decreases buf.len(),
    via drain_decreases
{
    match first_newline(buf) {
        None => Drained { tokens: Seq::empty(), rest: buf, done: false },
        Some(i) => {
            let line = line_body(buf.take(i));
            let rest = buf.skip(i + 1);
            if record_is_terminal(line) {
                Drained { tokens: Seq::empty(), rest, done: true }
            } else {
                let d = drain(rest);
                match record_fragment(line) {
                    Some(t) => Drained { tokens: seq![t] + d.tokens, rest: d.rest, done: d.done },
                    None => d,
                }
            }
        },
    }
}

#[via_fn]
proof fn drain_decreases(buf: Seq<char>) {
    lemma_first_newline(buf);
}

/// One arriving chunk, applied to the session state: an already-ended
/// session ignores it, a chunk that is not valid text is skipped whole,
/// any other chunk extends the buffer, which is then drained.
pub open spec fn step_chunk(buf: Seq<char>, done: bool, chunk: Seq<u8>) -> Drained {
    if done {
        Drained { tokens: Seq::empty(), rest: buf, done: true }
    } else {
        match utf8_text(chunk) {
            None => Drained { tokens: Seq::empty(), rest: buf, done: false },
            Some(t) => drain(buf + t),
        }
    }
}

/// The session state after a whole sequence of chunks, starting from an
/// empty buffer, with all fragments gathered in arrival order.
pub open spec fn feed(chunks: Seq<Seq<u8>>) -> Drained
    decreases chunks.len(),
{
    if chunks.len() == 0 {
        Drained { tokens: Seq::empty(), rest: Seq::empty(), done: false }
    } else {
        let prev = feed(chunks.drop_last());
        let d = step_chunk(prev.rest, prev.done, chunks.last());
        Drained { tokens: prev.tokens + d.tokens, rest: d.rest, done: prev.done || d.done }
    }
}

/// The fragment of the unterminated trailing line, if the transport
/// closes while one is buffered.
pub open spec fn finish_tokens(buf: Seq<char>, done: bool) -> Seq<Seq<char>> {
    if done {
        Seq::empty()
    } else {
        match record_fragment(buf) {
            Some(t) => seq![t],
            None => Seq::empty(),
        }
    }
}

/// Whether the session has seen a terminal record once the transport
/// closes: either earlier, or as the unterminated trailing line.
pub open spec fn finish_done(buf: Seq<char>, done: bool) -> bool {
    done || record_is_terminal(buf)
}

/// Every fragment the session relays for this chunk sequence, in
/// arrival order.
pub open spec fn session_tokens(chunks: Seq<Seq<u8>>) -> Seq<Seq<char>> {
    feed(chunks).tokens + finish_tokens(feed(chunks).rest, feed(chunks).done)
}

/// Whether the session ends cleanly, on a terminal record.
pub open spec fn session_completed(chunks: Seq<Seq<u8>>) -> bool {
    finish_done(feed(chunks).rest, feed(chunks).done)
}

/// The exact event sequence of one session: the start event carrying
/// the subject, one token event per fragment in arrival order, and the
/// end event if and only if the session saw a terminal record — with
/// nothing after the end event.
pub open spec fn session_trace(prefix: Prefix, subject: Seq<char>, chunks: Seq<Seq<u8>>) -> Seq<
    EventModel,
> {
    seq![start_model(prefix, subject)] + session_tokens(chunks).map_values(
        |t: Seq<char>| token_model(prefix, t),
    ) + if session_completed(chunks) {
        seq![end_model(prefix)]
    } else {
        Seq::<EventModel>::empty()
    }
}

/// Model of a live session: its event-name prefix, the buffered text
/// not yet ended by a line break, and whether the terminal record has
/// been seen.
pub struct SessionModel {
    pub prefix: Prefix,
    pub buf: Seq<char>,
    pub done: bool,
}

/// The events one chunk step emits: its fragments as token events, and
/// the end event where this very step reached the terminal record.
pub open spec fn chunk_events(prefix: Prefix, was_done: bool, d: Drained) -> Seq<EventModel> {
    d.tokens.map_values(|t: Seq<char>| token_model(prefix, t)) + if !was_done && d.done {
        seq![end_model(prefix)]
    } else {
        Seq::<EventModel>::empty()
    }
}

/// The events the close of the transport emits.
pub open spec fn finish_events(prefix: Prefix, buf: Seq<char>, done: bool) -> Seq<EventModel> {
    finish_tokens(buf, done).map_values(|t: Seq<char>| token_model(prefix, t)) + if !done
        && record_is_terminal(buf) {
        seq![end_model(prefix)]
    } else {
        Seq::<EventModel>::empty()
    }
}

/// One relay session. Create it with `begin`, hand it each arriving
/// chunk with `on_chunk`, and close it with `finish` when the transport
/// ends; the caller owns the session for exactly one request.
pub struct StreamSession {
    prefix: Prefix,
    buf: String,
    done: bool,
}

impl View for StreamSession {
    type V = SessionModel;

    closed spec fn view(&self) -> SessionModel {
        SessionModel { prefix: self.prefix, buf: self.buf@, done: self.done }
    }
}

impl StreamSession {
    /// Opens a session and yields the start event, which carries the
    /// request subject and precedes every other event of the session.
    pub fn begin(prefix: Prefix, subject: String) -> (r: (StreamSession, Event))
        ensures
            r.0@ == (SessionModel { prefix, buf: Seq::<char>::empty(), done: false }),
            r.1@ == start_model(prefix, subject@),
    {
        let session = StreamSession { prefix, buf: String::new(), done: false };
        let start = start_event(prefix, subject);
        (session, start)
    }

    /// Feeds one arriving chunk to the session; the returned events are
    /// to be emitted in order. After the terminal record, no chunk
    /// yields any further event.
    pub fn on_chunk(&mut self, chunk: &[u8]) -> (events: Vec<Event>)
        ensures
            ({
                let d = step_chunk(old(self)@.buf, old(self)@.done, chunk@);
                &&& final(self)@.prefix == old(self)@.prefix
                &&& final(self)@.buf == d.rest
                &&& final(self)@.done == (old(self)@.done || d.done)
                &&& events@.map_values(|e: Event| e@) == chunk_events(
                    old(self)@.prefix,
                    old(self)@.done,
                    d,
                )
            }),
    {
        let mut events: Vec<Event> = Vec::new();
        if self.done {
            assert(events@.map_values(|e: Event| e@) =~= chunk_events(
                self.prefix,
                true,
                step_chunk(self@.buf, true, chunk@),
            ));
            return events;
        }
        let text = match chunk_text(chunk) {
            None => {
                assert(events@.map_values(|e: Event| e@) =~= chunk_events(
                    self.prefix,
                    false,
                    step_chunk(self@.buf, false, chunk@),
                ));
                return events;
            },
            Some(t) => t,
        };
        self.buf.append(text.as_str());
        let ghost prefix0 = self.prefix;
        let ghost b0 = self.buf@;
        let ghost mut emitted: Seq<Seq<char>> = Seq::empty();
        let mut scanning = true;
        while scanning
            invariant
                self.prefix == prefix0,
                self.done ==> {
                    &&& drain(b0).done
                    &&& drain(b0).tokens == emitted
                    &&& self.buf@ == drain(b0).rest
                    &&& !scanning
                },
                !self.done ==> {
                    &&& drain(b0).tokens == emitted + drain(self.buf@).tokens
                    &&& drain(b0).rest == drain(self.buf@).rest
                    &&& drain(b0).done == drain(self.buf@).done
                    &&& (!scanning ==> first_newline(self.buf@) is None)
                },
                events@.map_values(|e: Event| e@) == emitted.map_values(
                    |t: Seq<char>| token_model(prefix0, t),
                ) + if self.done {
                    seq![end_model(prefix0)]
                } else {
                    Seq::<EventModel>::empty()
                },
            decreases self.buf@.len() + if scanning {
                1int
            } else {
                0int
            },
        {
            match find_newline(&self.buf) {
                None => {
                    scanning = false;
                },
                Some(i) => {
                    proof {
                        lemma_first_newline(self.buf@);
                    }
                    let ghost before = self.buf@;
                    let (line, rest) = split_at_newline(&self.buf, i);
                    self.buf = rest;
                    match classify_line(line.as_str()) {
                        LineVerdict::Done => {
                            events.push(end_event(self.prefix));
                            self.done = true;
                            scanning = false;
                            proof {
                                assert(drain(before).done);
                                assert(drain(before).tokens =~= Seq::<Seq<char>>::empty());
                                assert(drain(b0).tokens =~= emitted);
                                assert(events@.map_values(|e: Event| e@) =~= emitted.map_values(
                                    |t: Seq<char>| token_model(prefix0, t),
                                ) + seq![end_model(prefix0)]);
                            }
                        },
                        LineVerdict::Token(t) => {
                            let ghost tv = t@;
                            let ghost evs0 = events@;
                            let ghost em0 = emitted;
                            let ev = token_event(self.prefix, t);
                            let ghost evm = ev@;
                            events.push(ev);
                            proof {
                                assert(drain(before).tokens =~= seq![tv] + drain(
                                    self.buf@,
                                ).tokens);
                                emitted = emitted + seq![tv];
                                assert(drain(b0).tokens =~= emitted + drain(self.buf@).tokens);
                                assert(evm == token_model(prefix0, tv));
                                assert(events@.map_values(|e: Event| e@) =~= evs0.map_values(
                                    |e: Event| e@,
                                ).push(evm));
                                assert(evs0.map_values(|e: Event| e@) =~= em0.map_values(
                                    |t2: Seq<char>| token_model(prefix0, t2),
                                ));
                                assert(emitted.map_values(|t2: Seq<char>| token_model(prefix0, t2))
                                    =~= em0.map_values(
                                    |t2: Seq<char>| token_model(prefix0, t2),
                                ).push(token_model(prefix0, tv)));
                                assert(events@.map_values(|e: Event| e@) =~= emitted.map_values(
                                    |t2: Seq<char>| token_model(prefix0, t2),
                                ) + Seq::<EventModel>::empty());
                            }
                        },
                        LineVerdict::Skip => {
                            proof {
                                assert(drain(before).tokens =~= drain(self.buf@).tokens);
                            }
                        },
                    }
                },
            }
        }
        events
    }

    /// Closes the session when the transport ends: decodes the
    /// unterminated trailing line, if any, and reports whether a
    /// terminal record was ever seen; where none was, the session fails
    /// as "upstream not responding" and no end event is emitted.
    pub fn finish(&mut self) -> (r: (Vec<Event>, Result<(), RelayError>))
        ensures
            final(self)@.prefix == old(self)@.prefix,
            final(self)@.buf == old(self)@.buf,
            final(self)@.done == finish_done(old(self)@.buf, old(self)@.done),
            r.0@.map_values(|e: Event| e@) == finish_events(
                old(self)@.prefix,
                old(self)@.buf,
                old(self)@.done,
            ),
            (r.1 is Ok <==> finish_done(old(self)@.buf, old(self)@.done)),
    {
        let mut events: Vec<Event> = Vec::new();
        if self.done {
            assert(events@.map_values(|e: Event| e@) =~= finish_events(
                self.prefix,
                self@.buf,
                true,
            ));
            return (events, Ok(()));
        }
        match classify_line(self.buf.as_str()) {
            LineVerdict::Done => {
                events.push(end_event(self.prefix));
                self.done = true;
                assert(events@.map_values(|e: Event| e@) =~= finish_events(
                    self.prefix,
                    old(self)@.buf,
                    false,
                ));
                (events, Ok(()))
            },
            LineVerdict::Token(t) => {
                events.push(token_event(self.prefix, t));
                assert(events@.map_values(|e: Event| e@) =~= finish_events(
                    self.prefix,
                    old(self)@.buf,
                    false,
                ));
                (events, Err(RelayError::UpstreamNotResponding))
            },
            LineVerdict::Skip => {
                assert(events@.map_values(|e: Event| e@) =~= finish_events(
                    self.prefix,
                    old(self)@.buf,
                    false,
                ));
                (events, Err(RelayError::UpstreamNotResponding))
            },
        }
    }
}

/// Unfolds `feed` by one chunk at the end of a prefix of the sequence.
proof fn lemma_feed_take_step(cs: Seq<Seq<u8>>, k: int)
    requires
        0 <= k < cs.len(),
    ensures
        ({
            let prev = feed(cs.take(k));
            let d = step_chunk(prev.rest, prev.done, cs[k]);
            feed(cs.take(k + 1)) == (Drained {
                tokens: prev.tokens + d.tokens,
                rest: d.rest,
                done: prev.done || d.done,
            })
        }),
{
    assert(cs.take(k + 1).drop_last() =~= cs.take(k));
    assert(cs.take(k + 1).last() == cs[k]);
}

/// Runs one whole relay session over the chunks of a closed transport:
/// the returned events are exactly the session's trace — the start
/// event first, every relayed fragment as a token event in arrival
/// order, and the end event last if and only if a terminal record was
/// seen, in which case (and only then) the run succeeds.
pub fn relay_run(prefix: Prefix, subject: String, chunks: &Vec<Vec<u8>>) -> (r: (
    Vec<Event>,
    Result<(), RelayError>,
))
    ensures
        r.0@.map_values(|e: Event| e@) == session_trace(prefix, subject@, chunks.deep_view()),
        (r.1 is Ok <==> session_completed(chunks.deep_view())),
{
    let ghost subjv = subject@;
    let ghost cv = chunks.deep_view();
    let (mut session, start) = StreamSession::begin(prefix, subject);
    let mut events: Vec<Event> = Vec::new();
    events.push(start);
    assert(events@.map_values(|e: Event| e@) =~= seq![start_model(prefix, subjv)] + feed(
        cv.take(0),
    ).tokens.map_values(|t: Seq<char>| token_model(prefix, t)) + Seq::<EventModel>::empty()) by {
        assert(cv.take(0) =~= Seq::<Seq<u8>>::empty());
    }
    let n = chunks.len();
    let mut k: usize = 0;
    while k < n
        invariant
            0 <= k <= n,
            n == cv.len(),
            cv == chunks.deep_view(),
            session@.prefix == prefix,
            session@.buf == feed(cv.take(k as int)).rest,
            session@.done == feed(cv.take(k as int)).done,
            events@.map_values(|e: Event| e@) == seq![start_model(prefix, subjv)] + feed(
                cv.take(k as int),
            ).tokens.map_values(|t: Seq<char>| token_model(prefix, t)) + if feed(
                cv.take(k as int),
            ).done {
                seq![end_model(prefix)]
            } else {
                Seq::<EventModel>::empty()
            },
        decreases n - k,
    {
        let ghost prev = feed(cv.take(k as int));
        let chunk = chunks[k].as_slice();
        assert(chunk@ == cv[k as int]);
        let mut evs = session.on_chunk(chunk);
        let ghost evsm = evs@.map_values(|e: Event| e@);
        let ghost evs0 = events@;
        events.append(&mut evs);
        proof {
            lemma_feed_take_step(cv, k as int);
            let d = step_chunk(prev.rest, prev.done, cv[k as int]);
            let cur = feed(cv.take(k as int + 1));
            assert(events@.map_values(|e: Event| e@) =~= evs0.map_values(|e: Event| e@) + evsm);
            assert(cur.tokens.map_values(|t: Seq<char>| token_model(prefix, t)) =~= prev.tokens.map_values(
                |t: Seq<char>| token_model(prefix, t),
            ) + d.tokens.map_values(|t: Seq<char>| token_model(prefix, t)));
            assert(events@.map_values(|e: Event| e@) =~= seq![start_model(prefix, subjv)]
                + cur.tokens.map_values(|t: Seq<char>| token_model(prefix, t)) + if cur.done {
                seq![end_model(prefix)]
            } else {
                Seq::<EventModel>::empty()
            });
        }
        k = k + 1;
    }
    proof {
        assert(cv.take(n as int) =~= cv);
    }
    let ghost fa = feed(cv);
    let ghost evs0 = events@;
    let (mut fin, outcome) = session.finish();
    let ghost finm = fin@.map_values(|e: Event| e@);
    events.append(&mut fin);
    proof {
        assert(events@.map_values(|e: Event| e@) =~= evs0.map_values(|e: Event| e@) + finm);
        assert(session_tokens(cv).map_values(|t: Seq<char>| token_model(prefix, t)) =~= fa.tokens.map_values(
            |t: Seq<char>| token_model(prefix, t),
        ) + finish_tokens(fa.rest, fa.done).map_values(|t: Seq<char>| token_model(prefix, t)));
        assert(events@.map_values(|e: Event| e@) =~= session_trace(prefix, subjv, cv));
    }
    (events, outcome)
}

} // verus!
