use supervise::events::Event;
use supervise::events::Payload;
use supervise::events::Prefix;
use supervise::relay::RelayError;
use supervise::relay::StreamSession;
use supervise::relay::relay_run;

fn names(events: &[Event]) -> Vec<String> {
    events.iter().map(|e| e.name.clone()).collect()
}

#[test]
fn stream_ordering_three_records() {
    let chunks: Vec<Vec<u8>> = vec![
        b"{\"response\":\"a\"}\n".to_vec(),
        b"{\"response\":\"b\"}\n{\"done\":true}\n".to_vec(),
    ];
    let (events, result) = relay_run(Prefix::Research, "query".to_string(), &chunks);
    assert!(result.is_ok());
    assert_eq!(
        names(&events),
        vec!["research-start", "research-token", "research-token", "research-end"]
    );
    assert_eq!(events[0].payload, Payload::Text("query".to_string()));
    assert_eq!(events[1].payload, Payload::Text("a".to_string()));
    assert_eq!(events[2].payload, Payload::Text("b".to_string()));
    assert_eq!(events[3].payload, Payload::Empty);
}

#[test]
fn unterminated_stream_fails_without_end_event() {
    let chunks: Vec<Vec<u8>> = vec![b"{\"response\":\"a\"}\n".to_vec()];
    let (events, result) = relay_run(Prefix::Research, "q".to_string(), &chunks);
    assert_eq!(result, Err(RelayError::UpstreamNotResponding));
    assert_eq!(names(&events), vec!["research-start", "research-token"]);
    assert_eq!(events[1].payload, Payload::Text("a".to_string()));
}

#[test]
fn malformed_lines_are_skipped() {
    let chunks: Vec<Vec<u8>> = vec![
        b"\n{\"response\":\"a\"}\n".to_vec(),
        b"this is not json\n{\"response\":\"b\"}\n".to_vec(),
        b"   \n{\"done\":true}\n".to_vec(),
    ];
    let (events, result) = relay_run(Prefix::Research, "q".to_string(), &chunks);
    assert!(result.is_ok());
    assert_eq!(
        names(&events),
        vec!["research-start", "research-token", "research-token", "research-end"]
    );
    assert_eq!(events[1].payload, Payload::Text("a".to_string()));
    assert_eq!(events[2].payload, Payload::Text("b".to_string()));
}

#[test]
fn record_split_across_chunks_is_reassembled() {
    let chunks: Vec<Vec<u8>> = vec![
        b"{\"respon".to_vec(),
        b"se\":\"ab\"}\n{\"done\":true}\n".to_vec(),
    ];
    let (events, result) = relay_run(Prefix::Research, "q".to_string(), &chunks);
    assert!(result.is_ok());
    assert_eq!(names(&events), vec!["research-start", "research-token", "research-end"]);
    assert_eq!(events[1].payload, Payload::Text("ab".to_string()));
}

#[test]
fn invalid_text_chunk_is_skipped_whole() {
    let chunks: Vec<Vec<u8>> = vec![
        vec![0xff, 0xfe, 0x00],
        b"{\"response\":\"a\"}\n{\"done\":true}\n".to_vec(),
    ];
    let (events, result) = relay_run(Prefix::Research, "q".to_string(), &chunks);
    assert!(result.is_ok());
    assert_eq!(names(&events), vec!["research-start", "research-token", "research-end"]);
}

#[test]
fn nothing_after_the_end_event() {
    let chunks: Vec<Vec<u8>> = vec![
        b"{\"done\":true}\n{\"response\":\"late\"}\n".to_vec(),
        b"{\"response\":\"later\"}\n".to_vec(),
    ];
    let (events, result) = relay_run(Prefix::Research, "q".to_string(), &chunks);
    assert!(result.is_ok());
    assert_eq!(names(&events), vec!["research-start", "research-end"]);
}

#[test]
fn trailing_line_without_newline_is_still_decoded() {
    let chunks: Vec<Vec<u8>> = vec![b"{\"done\":true}".to_vec()];
    let (events, result) = relay_run(Prefix::Research, "q".to_string(), &chunks);
    assert!(result.is_ok());
    assert_eq!(names(&events), vec!["research-start", "research-end"]);

    let chunks2: Vec<Vec<u8>> = vec![b"{\"response\":\"tail\"}".to_vec()];
    let (events2, result2) = relay_run(Prefix::Research, "q".to_string(), &chunks2);
    assert_eq!(result2, Err(RelayError::UpstreamNotResponding));
    assert_eq!(names(&events2), vec!["research-start", "research-token"]);
    assert_eq!(events2[1].payload, Payload::Text("tail".to_string()));
}

#[test]
fn carriage_returns_are_stripped_from_line_ends() {
    let chunks: Vec<Vec<u8>> = vec![b"{\"response\":\"a\"}\r\n{\"done\":true}\r\n".to_vec()];
    let (events, result) = relay_run(Prefix::Research, "q".to_string(), &chunks);
    assert!(result.is_ok());
    assert_eq!(names(&events), vec!["research-start", "research-token", "research-end"]);
}

#[test]
fn trade_prefix_names() {
    let chunks: Vec<Vec<u8>> = vec![b"{\"response\":\"BUY\"}\n{\"done\":true}\n".to_vec()];
    let (events, result) = relay_run(Prefix::Trade, "NIFTY".to_string(), &chunks);
    assert!(result.is_ok());
    assert_eq!(
        names(&events),
        vec!["trade-stream-start", "trade-token", "trade-stream-end"]
    );
}

#[test]
fn incremental_session_matches_whole_run() {
    let (mut session, start) = StreamSession::begin(Prefix::Research, "q".to_string());
    assert_eq!(start.name, "research-start");
    let mut events = vec![start];
    events.extend(session.on_chunk(b"{\"response\":\"a\"}\n"));
    events.extend(session.on_chunk(b"{\"done\":true}\n"));
    events.extend(session.on_chunk(b"{\"response\":\"late\"}\n"));
    let (fin, result) = session.finish();
    events.extend(fin);
    assert!(result.is_ok());
    assert_eq!(
        names(&events),
        vec!["research-start", "research-token", "research-end"]
    );
}

#[test]
fn relay_error_message() {
    assert_eq!(
        RelayError::UpstreamNotResponding.message(),
        "upstream not responding"
    );
}

#[test]
fn empty_stream_is_an_unterminated_failure() {
    // A successful response with no body at all: no terminal record
    // was ever seen, so the session fails like any unterminated close.
    let chunks: Vec<Vec<u8>> = Vec::new();
    let (events, result) = relay_run(Prefix::Research, "q".to_string(), &chunks);
    assert_eq!(result, Err(RelayError::UpstreamNotResponding));
    assert_eq!(names(&events), vec!["research-start"]);
}
