use backend_supervisor::notice::{Level, LogRecord, Notice, Termination};
use backend_supervisor::relay::{output_record, relay_all, report, OutputEvent, Relay, Stream};

#[test]
fn events_keep_their_order_and_levels() {
    let events = vec![
        OutputEvent::Stdout(b"one".to_vec()),
        OutputEvent::Stderr(b"two".to_vec()),
        OutputEvent::Other,
        OutputEvent::Error("pipe closed".to_string()),
    ];
    assert_eq!(
        relay_all(&events),
        vec![
            LogRecord::new(Level::Info, Notice::Output("one".to_string())),
            LogRecord::new(Level::Warn, Notice::Output("two".to_string())),
            LogRecord::new(Level::Error, Notice::BackendError("pipe closed".to_string())),
        ]
    );
}

#[test]
fn nothing_is_relayed_after_termination() {
    let exit = Termination { code: None, signal: Some(9) };
    let events = vec![
        OutputEvent::Stdout(b"a".to_vec()),
        OutputEvent::Terminated(exit),
        OutputEvent::Stdout(b"late".to_vec()),
        OutputEvent::Terminated(exit),
    ];
    assert_eq!(
        relay_all(&events),
        vec![
            LogRecord::new(Level::Info, Notice::Output("a".to_string())),
            LogRecord::new(Level::Info, Notice::Exited(exit)),
        ]
    );

    let mut relay = Relay::new();
    assert!(relay.is_subscribed());
    assert!(relay.on_event(&events[1]).is_some());
    assert!(!relay.is_subscribed());
    assert_eq!(relay.on_event(&events[2]), None);
    assert_eq!(relay.on_event(&events[3]), None);
}

#[test]
fn empty_stream_relays_nothing() {
    assert_eq!(relay_all(&Vec::new()), Vec::new());
}

#[test]
fn invalid_utf8_is_replaced() {
    let r = report(&OutputEvent::Stdout(vec![b'o', b'k', 0xff]));
    assert_eq!(r, Some(LogRecord::new(Level::Info, Notice::Output("ok\u{FFFD}".to_string()))));
}

#[test]
fn stderr_text_is_decoded() {
    let r = report(&OutputEvent::Stderr("警告".as_bytes().to_vec()));
    assert_eq!(r, Some(LogRecord::new(Level::Warn, Notice::Output("警告".to_string()))));
}

#[test]
fn output_record_level_follows_stream() {
    assert_eq!(output_record(Stream::Stdout, "x".to_string()).level, Level::Info);
    assert_eq!(output_record(Stream::Stderr, "x".to_string()).level, Level::Warn);
    assert_eq!(report(&OutputEvent::Other), None);
}
