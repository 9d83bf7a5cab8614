//! Line assembly: newline handling, chunked input, the length bound, and
//! reset.

use thermostat::session::{LineReader, Session, SessionInput};

#[test]
fn line_reader_assembles_a_line() {
    let mut reader = LineReader::new();
    assert!(reader.feed(b'h').is_none());
    assert!(reader.feed(b'i').is_none());
    let line = reader.feed(b'\n').expect("line ends at newline");
    assert_eq!(line, b"hi".to_vec());
    // The buffer was handed out; the next newline has nothing to end.
    assert!(reader.feed(b'\r').is_none());
}

#[test]
fn line_reader_swallows_empty_lines() {
    let mut reader = LineReader::new();
    assert!(reader.feed(b'\r').is_none());
    assert!(reader.feed(b'\n').is_none());
}

#[test]
fn line_reader_ignores_input_beyond_capacity() {
    let mut reader = LineReader::new();
    for _ in 0..100 {
        assert!(reader.feed(b'x').is_none());
    }
    let line = reader.feed(b'\n').expect("overlong line still terminates");
    // Only the first 64 bytes were kept.
    assert_eq!(line.len(), 64);
    assert!(line.iter().all(|&c| c == b'x'));
}

#[test]
fn session_feed_returns_consumed_count() {
    let mut session = Session::new();
    let (consumed, input) = session.feed(b"report\nextra");
    assert_eq!(consumed, 7);
    match input {
        SessionInput::Line(line) => assert_eq!(line, b"report".to_vec()),
        SessionInput::Nothing => panic!("expected a complete line"),
    }
    // The unconsumed tail is fed on the next call.
    let (consumed2, input2) = session.feed(b"extra\n");
    assert_eq!(consumed2, 6);
    match input2 {
        SessionInput::Line(line) => assert_eq!(line, b"extra".to_vec()),
        SessionInput::Nothing => panic!("expected a complete line"),
    }
}

#[test]
fn session_feed_without_newline_reports_nothing() {
    let mut session = Session::new();
    let (consumed, input) = session.feed(b"pwm");
    assert_eq!(consumed, 3);
    assert!(matches!(input, SessionInput::Nothing));
}

#[test]
fn session_reset_drops_partial_line() {
    let mut session = Session::new();
    let _ = session.feed(b"par");
    session.reset();
    let (_, input) = session.feed(b"tial\n");
    match input {
        SessionInput::Line(line) => assert_eq!(line, b"tial".to_vec()),
        SessionInput::Nothing => panic!("expected a complete line"),
    }
}
