use crosscode::error::DeviceError;
use crosscode::relay::{relay_step, Emitted, RelayInput, StreamKind};
use crosscode::session::StreamSession;

fn message(e: &Option<Emitted>) -> Option<String> {
    match e {
        Some(Emitted::Message(m)) => Some(m.clone()),
        _ => None,
    }
}

fn terminal(e: &Option<Emitted>) -> Option<String> {
    match e {
        Some(Emitted::Terminal(m)) => Some(m.clone()),
        _ => None,
    }
}

#[test]
fn new_session_is_idle() {
    let s: StreamSession<u32> = StreamSession::new();
    assert!(!s.is_streaming());
}

#[test]
fn restart_cancels_exactly_the_previous_handle() {
    let mut s: StreamSession<&str> = StreamSession::new();
    let first = s.start("first");
    assert_eq!(first.previous, None);
    let second = s.start("second");
    assert_eq!(second.previous, Some("first"));
    assert_ne!(first.id, second.id);
    assert!(s.is_streaming());
    assert_eq!(s.stop(), Ok("second"));
}

#[test]
fn stop_then_stop_again_fails() {
    let mut s: StreamSession<u32> = StreamSession::new();
    s.start(7);
    assert_eq!(s.stop(), Ok(7));
    assert!(!s.is_streaming());
    assert!(matches!(s.stop(), Err(DeviceError::NoActiveStream(_))));
}

#[test]
fn stop_without_start_fails() {
    let mut s: StreamSession<u32> = StreamSession::new();
    assert!(matches!(s.stop(), Err(DeviceError::NoActiveStream(_))));
}

#[test]
fn finished_task_clears_its_own_session_only() {
    let mut s: StreamSession<u32> = StreamSession::new();
    let old = s.start(1);
    let new = s.start(2);
    assert!(!s.finish(old.id));
    assert!(s.is_streaming());
    assert!(s.finish(new.id));
    assert!(!s.is_streaming());
}

#[test]
fn take_active_leaves_session_idle() {
    let mut s: StreamSession<u32> = StreamSession::new();
    assert_eq!(s.take_active(), None);
    s.start(3);
    assert_eq!(s.take_active(), Some(3));
    assert!(!s.is_streaming());
}

#[test]
fn in_flight_message_is_delivered_then_nothing_more() {
    let inputs = vec![
        RelayInput::Line("one".to_string()),
        RelayInput::Line("two".to_string()),
        RelayInput::Cancelled,
        RelayInput::Line("three".to_string()),
        RelayInput::ReadFailed("gone".to_string()),
    ];
    let mut running = true;
    let mut out = Vec::new();
    for input in inputs {
        let step = relay_step(StreamKind::Syslog, running, input);
        running = step.running;
        if let Some(m) = message(&step.emit) {
            out.push(m);
        }
        assert!(terminal(&step.emit).is_none());
    }
    assert_eq!(out, vec!["one".to_string(), "two".to_string()]);
    assert!(!running);
}

#[test]
fn syslog_read_failure_emits_terminal_event() {
    let step = relay_step(StreamKind::Syslog, true, RelayInput::ReadFailed("broken pipe".to_string()));
    assert!(!step.running);
    assert_eq!(terminal(&step.emit), Some("Error reading syslog: broken pipe".to_string()));
}

#[test]
fn stdout_read_failure_emits_done_marker() {
    let step = relay_step(StreamKind::Stdout, true, RelayInput::ReadFailed("reset".to_string()));
    assert!(!step.running);
    assert_eq!(terminal(&step.emit), Some("stdout.done".to_string()));
}

#[test]
fn stdout_chunks_are_decoded() {
    let step = relay_step(StreamKind::Stdout, true, RelayInput::Chunk("héllo\n".as_bytes().to_vec()));
    assert!(step.running);
    assert_eq!(message(&step.emit), Some("héllo\n".to_string()));
    let step = relay_step(StreamKind::Stdout, true, RelayInput::Chunk(vec![0xff, 0xfe]));
    assert!(step.running);
    assert!(step.emit.is_none());
}

#[test]
fn empty_chunk_ends_stream_without_event() {
    let step = relay_step(StreamKind::Stdout, true, RelayInput::Chunk(Vec::new()));
    assert!(!step.running);
    assert!(step.emit.is_none());
    let step = relay_step(StreamKind::Syslog, true, RelayInput::Ended);
    assert!(!step.running);
    assert!(step.emit.is_none());
}

#[test]
fn refused_event_ends_syslog_but_not_stdout() {
    assert!(!relay_step(StreamKind::Syslog, true, RelayInput::SinkFailed).running);
    assert!(relay_step(StreamKind::Stdout, true, RelayInput::SinkFailed).running);
}

#[test]
fn stopped_task_stays_silent() {
    let step = relay_step(StreamKind::Syslog, false, RelayInput::Line("late".to_string()));
    assert!(!step.running);
    assert!(step.emit.is_none());
}

#[test]
fn interleaved_starts_and_exits_keep_one_live_session() {
    let mut s: StreamSession<&str> = StreamSession::new();
    let a = s.start("a");
    assert_eq!(s.take_active(), Some("a"));
    let b = s.start("b");
    assert!(!s.finish(a.id));
    assert!(s.is_streaming());
    let c = s.start("c");
    assert_eq!(c.previous, Some("b"));
    assert!(!s.finish(b.id));
    assert_eq!(s.stop(), Ok("c"));
    assert!(!s.finish(c.id));
    assert!(!s.is_streaming());
}
