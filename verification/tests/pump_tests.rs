use sidecar_supervisor::pump::{
    ChildEvent, ExitStatus, OutputLine, OutputPump, PumpAction, StreamKind,
};

fn exit(code: i32) -> ChildEvent {
    ChildEvent::Terminated(ExitStatus { code: Some(code), signal: None })
}

fn drain(pump: &mut OutputPump, events: Vec<ChildEvent>) -> Vec<PumpAction> {
    let mut actions = Vec::new();
    for event in events {
        actions.push(pump.on_event(event));
    }
    actions
}

#[test]
fn valid_line_is_decoded_as_it_is() {
    let line = OutputLine::decode(StreamKind::Stdout, b"server listening");
    assert_eq!(line.stream, StreamKind::Stdout);
    assert_eq!(line.text, "server listening");
}

#[test]
fn multibyte_line_is_decoded_as_it_is() {
    let line = OutputLine::decode(StreamKind::Stderr, "gr\u{fc}\u{df}e \u{2713}".as_bytes());
    assert_eq!(line.stream, StreamKind::Stderr);
    assert_eq!(line.text, "gr\u{fc}\u{df}e \u{2713}");
}

#[test]
fn invalid_bytes_are_replaced_not_refused() {
    let line = OutputLine::decode(StreamKind::Stdout, b"a\xffb");
    assert_eq!(line.text, "a\u{fffd}b");
    let truncated = OutputLine::decode(StreamKind::Stderr, b"ok \xe2\x9c");
    assert_eq!(truncated.text, "ok \u{fffd}");
}

#[test]
fn empty_line_is_an_empty_text() {
    let line = OutputLine::decode(StreamKind::Stdout, b"");
    assert_eq!(line.text, "");
}

#[test]
fn log_text_has_the_backend_prefix() {
    let line = OutputLine::new(StreamKind::Stdout, "ready".to_string());
    assert_eq!(line.log_text(), "[backend] ready");
    let empty = OutputLine::new(StreamKind::Stderr, String::new());
    assert_eq!(empty.log_text(), "[backend] ");
}

#[test]
fn new_pump_runs() {
    assert!(OutputPump::new().is_running());
}

#[test]
fn stdout_line_is_forwarded_with_its_tag() {
    let mut pump = OutputPump::new();
    let action = pump.on_event(ChildEvent::Stdout(b"one".to_vec()));
    assert_eq!(
        action,
        PumpAction::Forward(OutputLine { stream: StreamKind::Stdout, text: "one".to_string() })
    );
    assert!(pump.is_running());
}

#[test]
fn stderr_line_is_forwarded_with_its_tag() {
    let mut pump = OutputPump::new();
    let action = pump.on_event(ChildEvent::Stderr(b"warn \xff".to_vec()));
    assert_eq!(
        action,
        PumpAction::Forward(
            OutputLine { stream: StreamKind::Stderr, text: "warn \u{fffd}".to_string() }
        )
    );
    assert!(pump.is_running());
}

#[test]
fn exit_is_reported_and_stops_the_pump() {
    let mut pump = OutputPump::new();
    let status = ExitStatus { code: Some(3), signal: None };
    assert_eq!(pump.on_event(ChildEvent::Terminated(status)), PumpAction::ReportExit(status));
    assert!(!pump.is_running());
}

#[test]
fn exit_by_signal_is_reported() {
    let mut pump = OutputPump::new();
    let status = ExitStatus { code: None, signal: Some(9) };
    assert_eq!(pump.on_event(ChildEvent::Terminated(status)), PumpAction::ReportExit(status));
    assert!(!pump.is_running());
}

#[test]
fn reader_errors_and_unknown_events_are_skipped() {
    let mut pump = OutputPump::new();
    assert_eq!(pump.on_event(ChildEvent::Error("broken pipe".to_string())), PumpAction::Skip);
    assert_eq!(pump.on_event(ChildEvent::Other), PumpAction::Skip);
    assert!(pump.is_running());
}

#[test]
fn closed_channel_stops_the_pump() {
    let mut pump = OutputPump::new();
    pump.on_closed();
    assert!(!pump.is_running());
    assert_eq!(pump.on_event(ChildEvent::Stdout(b"late".to_vec())), PumpAction::Skip);
}

#[test]
fn stopped_pump_drops_what_comes_later() {
    let mut pump = OutputPump::new();
    let actions = drain(
        &mut pump,
        vec![
            ChildEvent::Stdout(b"first".to_vec()),
            exit(0),
            ChildEvent::Stdout(b"late".to_vec()),
            ChildEvent::Stderr(b"later".to_vec()),
            exit(1),
        ],
    );
    assert_eq!(actions.len(), 5);
    assert!(matches!(actions[0], PumpAction::Forward(_)));
    assert!(matches!(actions[1], PumpAction::ReportExit(_)));
    assert_eq!(actions[2], PumpAction::Skip);
    assert_eq!(actions[3], PumpAction::Skip);
    assert_eq!(actions[4], PumpAction::Skip);
    assert!(!pump.is_running());
}

#[test]
fn every_line_written_is_forwarded_once_under_its_tag() {
    let stdout_lines = 5usize;
    let stderr_lines = 3usize;
    let mut events = Vec::new();
    for i in 0..stdout_lines.max(stderr_lines) {
        if i < stdout_lines {
            events.push(ChildEvent::Stdout(format!("out {}", i).into_bytes()));
        }
        if i < stderr_lines {
            events.push(ChildEvent::Stderr(format!("err {}", i).into_bytes()));
        }
    }
    events.push(exit(0));

    let mut pump = OutputPump::new();
    let actions = drain(&mut pump, events);

    let mut stdout_texts = Vec::new();
    let mut stderr_texts = Vec::new();
    let mut exits = 0;
    for action in actions {
        match action {
            PumpAction::Forward(line) => match line.stream {
                StreamKind::Stdout => stdout_texts.push(line.text),
                StreamKind::Stderr => stderr_texts.push(line.text),
            },
            PumpAction::ReportExit(_) => exits += 1,
            PumpAction::Skip => panic!("a line was dropped"),
        }
    }
    assert_eq!(stdout_texts, vec!["out 0", "out 1", "out 2", "out 3", "out 4"]);
    assert_eq!(stderr_texts, vec!["err 0", "err 1", "err 2"]);
    assert_eq!(exits, 1);
    assert!(!pump.is_running());
}

#[test]
fn silent_child_forwards_nothing() {
    let mut pump = OutputPump::new();
    let actions = drain(&mut pump, vec![exit(0)]);
    assert_eq!(actions, vec![PumpAction::ReportExit(ExitStatus { code: Some(0), signal: None })]);
    assert!(!pump.is_running());
}
