use voxii::relay::{
    announced_result, read_line, replay, result_of, spawn_failure_event, stderr_event,
    streaming_flag, Channel, CorrelationContext, LineReading, Relay, Stream, SubprocessEvent,
};

fn context() -> CorrelationContext {
    CorrelationContext { meeting_id: "m-1".to_string(), selection_id: None }
}

fn delta(payload: &str) -> SubprocessEvent {
    SubprocessEvent::Delta { payload: payload.to_string(), context: context() }
}

fn log(line: &str) -> SubprocessEvent {
    SubprocessEvent::Log { line: line.to_string() }
}

#[test]
fn relay_publishes_lines_in_order_and_ends_with_the_final_payload() {
    let mut relay = Relay::new(context());
    let mut events = Vec::new();
    for line in [
        "{\"type\":\"log\",\"msg\":\"x\"}",
        "plain text",
        "{\"type\":\"final\",\"content\":\"S\"}",
    ] {
        if let Some(event) = relay.stdout_line(line) {
            events.push(event);
        }
    }
    events.extend(relay.finish(None));
    assert_eq!(
        events,
        vec![
            delta("{\"type\":\"log\",\"msg\":\"x\"}"),
            log("plain text"),
            SubprocessEvent::Final {
                content: "S".to_string(),
                payload: "{\"type\":\"final\",\"content\":\"S\"}".to_string(),
                context: context(),
            },
            SubprocessEvent::Done { content: Some("S".to_string()), context: context() },
        ]
    );
    let channels: Vec<Channel> = events.iter().map(|e| e.channel()).collect();
    assert_eq!(channels, vec![Channel::Delta, Channel::Log, Channel::Delta, Channel::Done]);
}

#[test]
fn failed_worker_gives_error_with_stderr_then_done_without_content() {
    let relay = Relay::new(context());
    let events = relay.finish(Some("bad key"));
    assert_eq!(events.len(), 2);
    match &events[0] {
        SubprocessEvent::Error { message } => {
            assert!(message.contains("bad key"));
            assert_eq!(message, "Copilot SDK failed: bad key");
        }
        other => panic!("expected an error, got {:?}", other),
    }
    assert_eq!(events[1], SubprocessEvent::Done { content: None, context: context() });
}

#[test]
fn successful_worker_without_final_line_ends_with_absent_content() {
    let mut relay = Relay::new(context());
    assert_eq!(relay.stdout_line("{\"type\":\"delta\",\"text\":\"a\"}"), Some(delta("{\"type\":\"delta\",\"text\":\"a\"}")));
    assert_eq!(
        relay.finish(None),
        vec![SubprocessEvent::Done { content: None, context: context() }]
    );
}

#[test]
fn failed_worker_still_reports_the_captured_final_payload() {
    let mut relay = Relay::new(context());
    relay.stdout_line("{\"type\":\"final\",\"content\":\"partial\"}");
    let events = relay.finish(Some(""));
    assert_eq!(
        events,
        vec![
            SubprocessEvent::Error { message: "Copilot SDK failed: ".to_string() },
            SubprocessEvent::Done { content: Some("partial".to_string()), context: context() },
        ]
    );
}

#[test]
fn malformed_json_is_logged_and_does_not_stop_the_relay() {
    let mut relay = Relay::new(context());
    for line in ["{not json", "{\"type\":\"final\"", "}", "{\"a\":1}}", "{'type':'final'}"] {
        assert_eq!(relay.stdout_line(line), Some(log(line)));
    }
    assert_eq!(relay.final_payload, None);
    assert_eq!(
        relay.stdout_line("{\"type\":\"final\",\"content\":\"ok\"}").map(|e| e.channel()),
        Some(Channel::Delta)
    );
    assert_eq!(relay.final_payload, Some("ok".to_string()));
}

#[test]
fn json_that_is_no_object_is_logged() {
    let mut relay = Relay::new(context());
    for line in ["42", "\"final\"", "[1,2]", "null", "true", "[{\"type\":\"final\",\"content\":\"x\"}]"] {
        assert_eq!(relay.stdout_line(line), Some(log(line)));
    }
    assert_eq!(relay.final_payload, None);
}

#[test]
fn blank_lines_give_no_event() {
    let mut relay = Relay::new(context());
    assert_eq!(relay.stdout_line(""), None);
    assert_eq!(relay.stdout_line("   "), None);
    assert_eq!(relay.stdout_line("\t\r"), None);
    assert_eq!(relay.final_payload, None);
}

#[test]
fn trailing_whitespace_is_dropped_and_leading_whitespace_kept() {
    let mut relay = Relay::new(context());
    assert_eq!(relay.stdout_line("  note \r"), Some(log("  note")));
    assert_eq!(relay.stdout_line("{\"a\":1}  \r"), Some(delta("{\"a\":1}")));
    assert_eq!(relay.stdout_line("  {\"a\":1}"), Some(delta("  {\"a\":1}")));
}

#[test]
fn latest_final_line_wins() {
    let mut relay = Relay::new(context());
    relay.stdout_line("{\"type\":\"final\",\"content\":\"first\"}");
    relay.stdout_line("{\"type\":\"delta\",\"content\":\"ignored\"}");
    relay.stdout_line("{\"type\":\"final\",\"content\":\"second\"}");
    assert_eq!(
        relay.finish(None),
        vec![SubprocessEvent::Done { content: Some("second".to_string()), context: context() }]
    );
}

#[test]
fn final_line_without_text_content_is_a_delta_and_keeps_the_payload() {
    let mut relay = Relay::new(context());
    relay.stdout_line("{\"type\":\"final\",\"content\":\"kept\"}");
    for line in [
        "{\"type\":\"final\"}",
        "{\"type\":\"final\",\"content\":7}",
        "{\"type\":\"final\",\"content\":null}",
        "{\"type\":\"Final\",\"content\":\"other\"}",
        "{\"type\":[\"final\"],\"content\":\"other\"}",
        "{\"content\":\"other\"}",
    ] {
        assert_eq!(relay.stdout_line(line), Some(delta(line)));
    }
    assert_eq!(relay.final_payload, Some("kept".to_string()));
}

#[test]
fn final_content_may_be_empty_and_may_hold_escapes() {
    let mut relay = Relay::new(context());
    relay.stdout_line("{\"type\":\"final\",\"content\":\"line\\nbreak \\u00e9\"}");
    assert_eq!(relay.final_payload, Some("line\nbreak \u{e9}".to_string()));
    relay.stdout_line("{\"content\":\"\",\"type\":\"final\"}");
    assert_eq!(relay.final_payload, Some(String::new()));
}

#[test]
fn events_carry_the_callers_context() {
    let with_selection = CorrelationContext {
        meeting_id: "meeting".to_string(),
        selection_id: Some("selection".to_string()),
    };
    let mut relay = Relay::new(with_selection.clone());
    assert_eq!(
        relay.stdout_line("{}"),
        Some(SubprocessEvent::Delta { payload: "{}".to_string(), context: with_selection.clone() })
    );
    assert_eq!(
        relay.finish(None),
        vec![SubprocessEvent::Done { content: None, context: with_selection }]
    );
}

#[test]
fn stderr_lines_are_logged_as_they_are() {
    assert_eq!(stderr_event("{\"type\":\"final\",\"content\":\"x\"}"), log("{\"type\":\"final\",\"content\":\"x\"}"));
    assert_eq!(stderr_event("  spaced  "), log("  spaced  "));
    assert_eq!(stderr_event(""), log(""));
}

#[test]
fn spawn_failure_is_a_single_error() {
    assert_eq!(
        spawn_failure_event("No such file or directory (os error 2)"),
        SubprocessEvent::Error {
            message: "Failed to start Copilot SDK: No such file or directory (os error 2)"
                .to_string()
        }
    );
}

#[test]
fn announced_result_reads_only_final_objects() {
    assert_eq!(announced_result("{\"type\":\"final\",\"content\":\"S\"}"), Some("S".to_string()));
    assert_eq!(announced_result("{\"type\":\"log\",\"content\":\"S\"}"), None);
    assert_eq!(announced_result("final"), None);
    assert_eq!(announced_result(""), None);
}

#[test]
fn event_names_follow_the_stream() {
    assert_eq!(Stream::Summary.event_name(Channel::Log), "summary-log");
    assert_eq!(Stream::Summary.event_name(Channel::Delta), "summary-delta");
    assert_eq!(Stream::Summary.event_name(Channel::Error), "summary-error");
    assert_eq!(Stream::Summary.event_name(Channel::Done), "summary-done");
    assert_eq!(Stream::Enhance.event_name(Channel::Log), "summary-log");
    assert_eq!(Stream::Enhance.event_name(Channel::Delta), "enhance-delta");
    assert_eq!(Stream::Enhance.event_name(Channel::Error), "enhance-error");
    assert_eq!(Stream::Enhance.event_name(Channel::Done), "enhance-done");
    assert_eq!(Stream::CleanTranscript.event_name(Channel::Log), "summary-log");
    assert_eq!(Stream::CleanTranscript.event_name(Channel::Delta), "clean-transcript-delta");
    assert_eq!(Stream::CleanTranscript.event_name(Channel::Error), "clean-transcript-error");
    assert_eq!(Stream::CleanTranscript.event_name(Channel::Done), "clean-transcript-done");
    assert_eq!(Stream::Summary.result_field(), "summary");
    assert_eq!(Stream::Enhance.result_field(), "text");
    assert_eq!(Stream::CleanTranscript.result_field(), "text");
    assert_eq!(streaming_flag(), ("STREAMING", "1"));
}

fn reading(is_object: bool, kind: Option<&str>, content: Option<&str>) -> LineReading {
    LineReading {
        is_object,
        kind: kind.map(|s| s.to_string()),
        content: content.map(|s| s.to_string()),
    }
}

#[test]
fn lines_are_read_as_objects_with_type_and_content() {
    assert_eq!(
        read_line("{\"type\":\"final\",\"content\":\"S\"}"),
        reading(true, Some("final"), Some("S"))
    );
    assert_eq!(read_line("{\"type\":7,\"content\":\"S\"}"), reading(true, None, Some("S")));
    assert_eq!(read_line("{\"type\":\"log\"}"), reading(true, Some("log"), None));
    assert_eq!(read_line("{}"), reading(true, None, None));
    assert_eq!(read_line("[\"type\"]"), reading(false, None, None));
    assert_eq!(read_line("plain text"), reading(false, None, None));
    assert_eq!(read_line(""), reading(false, None, None));
}

#[test]
fn only_final_objects_with_text_content_announce_a_result() {
    assert_eq!(result_of(reading(true, Some("final"), Some("S"))), Some("S".to_string()));
    assert_eq!(result_of(reading(true, Some("final"), Some(""))), Some(String::new()));
    assert_eq!(result_of(reading(true, Some("final"), None)), None);
    assert_eq!(result_of(reading(true, Some("Final"), Some("S"))), None);
    assert_eq!(result_of(reading(true, None, Some("S"))), None);
    assert_eq!(result_of(reading(false, Some("final"), Some("S"))), None);
}

#[test]
fn accepted_readings_decide_event_and_final_payload() {
    let mut relay = Relay::new(context());
    assert_eq!(relay.accept("noise".to_string(), reading(false, None, None)), log("noise"));
    assert_eq!(relay.final_payload, None);
    assert_eq!(
        relay.accept("{a}".to_string(), reading(true, Some("final"), Some("one"))),
        SubprocessEvent::Final {
            content: "one".to_string(),
            payload: "{a}".to_string(),
            context: context(),
        }
    );
    assert_eq!(relay.final_payload, Some("one".to_string()));
    assert_eq!(relay.accept("{b}".to_string(), reading(true, Some("delta"), Some("x"))), delta("{b}"));
    assert_eq!(relay.accept("{c}".to_string(), reading(false, Some("final"), Some("y"))), log("{c}"));
    assert_eq!(relay.final_payload, Some("one".to_string()));
    relay.accept("{d}".to_string(), reading(true, Some("final"), Some("two")));
    assert_eq!(relay.final_payload, Some("two".to_string()));
}

#[test]
fn recorded_run_is_replayed_event_by_event() {
    let lines: Vec<String> = [
        "{\"type\":\"log\",\"msg\":\"x\"}",
        "",
        "plain text  ",
        "{\"type\":\"final\",\"content\":\"S\"}",
    ]
    .iter()
    .map(|s| s.to_string())
    .collect();
    let events = replay(context(), &lines, None);
    assert_eq!(
        events,
        vec![
            delta("{\"type\":\"log\",\"msg\":\"x\"}"),
            log("plain text"),
            SubprocessEvent::Final {
                content: "S".to_string(),
                payload: "{\"type\":\"final\",\"content\":\"S\"}".to_string(),
                context: context(),
            },
            SubprocessEvent::Done { content: Some("S".to_string()), context: context() },
        ]
    );
    let failed = replay(context(), &Vec::new(), Some("bad key"));
    assert_eq!(
        failed,
        vec![
            SubprocessEvent::Error { message: "Copilot SDK failed: bad key".to_string() },
            SubprocessEvent::Done { content: None, context: context() },
        ]
    );
    for events in [events, failed] {
        let done = events.iter().filter(|e| e.channel() == Channel::Done).count();
        assert_eq!(done, 1);
        assert_eq!(events.last().map(|e| e.channel()), Some(Channel::Done));
    }
}
