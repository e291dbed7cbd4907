use cef_unity::log_buffer::{LogBuffer, MAX_LOG_ENTRIES};
use cef_unity::logging::{is_enabled, set_enabled, ClientLog, LineAction};

#[test]
fn enabled_flag_round_trips() {
    let mut log = ClientLog::new();
    set_enabled(&mut log, false);
    assert!(!is_enabled(&log));
    set_enabled(&mut log, true);
    assert!(is_enabled(&log));
    set_enabled(&mut log, false);
    assert!(!is_enabled(&log));
}

#[test]
fn write_while_disabled_does_not_open_the_file() {
    let mut log = ClientLog::new();
    set_enabled(&mut log, false);
    assert_eq!(cef_unity::logging::write(&mut log, "d3d11", true), LineAction::Skip);
    assert!(!log.file_open);
}

#[test]
fn file_is_opened_once() {
    let mut log = ClientLog::new();
    set_enabled(&mut log, true);
    assert_eq!(cef_unity::logging::write(&mut log, "", false), LineAction::Skip);
    assert!(!log.file_open);
    assert_eq!(
        cef_unity::logging::write(&mut log, "", true),
        LineAction::Write { open_first: true, with_time: true }
    );
    assert_eq!(
        cef_unity::logging::write(&mut log, "wasapi", true),
        LineAction::Write { open_first: false, with_time: false }
    );
    set_enabled(&mut log, false);
    assert!(!log.file_open);
}

#[test]
fn messages_are_kept_only_while_logging_is_on() {
    let mut buffer = LogBuffer::new();
    assert!(!buffer.is_enabled());
    buffer.log("lost");
    buffer.set_logging(true);
    assert!(buffer.is_enabled());
    buffer.log("one");
    buffer.log("two");
    assert_eq!(buffer.drain_logs(), vec!["one".to_string(), "two".to_string()]);
    assert!(buffer.drain_logs().is_empty());
}

#[test]
fn oldest_messages_make_room() {
    let mut buffer = LogBuffer::new();
    buffer.set_logging(true);
    for number in 0..MAX_LOG_ENTRIES + 3 {
        buffer.log(&number.to_string());
    }
    let entries = buffer.drain_logs();
    assert_eq!(entries.len(), MAX_LOG_ENTRIES);
    assert_eq!(entries[0], "3");
    assert_eq!(entries[MAX_LOG_ENTRIES - 1], "1002");
}
