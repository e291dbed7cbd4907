use cef_unity::scroll_monitor::{
    handle_retrieved_message, is_counted, wheel_delta, ScrollEventBuffer, ScrollMonitor,
    SCROLL_EVENT_CAPACITY, WHEEL_DELTA, WM_MOUSEHWHEEL, WM_MOUSEWHEEL,
};

#[derive(Clone, Copy)]
struct ScrollEvent {
    timestamp: f64,
    delta_y: f32,
}

fn event(timestamp: f64, delta_y: f32) -> ScrollEvent {
    ScrollEvent { timestamp, delta_y }
}

fn empty_destination(length: usize) -> Vec<ScrollEvent> {
    vec![event(0.0, 0.0); length]
}

fn wheel_notches(parameter: usize) -> f32 {
    wheel_delta(parameter) as f32 / WHEEL_DELTA as f32
}

fn make_wheel_parameter(delta: i16) -> usize {
    ((delta as u16 as usize) << 16) & 0xFFFF_0000
}

#[test]
fn drains_in_fifo_order_and_empties() {
    let mut buffer = ScrollEventBuffer::new();
    buffer.push(event(1.0, 1.0));
    buffer.push(event(2.0, -2.0));

    let mut destination = empty_destination(8);
    let count = buffer.drain_into(&mut destination);

    assert_eq!(count, 2);
    assert_eq!(destination[0].timestamp, 1.0);
    assert_eq!(destination[1].delta_y, -2.0);
    assert_eq!(buffer.drain_into(&mut destination), 0);
}

#[test]
fn drops_oldest_when_capacity_exceeded() {
    let mut buffer = ScrollEventBuffer::new();
    for index in 0..(SCROLL_EVENT_CAPACITY + 2) {
        buffer.push(event(index as f64, 1.0));
    }
    let mut destination = empty_destination(SCROLL_EVENT_CAPACITY);
    let count = buffer.drain_into(&mut destination);

    assert_eq!(count, SCROLL_EVENT_CAPACITY);
    assert_eq!(destination[0].timestamp, 2.0);
}

#[test]
fn drain_respects_destination_length() {
    let mut buffer = ScrollEventBuffer::new();
    for index in 0..5 {
        buffer.push(event(index as f64, 1.0));
    }
    let mut destination = empty_destination(2);
    assert_eq!(buffer.drain_into(&mut destination), 2);

    let mut rest = empty_destination(8);
    assert_eq!(buffer.drain_into(&mut rest), 3);
    assert_eq!(rest[0].timestamp, 2.0);
}

#[test]
fn clear_forgets_everything() {
    let mut buffer = ScrollEventBuffer::new();
    buffer.push(event(1.0, 1.0));
    buffer.clear();
    assert_eq!(buffer.drain_into(&mut empty_destination(1)), 0);
}

#[test]
fn wheel_parameter_converts_to_notches() {
    assert_eq!(wheel_notches(make_wheel_parameter(120)), 1.0);
    assert_eq!(wheel_notches(make_wheel_parameter(-240)), -2.0);
    assert_eq!(wheel_notches(make_wheel_parameter(60)), 0.5);
}

#[test]
fn wheel_parameter_ignores_low_word_key_flags() {
    let with_key_flags = make_wheel_parameter(120) | 0x0008; // MK_CONTROL
    assert_eq!(wheel_notches(with_key_flags), 1.0);
}

#[test]
fn only_wheel_messages_count() {
    let parameter = make_wheel_parameter(-240);
    assert_eq!(handle_retrieved_message(WM_MOUSEWHEEL, parameter), Some((0, -240)));
    assert_eq!(handle_retrieved_message(WM_MOUSEHWHEEL, parameter), Some((-240, 0)));
    assert_eq!(handle_retrieved_message(0x8000, parameter), None);
    assert_eq!(wheel_delta(make_wheel_parameter(i16::MIN)), i16::MIN);
    assert_eq!(wheel_delta(make_wheel_parameter(i16::MAX)), i16::MAX);
}

#[test]
fn monitor_installs_one_hook() {
    let mut monitor = ScrollMonitor::new();
    assert_eq!(monitor.stop(), None);
    assert!(monitor.start());
    assert_eq!(monitor.installed(None), 0);
    assert!(monitor.start());
    assert_eq!(monitor.installed(Some(5)), 1);
    monitor.events.push(event(1.0, 1.0));
    assert!(!monitor.start());
    assert_eq!(monitor.events.drain_into(&mut empty_destination(2)), 1);
    monitor.events.push(event(2.0, 1.0));
    assert_eq!(monitor.stop(), Some(5));
    assert_eq!(monitor.events.drain_into(&mut empty_destination(2)), 0);
    assert!(monitor.start());
}

#[test]
fn peeked_messages_are_not_counted() {
    assert!(is_counted(0, true, true));
    assert!(!is_counted(0, false, true));
    assert!(!is_counted(-1, true, true));
    assert!(!is_counted(0, true, false));
}
