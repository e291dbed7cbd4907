use cef_unity::begin_frame::{
    BeginFrame, FrameFacts, FrameSchedule, DAMAGE_STREAK_SUPPRESS_FLUSH, SUPPRESSION_RETRY_FRAMES,
};

const FRAME: BeginFrame = BeginFrame { browser_id: 1, unity_frame: 1 };

fn facts(paint_count: u64) -> FrameFacts {
    FrameFacts {
        gate_open: true,
        paint_count,
        now_nanoseconds: 0,
        server_flush_enabled: true,
        streak_cooldown_enabled: true,
    }
}

/// Begin frames while the page paints once per frame; returns the paint counter.
fn paint_continuously(schedule: &mut FrameSchedule, from: u64, frames: u64) -> u64 {
    for paint_count in from + 1..=from + frames {
        assert!(schedule.send_external_begin_frame(FRAME, facts(paint_count), true));
    }
    from + frames
}

#[test]
fn continuous_painting_suppresses_flushes() {
    let mut schedule = FrameSchedule::new();
    paint_continuously(&mut schedule, 0, DAMAGE_STREAK_SUPPRESS_FLUSH as u64 - 1);
    assert!(schedule.pending_flush.is_some());
    assert!(!schedule.last_begin_frame_1_suppressed);
    let mut schedule = FrameSchedule::new();
    paint_continuously(&mut schedule, 0, DAMAGE_STREAK_SUPPRESS_FLUSH as u64);
    assert!(schedule.pending_flush.is_none());
    assert!(schedule.last_begin_frame_1_suppressed);
}

#[test]
fn isolated_input_is_flushed() {
    let mut schedule = FrameSchedule::new();
    schedule.send_external_begin_frame(FRAME, facts(0), true);
    schedule.send_external_begin_frame(FRAME, facts(1), true);
    assert!(schedule.pending_flush.is_some());
    schedule.send_external_begin_frame(FRAME, facts(1), true);
    assert_eq!(schedule.damage_streak, 0);
    assert!(schedule.pending_flush.is_some());
}

#[test]
fn failed_trial_is_not_repeated_for_a_while() {
    let mut schedule = FrameSchedule::new();
    let painted = paint_continuously(&mut schedule, 0, 3);
    assert!(schedule.last_begin_frame_1_suppressed);
    schedule.send_external_begin_frame(FRAME, facts(painted), true);
    assert_eq!(schedule.suppression_cooldown, SUPPRESSION_RETRY_FRAMES);
    assert!(schedule.pending_flush.is_some());
    let painted =
        paint_continuously(&mut schedule, painted, SUPPRESSION_RETRY_FRAMES as u64 - 1);
    assert_eq!(schedule.suppression_cooldown, 1);
    assert!(schedule.pending_flush.is_some());
    paint_continuously(&mut schedule, painted, 1);
    assert_eq!(schedule.suppression_cooldown, 0);
    assert!(schedule.pending_flush.is_none());
}

#[test]
fn trials_go_on_without_the_cooldown() {
    let mut schedule = FrameSchedule::new();
    let painted = paint_continuously(&mut schedule, 0, 3);
    let mut now = facts(painted);
    now.streak_cooldown_enabled = false;
    schedule.send_external_begin_frame(FRAME, now, true);
    assert_eq!(schedule.suppression_cooldown, 0);
}

#[test]
fn newest_waiting_begin_frame_wins() {
    let mut schedule = FrameSchedule::new();
    let mut closed = facts(0);
    closed.gate_open = false;
    assert!(!schedule.send_external_begin_frame(FRAME, closed, true));
    let newer = BeginFrame { browser_id: 1, unity_frame: 2 };
    assert!(!schedule.send_external_begin_frame(newer, closed, true));
    assert_eq!(schedule.deferred_begin_frame, Some(newer));
    assert_eq!(schedule.process_pending_flushes(facts(0), true, true, true), Some(newer));
    assert_eq!(schedule.deferred_begin_frame, None);
}

#[test]
fn waiting_begin_frame_of_a_closed_browser_is_dropped() {
    let mut schedule = FrameSchedule::new();
    let mut closed = facts(0);
    closed.gate_open = false;
    schedule.send_external_begin_frame(FRAME, closed, true);
    assert_eq!(schedule.process_pending_flushes(facts(0), false, true, true), None);
    assert_eq!(schedule.deferred_begin_frame, None);
}

#[test]
fn nothing_is_flushed_where_flushes_are_off() {
    let mut schedule = FrameSchedule::new();
    let mut now = facts(0);
    now.server_flush_enabled = false;
    assert!(schedule.send_external_begin_frame(FRAME, now, true));
    assert!(schedule.pending_flush.is_none());
    assert!(!schedule.send_external_begin_frame(FRAME, facts(0), false));
    assert!(schedule.pending_flush.is_none());
}

#[test]
fn flush_is_skipped_but_counted_while_a_copy_runs() {
    let mut schedule = FrameSchedule::new();
    schedule.send_external_begin_frame(FRAME, facts(0), true);
    let mut later = facts(0);
    later.now_nanoseconds = 3_000_000;
    later.gate_open = false;
    assert_eq!(schedule.process_pending_flushes(later, true, true, true), None);
    assert_eq!(schedule.pending_flush.unwrap().flushes_done, 1);
}
