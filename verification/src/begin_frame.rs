//! When the browser is told to draw: external begin frames and the flushes that follow them.
//!
//! The client asks for one begin frame per engine frame. The server issues it and, a few
//! milliseconds later, up to two more ("flushes"), so that the content produced for the first is
//! on screen within the same engine frame. While a page paints on every frame the flushes only
//! double the work, so they are suppressed; if a suppressed frame then brings no paint, the trial
//! has failed and suppression is not tried again for a while.
use vstd::prelude::*;

verus! {

/// How long after a begin frame the two flushes fall due, in nanoseconds.
pub const FIRST_FLUSH_NANOSECONDS: u64 = 3_000_000;

/// See `FIRST_FLUSH_NANOSECONDS`.
pub const SECOND_FLUSH_NANOSECONDS: u64 = 6_000_000;

/// The number of flushes that follow one begin frame at most.
pub const FLUSH_COUNT: u32 = 2;

/// So many frames in a row with a paint make a page count as continuously painting.
pub const DAMAGE_STREAK_SUPPRESS_FLUSH: u32 = 3;

/// So many frames pass after a failed trial before suppression is tried again.
pub const SUPPRESSION_RETRY_FRAMES: u32 = 60;

/// A begin frame whose flushes are still due.
#[derive(Clone, Copy, Debug, PartialEq, Eq, Structural)]
pub struct PendingFlush {
    pub browser_id: u32,
    pub unity_frame: u64,
    /// When the begin frame was issued.
    pub begin_frame_1: u64,
    /// The flushes that have come due so far.
    pub flushes_done: u32,
    /// The paint counter when the begin frame was issued.
    pub paints_at_begin_frame_1: u64,
}

/// A begin frame: for which browser, and for which frame of the engine.
#[derive(Clone, Copy, Debug, PartialEq, Eq, Structural)]
pub struct BeginFrame {
    pub browser_id: u32,
    pub unity_frame: u64,
}

/// What the schedule has to know of the moment at which it decides.
#[derive(Clone, Copy, Debug, PartialEq, Eq, Structural)]
pub struct FrameFacts {
    /// Whether no earlier frame is still being copied.
    pub gate_open: bool,
    /// The number of paints so far.
    pub paint_count: u64,
    pub now_nanoseconds: u64,
    pub server_flush_enabled: bool,
    pub streak_cooldown_enabled: bool,
}

/// The state that decides about begin frames and flushes.
#[derive(Clone, Copy, Debug, PartialEq, Eq, Structural)]
pub struct FrameSchedule {
    pub pending_flush: Option<PendingFlush>,
    /// The paint counter at the last begin frame.
    pub paints_at_last_begin_frame_1: u64,
    /// The number of frames in a row that brought a paint.
    pub damage_streak: u32,
    /// Whether the flushes of the last begin frame were suppressed.
    pub last_begin_frame_1_suppressed: bool,
    /// The frames left until suppression may be tried again.
    pub suppression_cooldown: u32,
    /// A begin frame that waits until it may be issued.
    pub deferred_begin_frame: Option<BeginFrame>,
    /// How often a begin frame had to wait since the counter was last taken.
    pub deferred_count: u64,
    /// When the last begin frame or flush was issued; 0 before the first.
    pub last_begin_frame_nanoseconds: u64,
    /// The engine frame of the last begin frame or flush.
    pub last_begin_frame_unity_frame: u64,
}

/// A begin frame that is asked for, and under which circumstances.
pub struct Asked {
    pub frame: BeginFrame,
    pub facts: FrameFacts,
    /// Whether the browser can be told.
    pub host: bool,
}

/// A turn of the event loop in which no begin frame waits.
pub struct FlushTurn {
    pub facts: FrameFacts,
    /// Whether the browser of the pending flush can be told.
    pub host: bool,
}

/// Whether a begin frame that is asked for is issued at once.
pub open spec fn goes_out(facts: FrameFacts, host: bool) -> bool {
    facts.gate_open && host
}

/// When the flush of the given index falls due, counted from the begin frame.
pub open spec fn flush_threshold(index: u32) -> u64 {
    if index == 0 {
        FIRST_FLUSH_NANOSECONDS
    } else {
        SECOND_FLUSH_NANOSECONDS
    }
}

/// `count + 1`, starting over at zero.
pub open spec fn wrapping_next(count: u64) -> u64 {
    if count == u64::MAX {
        0
    } else {
        (count + 1) as u64
    }
}

/// How far a counter that starts over at zero has come from `start` to `end`.
pub open spec fn counter_distance(start: u64, end: u64) -> int {
    if start <= end {
        end - start
    } else {
        end - start + 0x1_0000_0000_0000_0000
    }
}

impl PendingFlush {
    /// Whether the next flush has fallen due.
    pub open spec fn due(self, now_nanoseconds: u64) -> bool {
        now_nanoseconds - self.begin_frame_1 >= flush_threshold(self.flushes_done)
    }

    /// Whether the browser has painted twice since the begin frame, so that its newest content is
    /// out already.
    pub open spec fn delivered(self, paint_count: u64) -> bool {
        counter_distance(self.paints_at_begin_frame_1, paint_count) >= 2
    }
}

impl FrameSchedule {
    /// What holds between any two operations.
    pub open spec fn well_formed(self) -> bool {
        &&& self.suppression_cooldown <= SUPPRESSION_RETRY_FRAMES
        &&& self.pending_flush matches Some(pending) ==> pending.flushes_done < FLUSH_COUNT
    }

    /// Whether a paint has come since the last begin frame.
    pub open spec fn painted(self, paint_count: u64) -> bool {
        paint_count > self.paints_at_last_begin_frame_1
    }

    /// The streak once the next begin frame goes out.
    pub open spec fn next_streak(self, paint_count: u64) -> u32 {
        if !self.painted(paint_count) {
            0
        } else if self.damage_streak == u32::MAX {
            u32::MAX
        } else {
            (self.damage_streak + 1) as u32
        }
    }

    /// Whether the last begin frame was a failed trial: suppressed, and no paint came.
    pub open spec fn trial_failed(self, facts: FrameFacts) -> bool {
        &&& self.last_begin_frame_1_suppressed
        &&& !self.painted(facts.paint_count)
        &&& facts.streak_cooldown_enabled
    }

    /// The cooldown once the next begin frame goes out.
    pub open spec fn next_cooldown(self, facts: FrameFacts) -> u32 {
        if self.trial_failed(facts) {
            SUPPRESSION_RETRY_FRAMES
        } else if self.suppression_cooldown > 0 {
            (self.suppression_cooldown - 1) as u32
        } else {
            0
        }
    }

    /// Whether the next begin frame goes out without flushes because the page keeps painting.
    pub open spec fn suppresses(self, facts: FrameFacts) -> bool {
        &&& self.next_streak(facts.paint_count) >= DAMAGE_STREAK_SUPPRESS_FLUSH
        &&& self.next_cooldown(facts) == 0
    }

    /// The schedule with a begin frame recorded as issued.
    pub open spec fn recorded(self, unity_frame: u64, now_nanoseconds: u64) -> FrameSchedule {
        FrameSchedule {
            last_begin_frame_nanoseconds: now_nanoseconds,
            last_begin_frame_unity_frame: unity_frame,
            ..self
        }
    }

    /// The schedule after a begin frame was asked for; `host` says whether the browser can be told.
    pub open spec fn sent(
        self,
        frame: BeginFrame,
        facts: FrameFacts,
        host: bool,
    ) -> FrameSchedule {
        if !facts.gate_open {
            FrameSchedule {
                deferred_begin_frame: Some(frame),
                deferred_count: wrapping_next(self.deferred_count),
                ..self
            }
        } else {
            FrameSchedule {
                pending_flush: if host && facts.server_flush_enabled && !self.suppresses(facts) {
                    Some(
                        PendingFlush {
                            browser_id: frame.browser_id,
                            unity_frame: frame.unity_frame,
                            begin_frame_1: facts.now_nanoseconds,
                            flushes_done: 0,
                            paints_at_begin_frame_1: facts.paint_count,
                        },
                    )
                } else {
                    None
                },
                paints_at_last_begin_frame_1: facts.paint_count,
                damage_streak: self.next_streak(facts.paint_count),
                last_begin_frame_1_suppressed: self.suppresses(facts) && facts.server_flush_enabled,
                suppression_cooldown: self.next_cooldown(facts),
                deferred_begin_frame: None,
                deferred_count: self.deferred_count,
                last_begin_frame_nanoseconds: if host {
                    facts.now_nanoseconds
                } else {
                    self.last_begin_frame_nanoseconds
                },
                last_begin_frame_unity_frame: if host {
                    frame.unity_frame
                } else {
                    self.last_begin_frame_unity_frame
                },
            }
        }
    }

    /// The schedule after the pending flush was looked at, and the flush to issue, if any.
    pub open spec fn flushed(self, facts: FrameFacts, host: bool) -> (
        FrameSchedule,
        Option<BeginFrame>,
    ) {
        match self.pending_flush {
            None => (self, None),
            Some(pending) => if pending.flushes_done >= FLUSH_COUNT || pending.delivered(
                facts.paint_count,
            ) {
                (FrameSchedule { pending_flush: None, ..self }, None)
            } else if !pending.due(facts.now_nanoseconds) {
                (self, None)
            } else {
                let counted = FrameSchedule {
                    pending_flush: if pending.flushes_done + 1 >= FLUSH_COUNT {
                        None
                    } else {
                        Some(
                            PendingFlush { flushes_done: (pending.flushes_done + 1) as u32, ..pending },
                        )
                    },
                    ..self
                };
                if facts.gate_open && host {
                    (
                        counted.recorded(pending.unity_frame, facts.now_nanoseconds),
                        Some(
                            BeginFrame {
                                browser_id: pending.browser_id,
                                unity_frame: pending.unity_frame,
                            },
                        ),
                    )
                } else {
                    (counted, None)
                }
            },
        }
    }

    /// The schedule after one turn of the event loop, and the begin frame to issue, if any.
    /// `deferred_known` says whether the browser of the waiting begin frame still exists,
    /// `deferred_host` and `pending_host` whether the browser of the waiting begin frame and that
    /// of the pending flush can be told.
    pub open spec fn processed(
        self,
        facts: FrameFacts,
        deferred_known: bool,
        deferred_host: bool,
        pending_host: bool,
    ) -> (FrameSchedule, Option<BeginFrame>) {
        match self.deferred_begin_frame {
            Some(frame) if facts.gate_open => if deferred_known {
                let host = deferred_host;
                (self.sent(frame, facts, host), if host { Some(frame) } else { None })
            } else {
                FrameSchedule { deferred_begin_frame: None, ..self }.flushed(facts, pending_host)
            },
            _ => self.flushed(facts, pending_host),
        }
    }

    /// The schedule after begin frames were asked for in turn.
    pub open spec fn sent_all(self, asked: Seq<Asked>) -> FrameSchedule
        decreases asked.len(),
    {
        if asked.len() == 0 {
            self
        } else {
            let last = asked.last();
            self.sent_all(asked.drop_last()).sent(last.frame, last.facts, last.host)
        }
    }

    /// The schedule after some turns of the event loop in which no begin frame waited, and how many
    /// flushes were issued in them.
    pub open spec fn flushed_all(self, turns: Seq<FlushTurn>) -> (FrameSchedule, nat)
        decreases turns.len(),
    {
        if turns.len() == 0 {
            (self, 0)
        } else {
            let (before, count) = self.flushed_all(turns.drop_last());
            let (after, issued) = before.flushed(turns.last().facts, turns.last().host);
            (
                after,
                if issued is Some {
                    count + 1
                } else {
                    count
                },
            )
        }
    }

    /// How many flushes are still to come at most.
    pub open spec fn flushes_left(self) -> int {
        match self.pending_flush {
            Some(pending) => FLUSH_COUNT - pending.flushes_done,
            None => 0,
        }
    }

    /// A schedule before the first begin frame.
    pub open spec fn unused() -> FrameSchedule {
        FrameSchedule {
            pending_flush: None,
            paints_at_last_begin_frame_1: 0,
            damage_streak: 0,
            last_begin_frame_1_suppressed: false,
            suppression_cooldown: 0,
            deferred_begin_frame: None,
            deferred_count: 0,
            last_begin_frame_nanoseconds: 0,
            last_begin_frame_unity_frame: 0,
        }
    }

    /// A schedule before the first begin frame.
    pub fn new() -> (schedule: FrameSchedule)
        ensures
            schedule.well_formed(),
            schedule == FrameSchedule::unused(),
    {
        FrameSchedule {
            pending_flush: None,
            paints_at_last_begin_frame_1: 0,
            damage_streak: 0,
            last_begin_frame_1_suppressed: false,
            suppression_cooldown: 0,
            deferred_begin_frame: None,
            deferred_count: 0,
            last_begin_frame_nanoseconds: 0,
            last_begin_frame_unity_frame: 0,
        }
    }

    /// Asks for a begin frame. The result says whether it is to be issued now.
    pub fn send_external_begin_frame(
        &mut self,
        frame: BeginFrame,
        facts: FrameFacts,
        host: bool,
    ) -> (issued: bool)
        ensures
            *final(self) == old(self).sent(frame, facts, host),
            issued == goes_out(facts, host),
            old(self).well_formed() ==> final(self).well_formed(),
    {
        if !facts.gate_open {
            self.deferred_begin_frame = Some(frame);
            self.deferred_count = if self.deferred_count == u64::MAX {
                0
            } else {
                self.deferred_count + 1
            };
            return false;
        }
        self.deferred_begin_frame = None;
        let painted_last_frame: bool = facts.paint_count > self.paints_at_last_begin_frame_1;
        self.paints_at_last_begin_frame_1 = facts.paint_count;
        self.damage_streak = if painted_last_frame {
            self.damage_streak.saturating_add(1)
        } else {
            0
        };
        if self.last_begin_frame_1_suppressed && !painted_last_frame
            && facts.streak_cooldown_enabled {
            self.suppression_cooldown = SUPPRESSION_RETRY_FRAMES;
        } else if self.suppression_cooldown > 0 {
            self.suppression_cooldown = self.suppression_cooldown - 1;
        }
        let suppress: bool = self.damage_streak >= DAMAGE_STREAK_SUPPRESS_FLUSH
            && self.suppression_cooldown == 0;
        self.last_begin_frame_1_suppressed = suppress && facts.server_flush_enabled;
        if host {
            self.record(frame.unity_frame, facts.now_nanoseconds);
        }
        self.pending_flush = if host && facts.server_flush_enabled && !suppress {
            Some(
                PendingFlush {
                    browser_id: frame.browser_id,
                    unity_frame: frame.unity_frame,
                    begin_frame_1: facts.now_nanoseconds,
                    flushes_done: 0,
                    paints_at_begin_frame_1: facts.paint_count,
                },
            )
        } else {
            None
        };
        host
    }

    /// One turn of the event loop: issues a begin frame that had to wait, or else a flush
    /// that has fallen due.
    pub fn process_pending_flushes(
        &mut self,
        facts: FrameFacts,
        deferred_known: bool,
        deferred_host: bool,
        pending_host: bool,
    ) -> (issued: Option<BeginFrame>)
        ensures
            (*final(self), issued) == old(self).processed(
                facts,
                deferred_known,
                deferred_host,
                pending_host,
            ),
            old(self).well_formed() ==> final(self).well_formed(),
    {
        if facts.gate_open {
            if let Some(frame) = self.deferred_begin_frame {
                self.deferred_begin_frame = None;
                if deferred_known {
                    let issued: bool = self.send_external_begin_frame(frame, facts, deferred_host);
                    return if issued {
                        Some(frame)
                    } else {
                        None
                    };
                }
            }
        }
        self.flush(facts, pending_host)
    }

    /// Looks at the pending flush and issues it if it has fallen due and is still worth issuing.
    fn flush(&mut self, facts: FrameFacts, host: bool) -> (issued: Option<BeginFrame>)
        ensures
            (*final(self), issued) == old(self).flushed(facts, host),
            old(self).well_formed() ==> final(self).well_formed(),
    {
        let mut pending: PendingFlush = match self.pending_flush {
            Some(pending) => pending,
            None => {
                return None;
            },
        };
        let paints: u64 = facts.paint_count.wrapping_sub(pending.paints_at_begin_frame_1);
        if pending.flushes_done >= FLUSH_COUNT || paints >= 2 {
            self.pending_flush = None;
            return None;
        }
        let elapsed: u64 = facts.now_nanoseconds.saturating_sub(pending.begin_frame_1);
        let threshold: u64 = if pending.flushes_done == 0 {
            FIRST_FLUSH_NANOSECONDS
        } else {
            SECOND_FLUSH_NANOSECONDS
        };
        if elapsed < threshold {
            return None;
        }
        pending.flushes_done = pending.flushes_done + 1;
        self.pending_flush = if pending.flushes_done >= FLUSH_COUNT {
            None
        } else {
            Some(pending)
        };
        if facts.gate_open && host {
            self.record(pending.unity_frame, facts.now_nanoseconds);
            Some(BeginFrame { browser_id: pending.browser_id, unity_frame: pending.unity_frame })
        } else {
            None
        }
    }

    /// Records that a begin frame was issued.
    fn record(&mut self, unity_frame: u64, now_nanoseconds: u64)
        ensures
            *final(self) == old(self).recorded(unity_frame, now_nanoseconds),
    {
        self.last_begin_frame_nanoseconds = now_nanoseconds;
        self.last_begin_frame_unity_frame = unity_frame;
    }

    /// Takes the count of begin frames that had to wait, and starts it over.
    pub fn take_deferred_count(&mut self) -> (count: u64)
        ensures
            count == old(self).deferred_count,
            *final(self) == (FrameSchedule { deferred_count: 0, ..*old(self) }),
    {
        let count: u64 = self.deferred_count;
        self.deferred_count = 0;
        count
    }
}

/// Nothing is issued while an earlier frame is still being copied, neither a begin frame that is
/// asked for nor anything that waits.
pub proof fn law_closed_gate_issues_nothing(
    schedule: FrameSchedule,
    frame: BeginFrame,
    facts: FrameFacts,
    deferred_known: bool,
    deferred_host: bool,
    pending_host: bool,
)
    requires
        !facts.gate_open,
    ensures
        schedule.sent(frame, facts, deferred_host).pending_flush == schedule.pending_flush,
        schedule.sent(frame, facts, deferred_host).deferred_begin_frame == Some(frame),
        schedule.processed(facts, deferred_known, deferred_host, pending_host).1 is None,
{
}

/// A begin frame that is asked for while another one waits takes its place.
pub proof fn law_newest_deferred_frame_wins(
    schedule: FrameSchedule,
    first: BeginFrame,
    second: BeginFrame,
    facts: FrameFacts,
    later: FrameFacts,
    host: bool,
)
    requires
        !facts.gate_open,
        !later.gate_open,
    ensures
        schedule.sent(first, facts, host).sent(second, later, host).deferred_begin_frame == Some(
            second,
        ),
{
}

/// A begin frame that comes after a frame without a paint is always followed by its flushes.
pub proof fn law_isolated_input_is_flushed(
    schedule: FrameSchedule,
    frame: BeginFrame,
    facts: FrameFacts,
)
    requires
        facts.gate_open,
        facts.server_flush_enabled,
        !schedule.painted(facts.paint_count),
    ensures
        schedule.sent(frame, facts, true).pending_flush is Some,
{
}

/// After a failed trial suppression is not tried for the frames of the cooldown: whatever comes,
/// none of them goes out without its flushes.
pub proof fn law_no_trial_during_cooldown(
    schedule: FrameSchedule,
    failed: Asked,
    between: Seq<Asked>,
    next: Asked,
)
    requires
        failed.facts.gate_open,
        schedule.trial_failed(failed.facts),
        between.len() + 1 < SUPPRESSION_RETRY_FRAMES,
        next.facts.gate_open,
        next.facts.server_flush_enabled,
        next.host,
    ensures
        schedule.sent(failed.frame, failed.facts, failed.host).sent_all(between).sent(
            next.frame,
            next.facts,
            next.host,
        ).pending_flush is Some,
{
    lemma_cooldown_counts_down(
        schedule.sent(failed.frame, failed.facts, failed.host),
        between,
    );
}

/// Within a run no longer than the cooldown, the cooldown falls by at most one per begin frame.
proof fn lemma_cooldown_counts_down(schedule: FrameSchedule, asked: Seq<Asked>)
    requires
        schedule.suppression_cooldown == SUPPRESSION_RETRY_FRAMES,
        asked.len() <= SUPPRESSION_RETRY_FRAMES,
    ensures
        schedule.sent_all(asked).suppression_cooldown >= SUPPRESSION_RETRY_FRAMES - asked.len(),
    decreases asked.len(),
{
    if asked.len() > 0 {
        lemma_cooldown_counts_down(schedule, asked.drop_last());
    }
}

/// Whether every one of the begin frames goes out at once, and finds that the page has painted
/// since the one before it; `paints` is the paint counter at the begin frame before the first.
pub open spec fn keeps_painting(asked: Seq<Asked>, paints: u64) -> bool {
    forall|i: int|
        0 <= i < asked.len() ==> (#[trigger] asked[i]).facts.gate_open && asked[i].facts.paint_count
            > if i == 0 {
            paints
        } else {
            asked[i - 1].facts.paint_count
        }
}

/// While a page paints on every frame, no begin frame is followed by flushes once there were enough
/// of them in a row; and no cooldown interrupts that.
pub proof fn law_page_that_keeps_painting_is_not_flushed(
    schedule: FrameSchedule,
    asked: Seq<Asked>,
)
    requires
        schedule.suppression_cooldown == 0,
        asked.len() + schedule.damage_streak >= DAMAGE_STREAK_SUPPRESS_FLUSH,
        asked.len() > 0,
        keeps_painting(asked, schedule.paints_at_last_begin_frame_1),
    ensures
        schedule.sent_all(asked).pending_flush is None,
        schedule.sent_all(asked).suppression_cooldown == 0,
{
    lemma_streak_grows(schedule, asked.drop_last());
    let before = schedule.sent_all(asked.drop_last());
    assert(asked.last().facts.gate_open);
    assert(before.painted(asked.last().facts.paint_count));
}

/// While a page paints on every frame, the streak grows with every begin frame.
proof fn lemma_streak_grows(schedule: FrameSchedule, asked: Seq<Asked>)
    requires
        schedule.suppression_cooldown == 0,
        keeps_painting(asked, schedule.paints_at_last_begin_frame_1),
    ensures
        schedule.sent_all(asked).suppression_cooldown == 0,
        schedule.sent_all(asked).damage_streak == if schedule.damage_streak + asked.len()
            < u32::MAX {
            schedule.damage_streak + asked.len()
        } else {
            u32::MAX as int
        },
        schedule.sent_all(asked).paints_at_last_begin_frame_1 == if asked.len() == 0 {
            schedule.paints_at_last_begin_frame_1
        } else {
            asked.last().facts.paint_count
        },
    decreases asked.len(),
{
    if asked.len() > 0 {
        let shorter = asked.drop_last();
        assert forall|i: int| 0 <= i < shorter.len() implies (
        #[trigger] shorter[i]).facts.gate_open && shorter[i].facts.paint_count > if i == 0 {
            schedule.paints_at_last_begin_frame_1
        } else {
            shorter[i - 1].facts.paint_count
        } by {
            assert(shorter[i] == asked[i]);
        }
        lemma_streak_grows(schedule, shorter);
        assert(asked[asked.len() - 1].facts.gate_open);
        assert(asked.last() == asked[asked.len() - 1]);
    }
}

/// One begin frame is followed by at most two flushes, however long and under whatever
/// circumstances the event loop turns.
pub proof fn law_at_most_two_flushes(schedule: FrameSchedule, asked: Asked, turns: Seq<FlushTurn>)
    requires
        asked.facts.gate_open,
    ensures
        schedule.sent(asked.frame, asked.facts, asked.host).flushed_all(turns).1 <= FLUSH_COUNT,
{
    let sent = schedule.sent(asked.frame, asked.facts, asked.host);
    lemma_flushes_are_used_up(sent, turns);
}

/// Every flush that is issued is one of those that were left.
proof fn lemma_flushes_are_used_up(schedule: FrameSchedule, turns: Seq<FlushTurn>)
    requires
        schedule.flushes_left() >= 0,
    ensures
        schedule.flushed_all(turns).0.flushes_left() >= 0,
        schedule.flushed_all(turns).1 + schedule.flushed_all(turns).0.flushes_left()
            <= schedule.flushes_left(),
    decreases turns.len(),
{
    if turns.len() > 0 {
        lemma_flushes_are_used_up(schedule, turns.drop_last());
    }
}

/// A flush is never early, and never comes once the browser has painted twice since the begin
/// frame.
pub proof fn law_flush_is_due_and_needed(
    schedule: FrameSchedule,
    facts: FrameFacts,
    host: bool,
)
    requires
        schedule.flushed(facts, host).1 is Some,
    ensures
        schedule.pending_flush matches Some(pending) && facts.now_nanoseconds
            - pending.begin_frame_1 >= FIRST_FLUSH_NANOSECONDS && counter_distance(
            pending.paints_at_begin_frame_1,
            facts.paint_count,
        ) < 2,
{
}

/// A flush that has fallen due is issued, for the browser and the engine frame of its begin frame,
/// whenever no frame is being copied, the browser can be told and fewer than two paints have come
/// since that begin frame. This holds of the first flush, after three milliseconds, and of the
/// second one, after six, alike. The second stays pending after the first, and nothing after the
/// second.
pub proof fn law_due_flush_is_issued(
    schedule: FrameSchedule,
    pending: PendingFlush,
    facts: FrameFacts,
    deferred_known: bool,
    deferred_host: bool,
)
    requires
        schedule.pending_flush == Some(pending),
        schedule.deferred_begin_frame is None || !deferred_known,
        facts.gate_open,
        pending.flushes_done == 0 && facts.now_nanoseconds >= pending.begin_frame_1 + 3_000_000
            || pending.flushes_done == 1 && facts.now_nanoseconds >= pending.begin_frame_1
            + 6_000_000,
        (facts.paint_count - pending.paints_at_begin_frame_1) % 0x1_0000_0000_0000_0000 < 2,
    ensures
        ({
            let (after, issued) = schedule.processed(facts, deferred_known, deferred_host, true);
            &&& issued matches Some(flush)
            &&& flush.browser_id == pending.browser_id
            &&& flush.unity_frame == pending.unity_frame
            &&& after.last_begin_frame_nanoseconds == facts.now_nanoseconds
            &&& after.last_begin_frame_unity_frame == pending.unity_frame
            &&& pending.flushes_done == 0 ==> after.pending_flush == Some(
                PendingFlush { flushes_done: 1, ..pending },
            )
            &&& pending.flushes_done == 1 ==> after.pending_flush is None
        }),
{
}

/// A flush that has not fallen due stays pending as it is, and nothing is issued: the first waits
/// for three milliseconds after its begin frame, the second for six.
pub proof fn law_flush_waits_for_its_time(
    schedule: FrameSchedule,
    pending: PendingFlush,
    facts: FrameFacts,
    deferred_known: bool,
    deferred_host: bool,
    pending_host: bool,
)
    requires
        schedule.pending_flush == Some(pending),
        schedule.deferred_begin_frame is None || !deferred_known || !facts.gate_open,
        pending.flushes_done == 0 && facts.now_nanoseconds < pending.begin_frame_1 + 3_000_000
            || pending.flushes_done == 1 && facts.now_nanoseconds < pending.begin_frame_1
            + 6_000_000,
        (facts.paint_count - pending.paints_at_begin_frame_1) % 0x1_0000_0000_0000_0000 < 2,
    ensures
        ({
            let (after, issued) = schedule.processed(
                facts,
                deferred_known,
                deferred_host,
                pending_host,
            );
            &&& issued is None
            &&& after.pending_flush == Some(pending)
            &&& after.last_begin_frame_nanoseconds == schedule.last_begin_frame_nanoseconds
            &&& after.last_begin_frame_unity_frame == schedule.last_begin_frame_unity_frame
        }),
{
}

/// Once the browser has painted twice since the begin frame, whenever that is, its flushes are
/// given up: nothing is issued, and nothing stays pending.
pub proof fn law_painted_content_is_not_flushed(
    schedule: FrameSchedule,
    pending: PendingFlush,
    facts: FrameFacts,
    deferred_known: bool,
    deferred_host: bool,
    pending_host: bool,
)
    requires
        schedule.pending_flush == Some(pending),
        schedule.deferred_begin_frame is None || !deferred_known || !facts.gate_open,
        (facts.paint_count - pending.paints_at_begin_frame_1) % 0x1_0000_0000_0000_0000 >= 2,
    ensures
        schedule.processed(facts, deferred_known, deferred_host, pending_host).1 is None,
        schedule.processed(
            facts,
            deferred_known,
            deferred_host,
            pending_host,
        ).0.pending_flush is None,
{
}

/// A flush that falls due while a frame is being copied, or while the browser cannot be told, is
/// left out but counts: it is not made up for later.
pub proof fn law_missed_flush_is_not_made_up_for(
    schedule: FrameSchedule,
    pending: PendingFlush,
    facts: FrameFacts,
    deferred_known: bool,
    deferred_host: bool,
    pending_host: bool,
)
    requires
        schedule.pending_flush == Some(pending),
        schedule.deferred_begin_frame is None || !deferred_known || !facts.gate_open,
        !facts.gate_open || !pending_host,
        pending.flushes_done == 0 && facts.now_nanoseconds >= pending.begin_frame_1 + 3_000_000
            || pending.flushes_done == 1 && facts.now_nanoseconds >= pending.begin_frame_1
            + 6_000_000,
        (facts.paint_count - pending.paints_at_begin_frame_1) % 0x1_0000_0000_0000_0000 < 2,
    ensures
        ({
            let (after, issued) = schedule.processed(
                facts,
                deferred_known,
                deferred_host,
                pending_host,
            );
            &&& issued is None
            &&& after.last_begin_frame_nanoseconds == schedule.last_begin_frame_nanoseconds
            &&& after.last_begin_frame_unity_frame == schedule.last_begin_frame_unity_frame
            &&& pending.flushes_done == 0 ==> after.pending_flush == Some(
                PendingFlush { flushes_done: 1, ..pending },
            )
            &&& pending.flushes_done == 1 ==> after.pending_flush is None
        }),
{
}

/// A begin frame and its two flushes, one after the other: where nothing paints, no begin frame
/// waits and the browser can be told throughout, the event loop issues a flush in its first turn
/// after three milliseconds and another in its first turn after six, both for the same engine frame,
/// and none after that.
pub proof fn law_begin_frame_is_flushed_twice(
    schedule: FrameSchedule,
    frame: BeginFrame,
    facts: FrameFacts,
    first: FrameFacts,
    second: FrameFacts,
    third: FrameFacts,
)
    requires
        facts.gate_open,
        facts.server_flush_enabled,
        schedule.paints_at_last_begin_frame_1 >= facts.paint_count,
        first.gate_open,
        first.paint_count == facts.paint_count,
        first.now_nanoseconds >= facts.now_nanoseconds + 3_000_000,
        second.gate_open,
        second.paint_count == facts.paint_count,
        second.now_nanoseconds >= facts.now_nanoseconds + 6_000_000,
    ensures
        ({
            let begun = schedule.sent(frame, facts, true);
            let (after_first, flush_1) = begun.processed(first, false, false, true);
            let (after_second, flush_2) = after_first.processed(second, false, false, true);
            &&& flush_1 == Some(frame)
            &&& flush_2 == Some(frame)
            &&& after_second.processed(third, false, false, true).1 is None
        }),
{
}

/// A begin frame that had to wait goes out in the first turn in which no frame is being copied,
/// ahead of any flush, and from then on everything is as if it had been asked for in that turn. If
/// its browser cannot be told, nothing is issued, and it waits no longer all the same.
pub proof fn law_waiting_begin_frame_goes_out(
    schedule: FrameSchedule,
    frame: BeginFrame,
    facts: FrameFacts,
    deferred_host: bool,
    pending_host: bool,
)
    requires
        schedule.deferred_begin_frame == Some(frame),
        facts.gate_open,
    ensures
        ({
            let (after, issued) = schedule.processed(facts, true, deferred_host, pending_host);
            &&& issued == if deferred_host {
                Some(frame)
            } else {
                None
            }
            &&& after.deferred_begin_frame is None
            &&& after == FrameSchedule { deferred_begin_frame: None, ..schedule }.sent(
                frame,
                facts,
                deferred_host,
            )
        }),
{
}

/// A begin frame that waits for a browser that was closed meanwhile is dropped, and the turn goes on
/// as if it had never waited.
pub proof fn law_waiting_begin_frame_of_closed_browser_is_dropped(
    schedule: FrameSchedule,
    frame: BeginFrame,
    facts: FrameFacts,
    deferred_host: bool,
    pending_host: bool,
)
    requires
        schedule.deferred_begin_frame == Some(frame),
        facts.gate_open,
    ensures
        ({
            let (after, issued) = schedule.processed(facts, false, deferred_host, pending_host);
            let never_waited = FrameSchedule { deferred_begin_frame: None, ..schedule };
            &&& after.deferred_begin_frame is None
            &&& (after, issued) == never_waited.processed(facts, false, deferred_host, pending_host)
        }),
{
}

/// While a frame is being copied, a begin frame that is asked for waits, and is counted; nothing else
/// changes. It waits through every turn until the copy is done.
pub proof fn law_begin_frame_waits_for_a_copy(
    schedule: FrameSchedule,
    frame: BeginFrame,
    facts: FrameFacts,
    host: bool,
    turn: FrameFacts,
    deferred_known: bool,
    pending_host: bool,
)
    requires
        !facts.gate_open,
        !turn.gate_open,
    ensures
        ({
            let after = schedule.sent(frame, facts, host);
            &&& after.deferred_begin_frame == Some(frame)
            &&& (after.deferred_count - schedule.deferred_count) % 0x1_0000_0000_0000_0000 == 1
            &&& after == FrameSchedule {
                deferred_begin_frame: after.deferred_begin_frame,
                deferred_count: after.deferred_count,
                ..schedule
            }
            &&& after.processed(
                turn,
                deferred_known,
                host,
                pending_host,
            ).0.deferred_begin_frame == Some(frame)
        }),
{
}

/// A begin frame that goes out leaves its mark: when and for which engine frame it was issued, if the
/// browser could be told, and how many paints there had been. None waits after it, and the count of
/// those that had to wait stays.
pub proof fn law_begin_frame_is_recorded(
    schedule: FrameSchedule,
    frame: BeginFrame,
    facts: FrameFacts,
    host: bool,
)
    requires
        facts.gate_open,
    ensures
        ({
            let after = schedule.sent(frame, facts, host);
            &&& after.paints_at_last_begin_frame_1 == facts.paint_count
            &&& after.deferred_begin_frame is None
            &&& after.deferred_count == schedule.deferred_count
            &&& host ==> after.last_begin_frame_nanoseconds == facts.now_nanoseconds
                && after.last_begin_frame_unity_frame == frame.unity_frame
            &&& !host ==> after.last_begin_frame_nanoseconds
                == schedule.last_begin_frame_nanoseconds && after.last_begin_frame_unity_frame
                == schedule.last_begin_frame_unity_frame
        }),
{
}

/// Flushes are planned for a begin frame that goes out unless they are switched off, the browser
/// cannot be told, or the page has painted for three begin frames in a row and no cooldown runs. They
/// are planned for that browser and engine frame, and counted from that moment and that number of
/// paints.
pub proof fn law_flushes_are_planned(
    schedule: FrameSchedule,
    frame: BeginFrame,
    facts: FrameFacts,
)
    requires
        facts.gate_open,
        facts.server_flush_enabled,
        facts.paint_count <= schedule.paints_at_last_begin_frame_1 || schedule.damage_streak < 2
            || schedule.suppression_cooldown > 1,
    ensures
        schedule.sent(frame, facts, true).pending_flush == Some(
            PendingFlush {
                browser_id: frame.browser_id,
                unity_frame: frame.unity_frame,
                begin_frame_1: facts.now_nanoseconds,
                flushes_done: 0,
                paints_at_begin_frame_1: facts.paint_count,
            },
        ),
        !schedule.sent(frame, facts, true).last_begin_frame_1_suppressed,
{
}

/// Where flushes are switched off, the browser cannot be told, or the page has painted for three begin
/// frames in a row with no cooldown running, a begin frame goes out without flushes; that the painting
/// was the reason is remembered, for the trial that it is.
pub proof fn law_flushes_are_left_out(
    schedule: FrameSchedule,
    frame: BeginFrame,
    facts: FrameFacts,
    host: bool,
)
    requires
        facts.gate_open,
    ensures
        !host ==> schedule.sent(frame, facts, host).pending_flush is None,
        !facts.server_flush_enabled ==> schedule.sent(frame, facts, host).pending_flush is None
            && !schedule.sent(frame, facts, host).last_begin_frame_1_suppressed,
        facts.paint_count > schedule.paints_at_last_begin_frame_1 && schedule.damage_streak >= 2
            && schedule.suppression_cooldown <= 1 ==> schedule.sent(
            frame,
            facts,
            host,
        ).pending_flush is None && schedule.sent(frame, facts, host).last_begin_frame_1_suppressed
            == facts.server_flush_enabled,
{
}

/// The streak counts the begin frames in a row that found a new paint: it grows by one, as far as it
/// can be counted, and starts over with the first begin frame that found none.
pub proof fn law_streak_counts_painted_frames(
    schedule: FrameSchedule,
    frame: BeginFrame,
    facts: FrameFacts,
    host: bool,
)
    requires
        facts.gate_open,
    ensures
        facts.paint_count <= schedule.paints_at_last_begin_frame_1 ==> schedule.sent(
            frame,
            facts,
            host,
        ).damage_streak == 0,
        facts.paint_count > schedule.paints_at_last_begin_frame_1 && schedule.damage_streak
            < u32::MAX ==> schedule.sent(frame, facts, host).damage_streak
            == schedule.damage_streak + 1,
        facts.paint_count > schedule.paints_at_last_begin_frame_1 && schedule.damage_streak
            == u32::MAX ==> schedule.sent(frame, facts, host).damage_streak == u32::MAX,
{
}

/// A begin frame that went out without flushes and brought no paint starts a cooldown of sixty begin
/// frames, where cooldowns are switched on; any other begin frame brings a running cooldown one step
/// nearer to its end.
pub proof fn law_cooldown_follows_a_failed_trial(
    schedule: FrameSchedule,
    frame: BeginFrame,
    facts: FrameFacts,
    host: bool,
)
    requires
        facts.gate_open,
    ensures
        ({
            let failed = schedule.last_begin_frame_1_suppressed && facts.paint_count
                <= schedule.paints_at_last_begin_frame_1 && facts.streak_cooldown_enabled;
            let after = schedule.sent(frame, facts, host).suppression_cooldown;
            &&& failed ==> after == 60
            &&& !failed && schedule.suppression_cooldown > 0 ==> after + 1
                == schedule.suppression_cooldown
            &&& !failed && schedule.suppression_cooldown == 0 ==> after == 0
        }),
{
}

/// Before the first begin frame nothing is pending and nothing waits, no begin frame was issued, and no trial
/// runs: the first begin frame is followed by its flushes whenever they are switched on.
pub proof fn law_first_begin_frame_is_flushed(frame: BeginFrame, facts: FrameFacts)
    requires
        facts.gate_open,
        facts.server_flush_enabled,
    ensures
        ({
            let unused = FrameSchedule::unused();
            &&& unused.pending_flush is None
            &&& unused.deferred_begin_frame is None
            &&& unused.deferred_count == 0
            &&& unused.last_begin_frame_nanoseconds == 0
            &&& unused.last_begin_frame_unity_frame == 0
            &&& unused.paints_at_last_begin_frame_1 == 0
            &&& unused.damage_streak == 0
            &&& unused.suppression_cooldown == 0
            &&& !unused.last_begin_frame_1_suppressed
            &&& unused.sent(frame, facts, true).pending_flush is Some
        }),
{
}

/// Where two flushes have come due already nothing more is issued, and nothing stays pending.
pub proof fn law_used_up_flushes_are_given_up(
    schedule: FrameSchedule,
    pending: PendingFlush,
    facts: FrameFacts,
    deferred_host: bool,
    pending_host: bool,
)
    requires
        schedule.pending_flush == Some(pending),
        schedule.deferred_begin_frame is None,
        pending.flushes_done >= 2,
    ensures
        schedule.processed(facts, false, deferred_host, pending_host).1 is None,
        schedule.processed(facts, false, deferred_host, pending_host).0.pending_flush is None,
{
}

/// A begin frame is issued at once where no frame is being copied and the browser can be told. Where it is not,
/// nothing is recorded as issued.
pub proof fn law_begin_frame_goes_out_at_once(
    schedule: FrameSchedule,
    frame: BeginFrame,
    facts: FrameFacts,
    host: bool,
)
    ensures
        facts.gate_open && host ==> goes_out(facts, host),
        !facts.gate_open || !host ==> !goes_out(facts, host),
        !goes_out(facts, host) ==> schedule.sent(frame, facts, host).last_begin_frame_nanoseconds
            == schedule.last_begin_frame_nanoseconds,
{
}

} // verus!
