//! The server's loop: when it wakes, which commands it takes, and when it ends.
//!
//! Receiving and answering commands is left to the caller, who says how it went.
use crate::protocol::{Command, CommandEnvelope};
use crate::server::CefServer;
use vstd::prelude::*;

verus! {

/// When the browser engine wants to be called again.
#[derive(Clone, Copy, Debug, PartialEq, Eq, Structural)]
pub struct PumpSchedule {
    pub delay_milliseconds: i64,
}

/// How long the loop sleeps at most, in milliseconds.
pub open spec fn sleep_for(delay_milliseconds: i64) -> int {
    if delay_milliseconds < 1 {
        1
    } else {
        delay_milliseconds as int
    }
}

/// The delay that is noted where the engine asks for one.
pub open spec fn noted_delay(delay_milliseconds: i64) -> i64 {
    if delay_milliseconds < 0 {
        0
    } else {
        delay_milliseconds
    }
}

impl PumpSchedule {
    /// Before the engine has asked for anything.
    pub fn new() -> (schedule: PumpSchedule)
        ensures
            schedule.delay_milliseconds == 4,
    {
        PumpSchedule { delay_milliseconds: 4 }
    }

    /// How long the loop sleeps at most: what the engine asked for, but at least a millisecond.
    pub fn wait_milliseconds(&self) -> (wait: u64)
        ensures
            wait == sleep_for(self.delay_milliseconds),
    {
        if self.delay_milliseconds < 1 {
            1
        } else {
            self.delay_milliseconds as u64
        }
    }
}

/// Takes note of when the engine wants to be called again. A time in the past means at once.
pub fn schedule_pump(schedule: &mut PumpSchedule, delay_milliseconds: i64)
    ensures
        final(schedule).delay_milliseconds == noted_delay(delay_milliseconds),
{
    schedule.delay_milliseconds = if delay_milliseconds < 0 {
        0
    } else {
        delay_milliseconds
    };
}

/// What the channel of commands holds.
#[derive(Debug)]
pub enum Received {
    Envelope { envelope: CommandEnvelope },
    Empty,
    Disconnected,
}

/// What is to be done next with the commands that wait.
#[derive(Debug)]
pub enum DrainStep {
    /// The command is to be carried out, and answered where that is expected.
    Handle { command: Command, answer: bool, shutdown: bool },
    /// No further command is taken in this turn.
    Done,
}

/// How many commands one turn has taken.
#[derive(Clone, Copy, Debug, PartialEq, Eq, Structural)]
pub struct DrainCount {
    pub commands: u64,
    pub begin_frames: u64,
}

impl DrainCount {
    /// At the beginning of a turn.
    pub fn new() -> (count: DrainCount)
        ensures
            count.commands == 0,
            count.begin_frames == 0,
    {
        DrainCount { commands: 0, begin_frames: 0 }
    }

    /// Whether one more command can be counted.
    pub open spec fn has_room(self) -> bool {
        self.begin_frames <= self.commands < u64::MAX
    }
}

/// The server together with its loop.
pub struct ServerState {
    pub cef_server: CefServer,
    pub running: bool,
    /// How often the engine was called.
    pub pump_count: u64,
}

/// Whether further commands are taken after one was carried out: not after the one that ends the
/// server, and not where an answer was owed and could not be sent.
pub open spec fn goes_on(answer: bool, sent: bool, shutdown: bool) -> bool {
    !shutdown && (answer ==> sent)
}

/// Whether the loop goes on after what the channel of commands held.
pub open spec fn runs_on(running: bool, received: Received) -> bool {
    running && !(received is Disconnected)
}

/// Whether what the channel of commands held leads to the given step and count.
pub open spec fn drained(
    before: DrainCount,
    received: Received,
    after: DrainCount,
    step: DrainStep,
) -> bool {
    match received {
        Received::Envelope { envelope } => {
            &&& step == (DrainStep::Handle {
                command: envelope.command,
                answer: envelope.expects_response,
                shutdown: envelope.command is Shutdown,
            })
            &&& after.commands == before.commands + 1
            &&& after.begin_frames == before.begin_frames + if envelope.command
                is SendExternalBeginFrame {
                1int
            } else {
                0
            }
        },
        _ => {
            &&& step is Done
            &&& after == before
        },
    }
}

impl ServerState {
    /// A server that is about to enter its loop.
    pub fn new(cef_server: CefServer) -> (state: ServerState)
        ensures
            state.cef_server == cef_server,
            state.running,
            state.pump_count == 0,
    {
        ServerState { cef_server, running: true, pump_count: 0 }
    }

    /// Takes what the channel of commands holds. The loop ends once the channel is closed.
    pub fn drain_command(&mut self, count: &mut DrainCount, received: Received) -> (step: DrainStep)
        requires
            old(count).has_room(),
        ensures
            final(self).cef_server == old(self).cef_server,
            final(self).pump_count == old(self).pump_count,
            final(self).running == runs_on(old(self).running, received),
            drained(*old(count), received, *final(count), step),
    {
        match received {
            Received::Envelope { envelope } => {
                count.commands = count.commands + 1;
                let mut shutdown: bool = false;
                match &envelope.command {
                    Command::SendExternalBeginFrame { .. } => {
                        count.begin_frames = count.begin_frames + 1;
                    },
                    Command::Shutdown => {
                        shutdown = true;
                    },
                    _ => {},
                }
                DrainStep::Handle {
                    command: envelope.command,
                    answer: envelope.expects_response,
                    shutdown,
                }
            },
            Received::Empty => DrainStep::Done,
            Received::Disconnected => {
                self.running = false;
                DrainStep::Done
            },
        }
    }

    /// Takes note of a command that was carried out, and says whether further ones are taken. The
    /// loop ends with the command that ends the server, and once the client cannot be answered.
    pub fn command_handled(&mut self, answer: bool, sent: bool, shutdown: bool) -> (more: bool)
        ensures
            more == goes_on(answer, sent, shutdown),
            final(self).running == (old(self).running && more),
            final(self).cef_server == old(self).cef_server,
            final(self).pump_count == old(self).pump_count,
    {
        if answer && !sent {
            self.running = false;
            return false;
        }
        if shutdown {
            self.running = false;
            return false;
        }
        true
    }

    /// Takes note that the engine was called.
    pub fn pumped(&mut self)
        requires
            old(self).pump_count < u64::MAX,
        ensures
            final(self).pump_count == old(self).pump_count + 1,
            final(self).running == old(self).running,
            final(self).cef_server == old(self).cef_server,
    {
        self.pump_count = self.pump_count + 1;
    }

    /// Takes note that a turn of the loop failed.
    pub fn tick_failed(&mut self)
        ensures
            !final(self).running,
            final(self).pump_count == old(self).pump_count,
            final(self).cef_server == old(self).cef_server,
    {
        self.running = false;
    }
}

/// Guards a loop whose turns a timer starts: a turn does not start within another one, and none
/// starts after one has failed.
#[derive(Clone, Copy, Debug, PartialEq, Eq, Structural)]
pub struct TimerGuard {
    pub in_tick: bool,
    pub panicked: bool,
}

impl TimerGuard {
    /// The guard once a turn was asked for.
    pub open spec fn entered(self) -> TimerGuard {
        TimerGuard { in_tick: true, ..self }
    }

    /// The guard once a turn has ended.
    pub open spec fn left(self, panicked: bool) -> TimerGuard {
        TimerGuard { in_tick: false, panicked: self.panicked || panicked }
    }

    /// Whether the loop goes on with a turn.
    pub open spec fn goes_on(self, running: bool) -> bool {
        running && !self.panicked
    }

    /// Before the first turn.
    pub fn new() -> (guard: TimerGuard)
        ensures
            !guard.in_tick,
            !guard.panicked,
    {
        TimerGuard { in_tick: false, panicked: false }
    }

    /// Asks to start a turn.
    pub fn enter(&mut self) -> (entered: bool)
        ensures
            entered == !old(self).in_tick,
            *final(self) == old(self).entered(),
    {
        let entered: bool = !self.in_tick;
        self.in_tick = true;
        entered
    }

    /// Ends a turn, and says whether the loop is to stop.
    pub fn leave(&mut self, panicked: bool) -> (stop: bool)
        ensures
            stop == panicked,
            *final(self) == old(self).left(panicked),
    {
        self.in_tick = false;
        if panicked {
            self.panicked = true;
        }
        panicked
    }

    /// Whether the loop goes on with a turn, or stops.
    pub fn may_tick(&self, running: bool) -> (may: bool)
        ensures
            may == self.goes_on(running),
    {
        running && !self.panicked
    }
}

/// One command as the loop meets it: whether an answer is owed, whether it could be sent, and
/// whether the command ends the server.
pub struct Turn {
    pub answer: bool,
    pub sent: bool,
    pub shutdown: bool,
}

/// How many of the commands that wait are carried out.
pub open spec fn handled_count(turns: Seq<Turn>) -> nat
    decreases turns.len(),
{
    if turns.len() == 0 {
        0
    } else if goes_on(turns[0].answer, turns[0].sent, turns[0].shutdown) {
        1 + handled_count(turns.skip(1))
    } else {
        1
    }
}

/// No command behind the one that ends the server is carried out, nor any behind one whose answer
/// could not be sent.
pub proof fn law_nothing_is_handled_after_the_end(turns: Seq<Turn>, last: int)
    requires
        0 <= last < turns.len(),
        !goes_on(turns[last].answer, turns[last].sent, turns[last].shutdown),
    ensures
        handled_count(turns) <= last + 1,
    decreases turns.len(),
{
    if last > 0 && goes_on(turns[0].answer, turns[0].sent, turns[0].shutdown) {
        assert(turns.skip(1)[last - 1] == turns[last]);
        law_nothing_is_handled_after_the_end(turns.skip(1), last - 1);
    }
}

/// As long as nothing ends the server, every command is carried out in the turn that finds it.
pub proof fn law_every_command_is_handled(turns: Seq<Turn>)
    requires
        forall|i: int|
            0 <= i < turns.len() ==> goes_on(
                #[trigger] turns[i].answer,
                turns[i].sent,
                turns[i].shutdown,
            ),
    ensures
        handled_count(turns) == turns.len(),
    decreases turns.len(),
{
    if turns.len() > 0 {
        let rest = turns.skip(1);
        assert(goes_on(turns[0].answer, turns[0].sent, turns[0].shutdown));
        assert forall|i: int| 0 <= i < rest.len() implies goes_on(
            #[trigger] rest[i].answer,
            rest[i].sent,
            rest[i].shutdown,
        ) by {
            assert(rest[i] == turns[i + 1]);
            assert(goes_on(turns[i + 1].answer, turns[i + 1].sent, turns[i + 1].shutdown));
        }
        law_every_command_is_handled(rest);
    }
}

/// The loop sleeps as long as the engine asked for, and a millisecond where it asked for less or for a time
/// in the past.
pub proof fn law_engine_decides_how_long_the_loop_sleeps(delay_milliseconds: i64)
    ensures
        delay_milliseconds >= 1 ==> sleep_for(noted_delay(delay_milliseconds))
            == delay_milliseconds,
        delay_milliseconds < 1 ==> sleep_for(noted_delay(delay_milliseconds)) == 1,
        delay_milliseconds >= 0 ==> noted_delay(delay_milliseconds) == delay_milliseconds,
        delay_milliseconds < 0 ==> noted_delay(delay_milliseconds) == 0,
{
}

/// The loop goes on after a command unless that was the one that ends the server, or an answer was owed and
/// could not be sent. Whether something could be sent does not matter where nothing was owed.
pub proof fn law_loop_ends_with_shutdown_or_a_lost_client(answer: bool, sent: bool)
    ensures
        !goes_on(answer, sent, true),
        !goes_on(true, false, false),
        goes_on(true, true, false),
        goes_on(false, sent, false),
{
}

/// A command that waits is to be carried out as it was sent, and answered just where its sender waits for
/// that; it is the end of the server if it says so. It is counted, and counted again among the begin frames if
/// it is one.
pub proof fn law_waiting_command_is_taken(
    before: DrainCount,
    envelope: CommandEnvelope,
    after: DrainCount,
    step: DrainStep,
)
    requires
        drained(before, Received::Envelope { envelope }, after, step),
    ensures
        ({
            &&& step matches DrainStep::Handle { command, answer, shutdown }
            &&& command == envelope.command
            &&& answer == envelope.expects_response
            &&& shutdown <==> envelope.command == Command::Shutdown
        }),
        after.commands - before.commands == 1,
        envelope.command is SendExternalBeginFrame ==> after.begin_frames - before.begin_frames == 1,
        !(envelope.command is SendExternalBeginFrame) ==> after.begin_frames == before.begin_frames,
{
}

/// Where no command waits the turn is over, and nothing is counted. The loop ends if the channel is closed,
/// and only then.
pub proof fn law_turn_ends_with_the_last_command(
    before: DrainCount,
    received: Received,
    after: DrainCount,
    step: DrainStep,
    running: bool,
)
    requires
        drained(before, received, after, step),
    ensures
        !(received is Envelope) ==> step == DrainStep::Done && after == before,
        received is Disconnected ==> !runs_on(running, received),
        !(received is Disconnected) ==> runs_on(running, received) == running,
{
}

/// A turn does not start within another one; once that has ended the next one can start. After a turn that
/// has failed none starts any more, however the later ones end.
pub proof fn law_turns_do_not_nest(guard: TimerGuard, panicked: bool, later: bool, running: bool)
    ensures
        guard.entered().in_tick,
        guard.entered().panicked == guard.panicked,
        !guard.entered().left(panicked).in_tick,
        !guard.left(true).goes_on(running),
        !guard.left(true).entered().left(later).goes_on(running),
        !guard.panicked ==> guard.left(false).goes_on(running) == running,
{
}

} // verus!
