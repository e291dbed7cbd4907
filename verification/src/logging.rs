//! The client's log file: whether lines are written, and when the file is opened.
use vstd::prelude::*;

verus! {

/// Whether lines are written, and whether the file is open.
#[derive(Clone, Copy, Debug, PartialEq, Eq, Structural)]
pub struct ClientLog {
    pub enabled: bool,
    pub file_open: bool,
}

/// What is to be done with a line.
#[derive(Clone, Copy, Debug, PartialEq, Eq, Structural)]
pub enum LineAction {
    /// Nothing: logging is off.
    Skip,
    /// The line is to be written, after opening the file where that is not done yet. Lines without
    /// an origin begin with the time.
    Write { open_first: bool, with_time: bool },
}

impl ClientLog {
    /// A log that is off.
    pub fn new() -> (log: ClientLog)
        ensures
            !log.enabled,
            !log.file_open,
    {
        ClientLog { enabled: false, file_open: false }
    }

    /// Whether the file is open after a line, where `opens` says whether it can be opened.
    pub open spec fn is_open_after_a_line(self, opens: bool) -> bool {
        self.file_open || self.enabled && opens
    }

    /// What is to be done with a line of the given origin.
    pub open spec fn line_action(self, prefix: Seq<char>, opens: bool) -> LineAction {
        if self.enabled && (self.file_open || opens) {
            LineAction::Write { open_first: !self.file_open, with_time: prefix.len() == 0 }
        } else {
            LineAction::Skip
        }
    }

    /// The file is open only while lines are written.
    pub open spec fn well_formed(self) -> bool {
        self.file_open ==> self.enabled
    }
}

/// Switches the log on or off. Switching it off closes the file.
pub fn set_enabled(log: &mut ClientLog, enabled: bool)
    ensures
        final(log).enabled == enabled,
        final(log).file_open == (enabled && old(log).file_open),
        final(log).well_formed(),
{
    log.enabled = enabled;
    if !enabled {
        log.file_open = false;
    }
}

/// Whether lines are written.
pub fn is_enabled(log: &ClientLog) -> (enabled: bool)
    ensures
        enabled == log.enabled,
{
    log.enabled
}

/// Decides about a line of the given origin. `opens` says whether the file can be opened.
pub fn write(log: &mut ClientLog, prefix: &str, opens: bool) -> (action: LineAction)
    ensures
        final(log).enabled == old(log).enabled,
        old(log).well_formed() ==> final(log).well_formed(),
        final(log).file_open == old(log).is_open_after_a_line(opens),
        action == old(log).line_action(prefix@, opens),
{
    if !log.enabled {
        return LineAction::Skip;
    }
    let open_first: bool = !log.file_open;
    if open_first && !opens {
        return LineAction::Skip;
    }
    log.file_open = true;
    LineAction::Write { open_first, with_time: prefix.is_empty() }
}

/// While the log is off no line is written, and no file is opened for it.
pub proof fn law_nothing_is_written_while_the_log_is_off(
    log: ClientLog,
    prefix: Seq<char>,
    opens: bool,
)
    requires
        !log.enabled,
    ensures
        log.line_action(prefix, opens) == LineAction::Skip,
        log.is_open_after_a_line(opens) == log.file_open,
{
}

/// While the log is on every line is written as long as the file is open or can be opened, and the file is
/// opened for the first of them and for no other. Lines without an origin begin with the time, the others do
/// not.
pub proof fn law_file_is_opened_once(
    log: ClientLog,
    prefix: Seq<char>,
    later: Seq<char>,
    opens: bool,
)
    requires
        log.enabled,
        !log.file_open,
    ensures
        log.line_action(prefix, false) == LineAction::Skip,
        log.line_action(prefix, true) == (LineAction::Write {
            open_first: true,
            with_time: prefix.len() == 0,
        }),
        log.is_open_after_a_line(true),
        !log.is_open_after_a_line(false),
        (ClientLog { file_open: true, ..log }).line_action(later, opens) == (LineAction::Write {
            open_first: false,
            with_time: later.len() == 0,
        }),
        (ClientLog { file_open: true, ..log }).is_open_after_a_line(opens),
{
}

} // verus!
