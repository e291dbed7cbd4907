//! The newest log messages, kept until the client asks for them.
use crate::protocol;
use vstd::prelude::*;

verus! {

/// The number of messages that are kept at most.
pub const MAX_LOG_ENTRIES: usize = 1000;

/// The newest messages, oldest first. While logging is off nothing is kept.
pub struct LogBuffer {
    enabled: bool,
    entries: Vec<String>,
}

/// `entries` after `message` was logged: where the buffer is full, the oldest message goes.
pub open spec fn logged(entries: Seq<Seq<char>>, message: Seq<char>) -> Seq<Seq<char>> {
    if entries.len() >= MAX_LOG_ENTRIES {
        entries.drop_first().push(message)
    } else {
        entries.push(message)
    }
}

/// `entries` after `message` came, with logging on or off.
pub open spec fn kept(enabled: bool, entries: Seq<Seq<char>>, message: Seq<char>) -> Seq<Seq<char>> {
    if enabled {
        logged(entries, message)
    } else {
        entries
    }
}

/// `entries` after each of `messages` was logged in turn.
pub open spec fn logged_all(entries: Seq<Seq<char>>, messages: Seq<Seq<char>>) -> Seq<Seq<char>>
    decreases messages.len(),
{
    if messages.len() == 0 {
        entries
    } else {
        logged(logged_all(entries, messages.drop_last()), messages.last())
    }
}

impl View for LogBuffer {
    type V = Seq<Seq<char>>;

    closed spec fn view(&self) -> Seq<Seq<char>> {
        protocol::texts(self.entries@)
    }
}

impl LogBuffer {
    /// Whether messages are kept.
    pub closed spec fn spec_enabled(&self) -> bool {
        self.enabled
    }

    /// The buffer never holds more than it may.
    pub open spec fn well_formed(&self) -> bool {
        self@.len() <= MAX_LOG_ENTRIES
    }

    /// An empty buffer with logging off.
    pub fn new() -> (buffer: LogBuffer)
        ensures
            buffer@ == Seq::<Seq<char>>::empty(),
            !buffer.spec_enabled(),
            buffer.well_formed(),
    {
        let buffer = LogBuffer { enabled: false, entries: Vec::new() };
        assert(buffer@ =~= Seq::<Seq<char>>::empty());
        buffer
    }

    /// Switches logging on or off.
    pub fn set_logging(&mut self, enabled: bool)
        ensures
            final(self).spec_enabled() == enabled,
            final(self)@ == old(self)@,
    {
        self.enabled = enabled;
    }

    /// Whether logging is on.
    pub fn is_enabled(&self) -> (enabled: bool)
        ensures
            enabled == self.spec_enabled(),
    {
        self.enabled
    }

    /// Keeps a message, if logging is on.
    pub fn log(&mut self, message: &str)
        ensures
            final(self).spec_enabled() == old(self).spec_enabled(),
            final(self)@ == kept(old(self).spec_enabled(), old(self)@, message@),
            old(self).well_formed() ==> final(self).well_formed(),
    {
        if !self.enabled {
            return;
        }
        if self.entries.len() >= MAX_LOG_ENTRIES {
            self.entries.remove(0);
            assert(self@ =~= old(self)@.drop_first());
        }
        let ghost kept = self@;
        self.entries.push(message.to_owned());
        assert(self@ =~= kept.push(message@));
    }

    /// Hands out the messages, oldest first, and forgets them.
    pub fn drain_logs(&mut self) -> (entries: Vec<String>)
        ensures
            protocol::texts(entries@) == old(self)@,
            final(self)@ == Seq::<Seq<char>>::empty(),
            final(self).spec_enabled() == old(self).spec_enabled(),
    {
        let mut entries: Vec<String> = Vec::new();
        std::mem::swap(&mut entries, &mut self.entries);
        assert(self@ =~= Seq::<Seq<char>>::empty());
        entries
    }
}

/// However much is logged, the buffer holds the newest messages in the order in which they came.
pub proof fn law_newest_messages_stay(messages: Seq<Seq<char>>)
    ensures
        logged_all(Seq::empty(), messages) == if messages.len() <= MAX_LOG_ENTRIES {
            messages
        } else {
            messages.skip(messages.len() - MAX_LOG_ENTRIES)
        },
    decreases messages.len(),
{
    let held = logged_all(Seq::empty(), messages);
    if messages.len() == 0 {
        assert(held =~= messages);
    } else {
        let earlier = messages.drop_last();
        law_newest_messages_stay(earlier);
        if messages.len() <= MAX_LOG_ENTRIES {
            assert(held =~= messages);
        } else {
            assert(held =~= messages.skip(messages.len() - MAX_LOG_ENTRIES));
        }
    }
}

/// While logging is off messages leave no trace. While it is on the newest message is the last one, and what
/// was there before it stays in its order, but for the oldest message where there are a thousand already.
pub proof fn law_newest_message_comes_last(entries: Seq<Seq<char>>, message: Seq<char>)
    ensures
        kept(false, entries, message) == entries,
        kept(true, entries, message).len() > 0,
        kept(true, entries, message).last() == message,
        entries.len() < 1000 ==> kept(true, entries, message).drop_last() == entries,
        entries.len() >= 1000 ==> kept(true, entries, message).drop_last() == entries.skip(1),
{
    if entries.len() < 1000 {
        assert(kept(true, entries, message).drop_last() =~= entries);
    } else {
        assert(kept(true, entries, message).drop_last() =~= entries.skip(1));
    }
}

} // verus!
