//! Wheel messages of the window system, kept until the engine asks for them.
use std::collections::VecDeque;
use vstd::prelude::*;

verus! {

/// The number of events that are kept at most.
pub const SCROLL_EVENT_CAPACITY: usize = 256;

/// What one notch of a wheel counts.
pub const WHEEL_DELTA: i16 = 120;

/// The message of a vertical wheel.
pub const WM_MOUSEWHEEL: u32 = 0x020A;

/// The message of a horizontal wheel.
pub const WM_MOUSEHWHEEL: u32 = 0x020E;

/// The newest events, oldest first.
pub struct ScrollEventBuffer<T> {
    events: VecDeque<T>,
}

impl<T> View for ScrollEventBuffer<T> {
    type V = Seq<T>;

    closed spec fn view(&self) -> Seq<T> {
        self.events@
    }
}

/// `events` after another one came: where there are too many, the oldest goes.
pub open spec fn pushed<T>(events: Seq<T>, event: T) -> Seq<T> {
    if events.len() >= SCROLL_EVENT_CAPACITY {
        events.drop_first().push(event)
    } else {
        events.push(event)
    }
}

/// `events` after others came in turn.
pub open spec fn pushed_all<T>(events: Seq<T>, later: Seq<T>) -> Seq<T>
    decreases later.len(),
{
    if later.len() == 0 {
        events
    } else {
        pushed(pushed_all(events, later.drop_last()), later.last())
    }
}

/// The number of events that a destination takes.
pub open spec fn taken(events: nat, room: nat) -> nat {
    if events < room {
        events
    } else {
        room
    }
}

/// Whether so many of the events were handed out, the others kept, and the destination filled.
pub open spec fn drained<T>(
    events: Seq<T>,
    destination: Seq<T>,
    count: nat,
    events_after: Seq<T>,
    destination_after: Seq<T>,
) -> bool {
    &&& count == taken(events.len(), destination.len())
    &&& events_after == events.skip(count as int)
    &&& destination_after == events.take(count as int) + destination.skip(count as int)
}

impl<T> ScrollEventBuffer<T> {
    /// The buffer never holds more than it may.
    pub open spec fn well_formed(&self) -> bool {
        self@.len() <= SCROLL_EVENT_CAPACITY
    }

    /// An empty buffer.
    pub fn new() -> (buffer: ScrollEventBuffer<T>)
        ensures
            buffer@ == Seq::<T>::empty(),
            buffer.well_formed(),
    {
        ScrollEventBuffer { events: VecDeque::new() }
    }

    /// Keeps an event. Where there are too many, the oldest is given up.
    pub fn push(&mut self, event: T)
        ensures
            final(self)@ == pushed(old(self)@, event),
            old(self).well_formed() ==> final(self).well_formed(),
    {
        if self.events.len() >= SCROLL_EVENT_CAPACITY {
            let _oldest: Option<T> = self.events.pop_front();
            assert(self@ =~= old(self)@.drop_first());
        }
        self.events.push_back(event);
    }

    /// Hands out events, oldest first, as many as the destination takes, and says how many. They
    /// are forgotten then.
    pub fn drain_into(&mut self, destination: &mut [T]) -> (count: usize)
        ensures
            drained(
                old(self)@,
                old(destination)@,
                count as nat,
                final(self)@,
                final(destination)@,
            ),
            old(self).well_formed() ==> final(self).well_formed(),
    {
        let room: usize = destination.len();
        let waiting: usize = self.events.len();
        let count: usize = if waiting < room {
            waiting
        } else {
            room
        };
        let mut index: usize = 0;
        while index < count
            invariant
                index <= count,
                count == taken(old(self)@.len(), old(destination)@.len()),
                destination@.len() == old(destination)@.len(),
                count <= old(self)@.len(),
                count <= destination.len(),
                self@ == old(self)@.skip(index as int),
                forall|i: int| 0 <= i < index ==> #[trigger] destination@[i] == old(self)@[i],
                forall|i: int|
                    index <= i < destination@.len() ==> #[trigger] destination@[i] == old(
                        destination,
                    )@[i],
            decreases count - index,
        {
            let ghost before = self@;
            if let Some(event) = self.events.pop_front() {
                assert(event == old(self)@[index as int]);
                assert(self@ =~= old(self)@.skip(index + 1));
                destination[index] = event;
            }
            index += 1;
        }
        assert(destination@ =~= old(self)@.take(count as int) + old(destination)@.skip(
            count as int,
        ));
        count
    }

    /// Forgets all events.
    pub fn clear(&mut self)
        ensures
            final(self)@ == Seq::<T>::empty(),
            final(self).well_formed(),
    {
        self.events.clear();
    }
}

/// Watches the messages of a thread for turns of the wheel.
pub struct ScrollMonitor<T> {
    /// The hook through which messages are seen, while they are watched.
    pub hook: Option<isize>,
    pub events: ScrollEventBuffer<T>,
}

/// The events once a monitor was told to watch.
pub open spec fn events_after_start<T>(hook: Option<isize>, events: Seq<T>) -> Seq<T> {
    if hook is None {
        Seq::empty()
    } else {
        events
    }
}

/// The events once a monitor was told to watch no longer.
pub open spec fn events_after_stop<T>(hook: Option<isize>, events: Seq<T>) -> Seq<T> {
    if hook is Some {
        Seq::empty()
    } else {
        events
    }
}

impl<T> ScrollMonitor<T> {
    /// A monitor that does not watch.
    pub fn new() -> (monitor: ScrollMonitor<T>)
        ensures
            monitor.hook is None,
            monitor.events@ == Seq::<T>::empty(),
    {
        ScrollMonitor { hook: None, events: ScrollEventBuffer::new() }
    }

    /// Begins to watch, and says whether a hook is to be installed. Events from before are
    /// forgotten. A monitor that watches already goes on.
    pub fn start(&mut self) -> (install: bool)
        ensures
            install == old(self).hook is None,
            final(self).hook == old(self).hook,
            final(self).events@ == events_after_start(old(self).hook, old(self).events@),
    {
        if self.hook.is_some() {
            return false;
        }
        self.events.clear();
        true
    }

    /// Takes note of whether a hook could be installed, and gives 1 or 0 accordingly.
    pub fn installed(&mut self, hook: Option<isize>) -> (code: i32)
        ensures
            final(self).hook == hook,
            final(self).events@ == old(self).events@,
            code == if hook is Some {
                1i32
            } else {
                0
            },
    {
        self.hook = hook;
        if self.hook.is_some() {
            1
        } else {
            0
        }
    }

    /// Ends watching, and says which hook is to be removed. Events that nobody asked for are
    /// forgotten.
    pub fn stop(&mut self) -> (hook: Option<isize>)
        ensures
            hook == old(self).hook,
            final(self).hook is None,
            final(self).events@ == events_after_stop(old(self).hook, old(self).events@),
    {
        let hook: Option<isize> = self.hook;
        if hook.is_some() {
            self.hook = None;
            self.events.clear();
        }
        hook
    }
}

/// Whether a message that a hook sees is counted.
pub open spec fn counts(code: i32, removed: bool, present: bool) -> bool {
    code == 0 && removed && present
}

/// Whether a message that a hook sees is counted: only once it is taken from the queue, not when it
/// is merely looked at. `code` is zero where there is a message at all.
pub fn is_counted(code: i32, removed: bool, present: bool) -> (counted: bool)
    ensures
        counted == counts(code, removed, present),
{
    code == 0 && removed && present
}

/// The signed number in the upper half of the lower four bytes.
pub open spec fn upper_half(parameter: usize) -> int {
    let half = parameter / 0x1_0000 % 0x1_0000;
    if half >= 0x8000 {
        half - 0x1_0000
    } else {
        half as int
    }
}

/// How far a wheel was turned, where 120 is one notch; down and left are negative. The lower half
/// of the parameter holds keys and does not matter.
pub fn wheel_delta(wheel_parameter: usize) -> (delta: i16)
    ensures
        delta == upper_half(wheel_parameter),
{
    let half: usize = wheel_parameter / 0x1_0000 % 0x1_0000;
    if half >= 0x8000 {
        (half as i32 - 0x1_0000) as i16
    } else {
        half as i16
    }
}

/// How far a message says that the wheels were turned, horizontally and vertically.
pub open spec fn turned_by(message_id: u32, wheel_parameter: usize) -> Option<(i16, i16)> {
    if message_id == WM_MOUSEWHEEL {
        Some((0i16, upper_half(wheel_parameter) as i16))
    } else if message_id == WM_MOUSEHWHEEL {
        Some((upper_half(wheel_parameter) as i16, 0i16))
    } else {
        None
    }
}

/// What a message says of the wheels: how far they were turned, horizontally and vertically.
/// Nothing if it is no wheel message.
pub fn handle_retrieved_message(message_id: u32, wheel_parameter: usize) -> (turned: Option<
    (i16, i16),
>)
    ensures
        turned == turned_by(message_id, wheel_parameter),
{
    if message_id == WM_MOUSEWHEEL {
        Some((0, wheel_delta(wheel_parameter)))
    } else if message_id == WM_MOUSEHWHEEL {
        Some((wheel_delta(wheel_parameter), 0))
    } else {
        None
    }
}

/// Keys that are held down do not change how far a wheel was turned.
pub proof fn law_keys_do_not_turn_the_wheel(parameter: usize, keys: usize)
    requires
        keys < 0x1_0000,
        parameter % 0x1_0000 == 0,
    ensures
        upper_half((parameter + keys) as usize) == upper_half(parameter),
{
}

/// However many events come, the newest ones are kept in the order in which they came.
pub proof fn law_newest_events_stay<T>(events: Seq<T>)
    ensures
        pushed_all(Seq::empty(), events) == if events.len() <= SCROLL_EVENT_CAPACITY {
            events
        } else {
            events.skip(events.len() - SCROLL_EVENT_CAPACITY)
        },
    decreases events.len(),
{
    let kept = pushed_all(Seq::empty(), events);
    if events.len() == 0 {
        assert(kept =~= events);
    } else {
        law_newest_events_stay(events.drop_last());
        if events.len() <= SCROLL_EVENT_CAPACITY {
            assert(kept =~= events);
        } else {
            assert(kept =~= events.skip(events.len() - SCROLL_EVENT_CAPACITY));
        }
    }
}

/// The newest event is the last one, and what was there before it stays in its order, but for the oldest
/// event where there are 256 already.
pub proof fn law_newest_event_comes_last<T>(events: Seq<T>, event: T)
    ensures
        pushed(events, event).len() > 0,
        pushed(events, event).last() == event,
        events.len() < 256 ==> pushed(events, event).drop_last() == events,
        events.len() >= 256 ==> pushed(events, event).drop_last() == events.skip(1),
{
    if events.len() < 256 {
        assert(pushed(events, event).drop_last() =~= events);
    } else {
        assert(pushed(events, event).drop_last() =~= events.skip(1));
    }
}

/// Events are handed out oldest first, as many as there are and the destination takes; the others wait for the
/// next time, and the rest of the destination is left alone. Nothing is handed out twice or lost.
pub proof fn law_events_are_handed_out_in_order<T>(
    events: Seq<T>,
    destination: Seq<T>,
    count: nat,
    events_after: Seq<T>,
    destination_after: Seq<T>,
)
    requires
        drained(events, destination, count, events_after, destination_after),
    ensures
        count <= events.len(),
        count <= destination.len(),
        count == events.len() || count == destination.len(),
        destination_after.len() == destination.len(),
        destination_after.take(count as int) + events_after == events,
        destination_after.skip(count as int) == destination.skip(count as int),
{
    assert(destination_after.take(count as int) =~= events.take(count as int));
    assert(destination_after.take(count as int) + events_after =~= events);
    assert(destination_after.skip(count as int) =~= destination.skip(count as int));
}

/// A monitor that begins to watch has no events from before, and one that stops forgets those that nobody
/// asked for. One that watches already keeps them, and so does one that did not watch.
pub proof fn law_events_belong_to_one_watch<T>(hook: isize, events: Seq<T>)
    ensures
        events_after_start(None, events).len() == 0,
        events_after_start(Some(hook), events) == events,
        events_after_stop(Some(hook), events).len() == 0,
        events_after_stop(None, events) == events,
{
}

/// A message counts if there is one and it was taken from the queue; one that was merely looked at does not.
pub proof fn law_messages_count_once(code: i32, removed: bool, present: bool)
    ensures
        counts(0, true, true),
        !removed ==> !counts(code, removed, present),
        !present ==> !counts(code, removed, present),
        code != 0 ==> !counts(code, removed, present),
{
}

/// How far a wheel was turned, forwards or backwards, is read as it was put into the message: that of the
/// vertical wheel as vertical, that of the horizontal one as horizontal. No other message turns a wheel.
pub proof fn law_turn_is_read_as_it_was_made(delta: i16, keys: u16, other: u32, parameter: usize)
    requires
        parameter == (if delta < 0 {
            delta + 0x1_0000
        } else {
            delta as int
        }) * 0x1_0000 + keys,
    ensures
        turned_by(0x020A, parameter) == Some((0i16, delta)),
        turned_by(0x020E, parameter) == Some((delta, 0i16)),
        other != 0x020A && other != 0x020E ==> turned_by(other, parameter) is None,
{
    let half = if delta < 0 {
        delta + 0x1_0000
    } else {
        delta as int
    };
    assert(parameter / 0x1_0000 == half);
    assert(upper_half(parameter) == delta);
}

/// What stands beyond the lower four bytes of the parameter does not matter.
pub proof fn law_lower_four_bytes_hold_the_turn(parameter: usize, other: usize)
    requires
        parameter as int % 0x1_0000_0000 == other as int % 0x1_0000_0000,
    ensures
        upper_half(parameter) == upper_half(other),
{
    assert(parameter / 0x1_0000 % 0x1_0000 == parameter as int % 0x1_0000_0000 / 0x1_0000);
    assert(other / 0x1_0000 % 0x1_0000 == other as int % 0x1_0000_0000 / 0x1_0000);
}

} // verus!
