//! Measurements: how long paints take to arrive, how long copies and sends wait, and how much work
//! one second of the event loop brings.
use crate::text;
use crate::text::push_decimal;
use vstd::prelude::*;
use vstd::relations::*;
use vstd::seq_lib::*;

verus! {

/// The number of latencies that one report is made of.
pub const LATENCY_WINDOW: usize = 60;

/// The longest latency that the clock can yield, in microseconds.
pub const LONGEST_LATENCY_MICROSECONDS: u64 = 18_446_744_073_709_551;

/// The length of a window of paint statistics, in milliseconds, at least.
pub const STATISTICS_WINDOW_MILLISECONDS: u64 = 1000;

/// `first + second`, starting over at zero.
pub open spec fn wrapping_sum(first: u64, second: u64) -> u64 {
    ((first + second) % 0x1_0000_0000_0000_0000) as u64
}

/// `first - second`, or zero where that is negative.
pub open spec fn saturating_difference(first: u64, second: u64) -> u64 {
    if first >= second {
        (first - second) as u64
    } else {
        0
    }
}

pub open spec fn larger(first: u64, second: u64) -> u64 {
    if first >= second {
        first
    } else {
        second
    }
}

/// The order by size.
pub open spec fn ascending() -> spec_fn(u64, u64) -> bool {
    |first: u64, second: u64| first <= second
}

/// The sum of all samples.
pub open spec fn total(samples: Seq<u64>) -> nat
    decreases samples.len(),
{
    if samples.len() == 0 {
        0
    } else {
        total(samples.drop_last()) + samples.last() as nat
    }
}

/// The sample in the middle once all are sorted (the upper one of two).
pub open spec fn median(samples: Seq<u64>) -> u64 {
    samples.sort_by(ascending())[samples.len() as int / 2]
}

/// Whether `value` is the smallest sample.
pub open spec fn is_smallest(samples: Seq<u64>, value: u64) -> bool {
    samples.contains(value) && forall|i: int| 0 <= i < samples.len() ==> value <= #[trigger] samples[i]
}

/// Whether `value` is the largest sample.
pub open spec fn is_largest(samples: Seq<u64>, value: u64) -> bool {
    samples.contains(value) && forall|i: int| 0 <= i < samples.len() ==> value >= #[trigger] samples[i]
}

/// What a window of latencies comes to, in microseconds.
#[derive(Clone, Copy, Debug, PartialEq, Eq, Structural)]
pub struct LatencyReport {
    pub count: u64,
    pub average: u64,
    pub median: u64,
    pub min: u64,
    pub max: u64,
}

impl LatencyReport {
    /// Whether this is what the samples come to.
    pub open spec fn describes(self, samples: Seq<u64>) -> bool {
        &&& self.count == samples.len()
        &&& self.average == total(samples) / samples.len()
        &&& self.median == median(samples)
        &&& is_smallest(samples, self.min)
        &&& is_largest(samples, self.max)
    }
}

/// The latencies of the current window.
pub struct LatencySamples {
    samples: Vec<u64>,
}

impl View for LatencySamples {
    type V = Seq<u64>;

    closed spec fn view(&self) -> Seq<u64> {
        self.samples@
    }
}

/// The time from a begin frame to a paint in microseconds, if both are known and in order.
pub open spec fn latency(begin_nanoseconds: u64, now_nanoseconds: u64) -> Option<u64> {
    if begin_nanoseconds == 0 || now_nanoseconds <= begin_nanoseconds {
        None
    } else {
        Some(((now_nanoseconds - begin_nanoseconds) / 1000) as u64)
    }
}

/// A sum of so many samples lies between their bounds times their number.
proof fn lemma_total_bounds(samples: Seq<u64>, low: u64, high: u64)
    requires
        forall|i: int| 0 <= i < samples.len() ==> low <= #[trigger] samples[i] <= high,
    ensures
        samples.len() * low <= total(samples) <= samples.len() * high,
    decreases samples.len(),
{
    if samples.len() > 0 {
        let shorter = samples.drop_last();
        assert forall|i: int| 0 <= i < shorter.len() implies low <= #[trigger] shorter[i]
            <= high by {
            assert(shorter[i] == samples[i]);
        }
        lemma_total_bounds(shorter, low, high);
        assert(samples.last() == samples[samples.len() - 1]);
        assert(samples.len() * low == shorter.len() * low + low && samples.len() * high
            == shorter.len() * high + high) by (nonlinear_arith)
            requires
                samples.len() == shorter.len() + 1,
        ;
    }
}

/// The sum grows with the number of samples.
proof fn lemma_total_prefix(samples: Seq<u64>, length: int)
    requires
        0 <= length <= samples.len(),
    ensures
        total(samples.take(length)) <= total(samples),
    decreases samples.len() - length,
{
    if length < samples.len() {
        lemma_total_prefix(samples, length + 1);
        assert(samples.take(length + 1).drop_last() =~= samples.take(length));
    } else {
        assert(samples.take(length) =~= samples);
    }
}

/// The sum of all samples, where it fits.
fn sum_of(samples: &Vec<u64>) -> (sum: u64)
    requires
        total(samples@) <= u64::MAX,
    ensures
        sum == total(samples@),
{
    let mut sum: u64 = 0;
    let mut index: usize = 0;
    while index < samples.len()
        invariant
            index <= samples.len(),
            total(samples@) <= u64::MAX,
            sum == total(samples@.take(index as int)),
        decreases samples.len() - index,
    {
        proof {
            lemma_total_prefix(samples@, index + 1);
            assert(samples@.take(index + 1).drop_last() =~= samples@.take(index as int));
        }
        sum = sum + samples[index];
        index += 1;
    }
    assert(samples@.take(index as int) =~= samples@);
    sum
}

/// The samples in ascending order.
fn sorted_copy(samples: &Vec<u64>) -> (sorted: Vec<u64>)
    ensures
        sorted@ == samples@.sort_by(ascending()),
{
    broadcast use group_to_multiset_ensures;

    let mut sorted: Vec<u64> = Vec::new();
    let mut index: usize = 0;
    while index < samples.len()
        invariant
            index <= samples.len(),
            sorted.len() == index,
            sorted_by(sorted@, ascending()),
            sorted@.to_multiset() == samples@.take(index as int).to_multiset(),
        decreases samples.len() - index,
    {
        let sample: u64 = samples[index];
        let mut place: usize = sorted.len();
        while place > 0 && sorted[place - 1] > sample
            invariant
                place <= sorted.len(),
                sorted_by(sorted@, ascending()),
                forall|i: int| place <= i < sorted.len() ==> sorted@[i] > sample,
            decreases place,
        {
            place -= 1;
        }
        let ghost before = sorted@;
        sorted.insert(place, sample);
        proof {
            let leq = ascending();
            assert forall|i: int, j: int| 0 <= i < j < sorted@.len() implies #[trigger] leq(
                sorted@[i],
                sorted@[j],
            ) by {
                if place > 0 && i < place {
                    assert(leq(before[i], before[place - 1]) || i == place - 1);
                }
                if i < place && j < place {
                    assert(leq(before[i], before[j]));
                } else if i < place && j > place {
                    assert(leq(before[i], before[j - 1]));
                } else if i > place {
                    assert(leq(before[i - 1], before[j - 1]));
                }
            }
            to_multiset_insert(before, place as int, sample);
            assert(samples@.take(index + 1) =~= samples@.take(index as int).push(sample));
            to_multiset_build(samples@.take(index as int), sample);
        }
        index += 1;
    }
    proof {
        assert(samples@.take(index as int) =~= samples@);
        lemma_ascending();
        samples@.lemma_sort_by_ensures(ascending());
        lemma_sorted_unique(sorted@, samples@.sort_by(ascending()), ascending());
    }
    sorted
}

/// The order by size is total.
proof fn lemma_ascending()
    ensures
        total_ordering(ascending()),
{
}

impl LatencySamples {
    /// What holds between any two recordings.
    pub open spec fn well_formed(&self) -> bool {
        &&& self@.len() < LATENCY_WINDOW
        &&& forall|i: int| 0 <= i < self@.len() ==> #[trigger] self@[i]
            <= LONGEST_LATENCY_MICROSECONDS
    }

    /// An empty window.
    pub fn new() -> (samples: LatencySamples)
        ensures
            samples@ == Seq::<u64>::empty(),
            samples.well_formed(),
    {
        LatencySamples { samples: Vec::new() }
    }

    /// Takes note of a paint, and reports once the window is full.
    pub fn record_paint_latency(&mut self, begin_nanoseconds: u64, now_nanoseconds: u64) -> (report:
        Option<LatencyReport>)
        requires
            old(self).well_formed(),
        ensures
            final(self).well_formed(),
            match latency(begin_nanoseconds, now_nanoseconds) {
                None => report is None && final(self)@ == old(self)@,
                Some(sample) => {
                    let samples = old(self)@.push(sample);
                    if samples.len() < LATENCY_WINDOW {
                        report is None && final(self)@ == samples
                    } else {
                        &&& report matches Some(report)
                        &&& report.describes(samples)
                        &&& final(self)@ == Seq::<u64>::empty()
                    }
                },
            },
    {
        if begin_nanoseconds == 0 || now_nanoseconds <= begin_nanoseconds {
            return None;
        }
        let sample: u64 = (now_nanoseconds - begin_nanoseconds) / 1000;
        self.samples.push(sample);
        if self.samples.len() < LATENCY_WINDOW {
            return None;
        }
        let ghost samples = self@;
        proof {
            lemma_total_bounds(samples, 0, LONGEST_LATENCY_MICROSECONDS);
            lemma_ascending();
            samples.lemma_sort_by_ensures(ascending());
            samples.sort_by(ascending()).to_multiset_ensures();
            samples.to_multiset_ensures();
        }
        let count: u64 = self.samples.len() as u64;
        let sum: u64 = sum_of(&self.samples);
        let sorted: Vec<u64> = sorted_copy(&self.samples);
        let report = LatencyReport {
            count,
            average: sum / count,
            median: sorted[sorted.len() / 2],
            min: sorted[0],
            max: sorted[sorted.len() - 1],
        };
        proof {
            lemma_ends_of_sorted(samples, sorted@);
        }
        self.samples.clear();
        Some(report)
    }
}

/// The ends of a sorted sequence are its smallest and its largest element.
proof fn lemma_ends_of_sorted(samples: Seq<u64>, sorted: Seq<u64>)
    requires
        samples.len() > 0,
        samples.len() == sorted.len(),
        sorted == samples.sort_by(ascending()),
    ensures
        is_smallest(samples, sorted[0]),
        is_largest(samples, sorted[sorted.len() - 1]),
{
    broadcast use group_to_multiset_ensures;

    lemma_ascending();
    samples.lemma_sort_by_ensures(ascending());
    let leq = ascending();
    assert forall|value: u64| samples.contains(value) == sorted.contains(value) by {
        assert(samples.to_multiset().count(value) == sorted.to_multiset().count(value));
    }
    assert(sorted.contains(sorted[0]));
    assert(sorted.contains(sorted[sorted.len() - 1]));
    assert forall|i: int| 0 <= i < samples.len() implies sorted[0] <= #[trigger] samples[i]
        <= sorted[sorted.len() - 1] by {
        assert(samples.contains(samples[i]));
        let j = choose|j: int| 0 <= j < sorted.len() && sorted[j] == samples[i];
        assert(j == 0 || leq(sorted[0], sorted[j]));
        assert(j == sorted.len() - 1 || leq(sorted[j], sorted[sorted.len() - 1]));
    }
}

/// A report is consistent in itself: the average and the median lie between the smallest and the
/// largest latency.
pub proof fn law_report_is_in_order(report: LatencyReport, samples: Seq<u64>)
    requires
        samples.len() > 0,
        report.describes(samples),
    ensures
        report.min <= report.average <= report.max,
        report.min <= report.median <= report.max,
{
    broadcast use group_to_multiset_ensures;

    lemma_total_bounds(samples, report.min, report.max);
    let count = samples.len();
    assert(report.min <= total(samples) / count <= report.max) by (nonlinear_arith)
        requires
            count > 0,
            count * report.min <= total(samples) <= count * report.max,
    ;
    lemma_ascending();
    samples.lemma_sort_by_ensures(ascending());
    let sorted = samples.sort_by(ascending());
    sorted.to_multiset_ensures();
    samples.to_multiset_ensures();
    let middle = sorted[count as int / 2];
    assert(sorted.contains(middle));
    assert(samples.to_multiset().count(middle) == sorted.to_multiset().count(middle));
    assert(samples.contains(middle));
}

/// How long something waited, in microseconds: altogether, and at most.
#[derive(Clone, Copy, Debug, PartialEq, Eq, Structural)]
pub struct WaitTotals {
    pub total: u64,
    pub maximum: u64,
}

impl WaitTotals {
    /// The totals with one more wait.
    pub open spec fn with_wait(self, elapsed_microseconds: u64) -> WaitTotals {
        WaitTotals {
            total: wrapping_sum(self.total, elapsed_microseconds),
            maximum: larger(self.maximum, elapsed_microseconds),
        }
    }

    /// Adds one wait.
    pub fn record_wait(&mut self, elapsed_microseconds: u64)
        ensures
            *final(self) == old(self).with_wait(elapsed_microseconds),
    {
        self.total = self.total.wrapping_add(elapsed_microseconds);
        if elapsed_microseconds > self.maximum {
            self.maximum = elapsed_microseconds;
        }
    }
}

/// What the counters are measured against.
#[derive(Clone, Copy, Debug, PartialEq, Eq, Structural)]
pub struct StatisticsWindow {
    pub started_at_nanoseconds: u64,
    pub pump_count_at_start: u64,
    pub paint_count_at_start: u64,
    pub cpu_milliseconds_at_start: u64,
}

/// The counters of the current window.
#[derive(Clone, Copy, Debug, PartialEq, Eq, Structural)]
pub struct PaintCounters {
    pub copies: u64,
    pub copies_dropped: u64,
    pub copy_wait: WaitTotals,
    pub send_wait: WaitTotals,
    pub damage_area: u64,
    pub surface_area: u64,
    pub drain_max_burst: u64,
    pub drain_max_begin_frame_burst: u64,
    pub drain_begin_frames: u64,
}

impl PaintCounters {
    /// The counters after another turn of the event loop.
    pub open spec fn with_burst(self, command_count: u64, begin_frame_count: u64) -> PaintCounters {
        PaintCounters {
            drain_max_burst: larger(self.drain_max_burst, command_count),
            drain_max_begin_frame_burst: larger(
                self.drain_max_begin_frame_burst,
                begin_frame_count,
            ),
            drain_begin_frames: wrapping_sum(self.drain_begin_frames, begin_frame_count),
            ..self
        }
    }

    /// The counters after another paint.
    pub open spec fn with_damage(self, damage_area: u64, surface_area: u64) -> PaintCounters {
        PaintCounters {
            damage_area: wrapping_sum(self.damage_area, damage_area),
            surface_area: wrapping_sum(self.surface_area, surface_area),
            ..self
        }
    }

    /// The counters after another copy.
    pub open spec fn with_copy(self, elapsed_microseconds: u64, dropped: bool) -> PaintCounters {
        PaintCounters {
            copies: wrapping_sum(self.copies, 1),
            copies_dropped: if dropped {
                wrapping_sum(self.copies_dropped, 1)
            } else {
                self.copies_dropped
            },
            copy_wait: self.copy_wait.with_wait(elapsed_microseconds),
            ..self
        }
    }
}

/// Counters at zero.
pub open spec fn no_counts() -> PaintCounters {
    PaintCounters {
        copies: 0,
        copies_dropped: 0,
        copy_wait: WaitTotals { total: 0, maximum: 0 },
        send_wait: WaitTotals { total: 0, maximum: 0 },
        damage_area: 0,
        surface_area: 0,
        drain_max_burst: 0,
        drain_max_begin_frame_burst: 0,
        drain_begin_frames: 0,
    }
}

/// What one window came to.
#[derive(Clone, Copy, Debug, PartialEq, Eq, Structural)]
pub struct PaintReport {
    pub window_milliseconds: u64,
    pub pump_ticks: u64,
    pub paints: u64,
    pub cpu_milliseconds: u64,
    pub counters: PaintCounters,
}

/// The paint statistics of the server.
#[derive(Clone, Copy, Debug, PartialEq, Eq, Structural)]
pub struct PaintStatistics {
    pub window: Option<StatisticsWindow>,
    pub counters: PaintCounters,
}

/// What the statistics have to know of the moment at which they are looked at.
#[derive(Clone, Copy, Debug, PartialEq, Eq, Structural)]
pub struct StatisticsFacts {
    pub now_nanoseconds: u64,
    pub pump_count: u64,
    pub paint_count: u64,
    pub cpu_milliseconds: u64,
}

impl StatisticsFacts {
    /// The window that starts at this moment.
    pub open spec fn window(self) -> StatisticsWindow {
        StatisticsWindow {
            started_at_nanoseconds: self.now_nanoseconds,
            pump_count_at_start: self.pump_count,
            paint_count_at_start: self.paint_count,
            cpu_milliseconds_at_start: self.cpu_milliseconds,
        }
    }
}

impl PaintStatistics {
    /// The statistics after they were looked at, and the report on the window that has ended, if one
    /// has.
    pub open spec fn reported(self, facts: StatisticsFacts) -> (
        PaintStatistics,
        Option<PaintReport>,
    ) {
        match self.window {
            None => (
                PaintStatistics { window: Some(facts.window()), counters: self.counters },
                None,
            ),
            Some(window) => {
                let elapsed = saturating_difference(
                    facts.now_nanoseconds,
                    window.started_at_nanoseconds,
                ) / 1_000_000;
                if elapsed < STATISTICS_WINDOW_MILLISECONDS {
                    (self, None)
                } else {
                    (
                        PaintStatistics { window: Some(facts.window()), counters: no_counts() },
                        Some(
                            PaintReport {
                                window_milliseconds: elapsed,
                                pump_ticks: saturating_difference(
                                    facts.pump_count,
                                    window.pump_count_at_start,
                                ),
                                paints: saturating_difference(
                                    facts.paint_count,
                                    window.paint_count_at_start,
                                ),
                                cpu_milliseconds: saturating_difference(
                                    facts.cpu_milliseconds,
                                    window.cpu_milliseconds_at_start,
                                ),
                                counters: self.counters,
                            },
                        ),
                    )
                }
            },
        }
    }

    /// Statistics before the first window.
    pub fn new() -> (statistics: PaintStatistics)
        ensures
            statistics.window is None,
            statistics.counters == no_counts(),
    {
        PaintStatistics { window: None, counters: zeroed() }
    }

    /// Takes note of the commands that one turn of the event loop took in, and of the begin frames
    /// among them.
    pub fn record_drain_burst(&mut self, command_count: u64, begin_frame_count: u64)
        ensures
            final(self).window == old(self).window,
            final(self).counters == old(self).counters.with_burst(command_count, begin_frame_count),
    {
        if command_count > self.counters.drain_max_burst {
            self.counters.drain_max_burst = command_count;
        }
        if begin_frame_count > self.counters.drain_max_begin_frame_burst {
            self.counters.drain_max_begin_frame_burst = begin_frame_count;
        }
        self.counters.drain_begin_frames = self.counters.drain_begin_frames.wrapping_add(
            begin_frame_count,
        );
    }

    /// Takes note of how much of a surface a paint has changed.
    pub fn record_damage(&mut self, damage_area: u64, surface_area: u64)
        ensures
            final(self).window == old(self).window,
            final(self).counters == old(self).counters.with_damage(damage_area, surface_area),
    {
        self.counters.damage_area = self.counters.damage_area.wrapping_add(damage_area);
        self.counters.surface_area = self.counters.surface_area.wrapping_add(surface_area);
    }

    /// Takes note of a copy that was waited for, and of whether it was dropped.
    pub fn record_copy(&mut self, elapsed_microseconds: u64, dropped: bool)
        ensures
            final(self).window == old(self).window,
            final(self).counters == old(self).counters.with_copy(elapsed_microseconds, dropped),
    {
        self.counters.copies = self.counters.copies.wrapping_add(1);
        self.counters.copy_wait.record_wait(elapsed_microseconds);
        if dropped {
            self.counters.copies_dropped = self.counters.copies_dropped.wrapping_add(1);
        }
    }

    /// Ends the window if it has lasted long enough, reports on it, and starts the next one. The
    /// first call only starts a window.
    pub fn report_paint_statistics(&mut self, facts: StatisticsFacts) -> (report: Option<
        PaintReport,
    >)
        ensures
            (*final(self), report) == old(self).reported(facts),
    {
        let next = StatisticsWindow {
            started_at_nanoseconds: facts.now_nanoseconds,
            pump_count_at_start: facts.pump_count,
            paint_count_at_start: facts.paint_count,
            cpu_milliseconds_at_start: facts.cpu_milliseconds,
        };
        let window: StatisticsWindow = match self.window {
            Some(window) => window,
            None => {
                self.window = Some(next);
                return None;
            },
        };
        let elapsed: u64 = facts.now_nanoseconds.saturating_sub(window.started_at_nanoseconds)
            / 1_000_000;
        if elapsed < STATISTICS_WINDOW_MILLISECONDS {
            return None;
        }
        let report = PaintReport {
            window_milliseconds: elapsed,
            pump_ticks: facts.pump_count.saturating_sub(window.pump_count_at_start),
            paints: facts.paint_count.saturating_sub(window.paint_count_at_start),
            cpu_milliseconds: facts.cpu_milliseconds.saturating_sub(
                window.cpu_milliseconds_at_start,
            ),
            counters: self.counters,
        };
        self.counters = zeroed();
        self.window = Some(next);
        Some(report)
    }
}

/// Counters at zero.
fn zeroed() -> (counters: PaintCounters)
    ensures
        counters == no_counts(),
{
    PaintCounters {
        copies: 0,
        copies_dropped: 0,
        copy_wait: WaitTotals { total: 0, maximum: 0 },
        send_wait: WaitTotals { total: 0, maximum: 0 },
        damage_area: 0,
        surface_area: 0,
        drain_max_burst: 0,
        drain_max_begin_frame_burst: 0,
        drain_begin_frames: 0,
    }
}

/// The areas of rectangles, given by width and height, added up.
pub open spec fn area_of(rectangles: Seq<(u32, u32)>) -> nat
    decreases rectangles.len(),
{
    if rectangles.len() == 0 {
        0
    } else {
        area_of(rectangles.drop_last()) + rectangles.last().0 as nat * rectangles.last().1 as nat
    }
}

/// A part of the rectangles covers no more than all of them.
proof fn lemma_area_prefix(rectangles: Seq<(u32, u32)>, length: int)
    requires
        0 <= length <= rectangles.len(),
    ensures
        area_of(rectangles.take(length)) <= area_of(rectangles),
    decreases rectangles.len() - length,
{
    if length < rectangles.len() {
        lemma_area_prefix(rectangles, length + 1);
        assert(rectangles.take(length + 1).drop_last() =~= rectangles.take(length));
    } else {
        assert(rectangles.take(length) =~= rectangles);
    }
}

/// The area that a paint has changed: that of its rectangles, added up.
pub fn damage_area(rectangles: &[(u32, u32)]) -> (area: u64)
    requires
        area_of(rectangles@) <= u64::MAX,
    ensures
        area == area_of(rectangles@),
{
    let mut area: u64 = 0;
    let mut index: usize = 0;
    while index < rectangles.len()
        invariant
            index <= rectangles@.len(),
            area_of(rectangles@) <= u64::MAX,
            area == area_of(rectangles@.take(index as int)),
        decreases rectangles.len() - index,
    {
        let (width, height) = rectangles[index];
        proof {
            lemma_area_prefix(rectangles@, index + 1);
            assert(rectangles@.take(index + 1).drop_last() =~= rectangles@.take(index as int));
            assert(width as nat * height as nat <= u64::MAX) by (nonlinear_arith)
                requires
                    width <= u32::MAX,
                    height <= u32::MAX,
            ;
        }
        area = area + width as u64 * height as u64;
        index += 1;
    }
    assert(rectangles@.take(index as int) =~= rectangles@);
    area
}

/// The time that a process has spent computing, in milliseconds.
pub open spec fn computing_time(
    user_seconds: u64,
    user_microseconds: u64,
    system_seconds: u64,
    system_microseconds: u64,
) -> int {
    user_seconds * 1000 + user_microseconds / 1000 + system_seconds * 1000 + system_microseconds
        / 1000
}

/// The time that a process has spent computing, in milliseconds, out of the times for its own code
/// and for the system's, each in seconds and microseconds.
pub fn cpu_milliseconds(
    user_seconds: u64,
    user_microseconds: u64,
    system_seconds: u64,
    system_microseconds: u64,
) -> (milliseconds: u64)
    requires
        user_seconds * 1000 + user_microseconds / 1000 + system_seconds * 1000
            + system_microseconds / 1000 <= u64::MAX,
    ensures
        milliseconds == computing_time(
            user_seconds,
            user_microseconds,
            system_seconds,
            system_microseconds,
        ),
{
    let user: u64 = user_seconds * 1000 + user_microseconds / 1000;
    let system: u64 = system_seconds * 1000 + system_microseconds / 1000;
    user + system
}

/// A time that is counted in steps of 100 nanoseconds, in milliseconds.
pub open spec fn filetime(high: u32, low: u32) -> int {
    (high * 0x1_0000_0000 + low) / 10_000
}

/// A time that is counted in steps of 100 nanoseconds, in milliseconds.
pub fn filetime_milliseconds(high: u32, low: u32) -> (milliseconds: u64)
    ensures
        milliseconds == filetime(high, low),
{
    (high as u64 * 0x1_0000_0000 + low as u64) / 10_000
}

/// A number with three digits, with leading zeros.
pub open spec fn three_digits(value: nat) -> Seq<char> {
    seq![text::digit(value / 100), text::digit(value / 10 % 10), text::digit(value % 10)]
}

/// A time in microseconds, written in milliseconds with three decimals.
pub open spec fn in_milliseconds(microseconds: u64) -> Seq<char> {
    text::decimal((microseconds / 1000) as nat) + "."@ + three_digits(
        (microseconds % 1000) as nat,
    ) + "ms"@
}

/// The line that reports on latencies.
pub open spec fn latency_text(report: LatencyReport) -> Seq<char> {
    "BeginFrame→paint latency (n="@ + text::decimal(report.count as nat) + "): average="@
        + in_milliseconds(report.average) + " median="@ + in_milliseconds(report.median) + " min="@
        + in_milliseconds(report.min) + " max="@ + in_milliseconds(report.max)
}

/// The line that reports on a window of paint statistics. The name of the thread and the changed
/// part of the surface are given as texts.
pub open spec fn statistics_text(
    report: PaintReport,
    thread: Seq<char>,
    mode: Seq<char>,
    damage_ratio: Seq<char>,
    deferred: u64,
    poisoned: u64,
) -> Seq<char> {
    "STATISTICS tick_thread="@ + thread + " mode="@ + mode + " window="@ + text::decimal(
        report.window_milliseconds as nat,
    ) + "ms pump_ticks="@ + text::decimal(report.pump_ticks as nat) + " paints="@ + text::decimal(
        report.paints as nat,
    ) + " copies="@ + text::decimal(report.counters.copies as nat) + " dropped="@ + text::decimal(
        report.counters.copies_dropped as nat,
    ) + " copy_wait_total="@ + in_milliseconds(report.counters.copy_wait.total)
        + " copy_wait_max="@ + in_milliseconds(report.counters.copy_wait.maximum)
        + " send_wait_total="@ + in_milliseconds(report.counters.send_wait.total)
        + " send_wait_max="@ + in_milliseconds(report.counters.send_wait.maximum) + " cpu="@
        + text::decimal(report.cpu_milliseconds as nat) + "ms damage_ratio="@ + damage_ratio
        + "% drain_max="@ + text::decimal(report.counters.drain_max_burst as nat)
        + " begin_frame_drained="@ + text::decimal(report.counters.drain_begin_frames as nat)
        + " begin_frame_burst_max="@ + text::decimal(
        report.counters.drain_max_begin_frame_burst as nat,
    ) + " begin_frame_deferred="@ + text::decimal(deferred as nat) + " poisoned_total="@
        + text::decimal(poisoned as nat)
}

/// Appends a label and a number.
fn push_number(line: &mut String, label: &str, value: u64)
    ensures
        final(line)@ == old(line)@ + label@ + text::decimal(value as nat),
{
    line.append(label);
    push_decimal(line, value);
}

/// Appends a label and a text.
fn push_text(line: &mut String, label: &str, value: &str)
    ensures
        final(line)@ == old(line)@ + label@ + value@,
{
    line.append(label);
    line.append(value);
}

/// Appends a label and a time.
fn push_time(line: &mut String, label: &str, microseconds: u64)
    ensures
        final(line)@ == old(line)@ + label@ + in_milliseconds(microseconds),
{
    let time: String = format_milliseconds(microseconds);
    push_text(line, label, time.as_str());
}

/// Writes the line that reports on latencies.
pub fn latency_line(report: &LatencyReport) -> (line: String)
    ensures
        line@ == latency_text(*report),
{
    let mut line: String = String::new();
    push_number(&mut line, "BeginFrame→paint latency (n=", report.count);
    push_time(&mut line, "): average=", report.average);
    push_time(&mut line, " median=", report.median);
    push_time(&mut line, " min=", report.min);
    push_time(&mut line, " max=", report.max);
    assert(line@ =~= latency_text(*report));
    line
}

/// Writes the line that reports on a window of paint statistics.
pub fn statistics_line(
    report: &PaintReport,
    thread: &str,
    mode: &str,
    damage_ratio: &str,
    deferred: u64,
    poisoned: u64,
) -> (line: String)
    ensures
        line@ == statistics_text(*report, thread@, mode@, damage_ratio@, deferred, poisoned),
{
    let counters: &PaintCounters = &report.counters;
    let mut line: String = String::new();
    push_text(&mut line, "STATISTICS tick_thread=", thread);
    push_text(&mut line, " mode=", mode);
    push_number(&mut line, " window=", report.window_milliseconds);
    push_number(&mut line, "ms pump_ticks=", report.pump_ticks);
    push_number(&mut line, " paints=", report.paints);
    push_number(&mut line, " copies=", counters.copies);
    push_number(&mut line, " dropped=", counters.copies_dropped);
    push_time(&mut line, " copy_wait_total=", counters.copy_wait.total);
    push_time(&mut line, " copy_wait_max=", counters.copy_wait.maximum);
    push_time(&mut line, " send_wait_total=", counters.send_wait.total);
    push_time(&mut line, " send_wait_max=", counters.send_wait.maximum);
    push_number(&mut line, " cpu=", report.cpu_milliseconds);
    push_text(&mut line, "ms damage_ratio=", damage_ratio);
    push_number(&mut line, "% drain_max=", counters.drain_max_burst);
    push_number(&mut line, " begin_frame_drained=", counters.drain_begin_frames);
    push_number(&mut line, " begin_frame_burst_max=", counters.drain_max_begin_frame_burst);
    push_number(&mut line, " begin_frame_deferred=", deferred);
    push_number(&mut line, " poisoned_total=", poisoned);
    assert(line@ =~= statistics_text(*report, thread@, mode@, damage_ratio@, deferred, poisoned));
    line
}

/// Writes a time in microseconds in milliseconds with three decimals.
pub fn format_milliseconds(microseconds: u64) -> (written: String)
    ensures
        written@ == in_milliseconds(microseconds),
{
    let mut written: String = String::new();
    let thousandths: u64 = microseconds % 1000;
    push_decimal(&mut written, microseconds / 1000);
    written.append(".");
    push_decimal(&mut written, thousandths / 100);
    push_decimal(&mut written, thousandths / 10 % 10);
    push_decimal(&mut written, thousandths % 10);
    written.append("ms");
    assert(written@ =~= in_milliseconds(microseconds));
    written
}

/// A latency is the time between the two moments, in whole microseconds. There is none where the begin frame
/// is not known or the paint does not come after it.
pub proof fn law_latency_is_the_time_between(begin_nanoseconds: u64, now_nanoseconds: u64)
    ensures
        0 < begin_nanoseconds < now_nanoseconds ==> (latency(
            begin_nanoseconds,
            now_nanoseconds,
        ) matches Some(microseconds) && microseconds * 1000 <= now_nanoseconds - begin_nanoseconds
            < (microseconds + 1) * 1000),
        begin_nanoseconds == 0 || now_nanoseconds <= begin_nanoseconds ==> latency(
            begin_nanoseconds,
            now_nanoseconds,
        ) is None,
{
}

/// How many samples are such as is wanted.
pub open spec fn how_many(samples: Seq<u64>, wanted: spec_fn(u64) -> bool) -> nat
    decreases samples.len(),
{
    if samples.len() == 0 {
        0
    } else {
        how_many(samples.drop_last(), wanted) + if wanted(samples.last()) {
            1nat
        } else {
            0
        }
    }
}

/// Samples can be counted in two parts.
proof fn lemma_count_in_parts(first: Seq<u64>, second: Seq<u64>, wanted: spec_fn(u64) -> bool)
    ensures
        how_many(first + second, wanted) == how_many(first, wanted) + how_many(second, wanted),
    decreases second.len(),
{
    if second.len() == 0 {
        assert(first + second =~= first);
    } else {
        assert((first + second).drop_last() =~= first + second.drop_last());
        lemma_count_in_parts(first, second.drop_last(), wanted);
    }
}

/// No more samples are wanted than there are, and none where none is such.
proof fn lemma_count_bounds(samples: Seq<u64>, wanted: spec_fn(u64) -> bool)
    ensures
        how_many(samples, wanted) <= samples.len(),
        (forall|i: int| 0 <= i < samples.len() ==> !wanted(#[trigger] samples[i])) ==> how_many(
            samples,
            wanted,
        ) == 0,
    decreases samples.len(),
{
    if samples.len() > 0 {
        let shorter = samples.drop_last();
        lemma_count_bounds(shorter, wanted);
        if forall|i: int| 0 <= i < samples.len() ==> !wanted(#[trigger] samples[i]) {
            assert forall|i: int| 0 <= i < shorter.len() implies !wanted(#[trigger] shorter[i]) by {
                assert(shorter[i] == samples[i]);
            }
            assert(!wanted(samples[samples.len() - 1]));
        }
    }
}

/// The order of samples does not matter for their count.
proof fn lemma_count_in_any_order(one: Seq<u64>, two: Seq<u64>, wanted: spec_fn(u64) -> bool)
    requires
        one.to_multiset() == two.to_multiset(),
    ensures
        how_many(one, wanted) == how_many(two, wanted),
    decreases one.len(),
{
    broadcast use group_to_multiset_ensures;

    assert(one.len() == one.to_multiset().len());
    assert(two.len() == two.to_multiset().len());
    if one.len() > 0 {
        let last = one.last();
        assert(one[one.len() - 1] == last);
        assert(one.contains(last));
        assert(two.to_multiset().count(last) > 0);
        assert(two.contains(last));
        let at = choose|at: int| 0 <= at < two.len() && two[at] == last;
        let (front, back) = (two.take(at), two.skip(at + 1));
        let rest = two.remove(at);
        assert(rest =~= front + back);
        assert(two =~= front + seq![last] + back);
        let single = seq![last];
        assert(single.drop_last() =~= Seq::<u64>::empty());
        assert(how_many(single.drop_last(), wanted) == 0);
        lemma_count_in_parts(front, single, wanted);
        lemma_count_in_parts(front + single, back, wanted);
        lemma_count_in_parts(front, back, wanted);
        let shorter = one.drop_last();
        assert(one =~= shorter.push(last));
        to_multiset_build(shorter, last);
        to_multiset_remove(two, at);
        assert(shorter.to_multiset() =~= rest.to_multiset());
        lemma_count_in_any_order(shorter, rest, wanted);
    }
}

/// The median is one of the samples, and divides them: no more than half of them are smaller, and no more
/// than half of the others are larger.
pub proof fn law_median_divides_the_samples(samples: Seq<u64>)
    requires
        samples.len() > 0,
    ensures
        samples.contains(median(samples)),
        how_many(samples, |sample: u64| sample < median(samples)) <= samples.len() / 2,
        how_many(samples, |sample: u64| sample > median(samples)) <= (samples.len() - 1) / 2,
{
    broadcast use group_to_multiset_ensures;

    lemma_ascending();
    samples.lemma_sort_by_ensures(ascending());
    let sorted = samples.sort_by(ascending());
    let leq = ascending();
    let half = samples.len() as int / 2;
    assert(sorted.len() == sorted.to_multiset().len());
    assert(samples.len() == samples.to_multiset().len());
    let middle = sorted[half];
    assert(sorted.contains(middle));
    assert(samples.to_multiset().count(middle) == sorted.to_multiset().count(middle));
    let below = |sample: u64| sample < median(samples);
    let above = |sample: u64| sample > median(samples);
    lemma_count_in_any_order(samples, sorted, below);
    lemma_count_in_any_order(samples, sorted, above);
    let (front, back) = (sorted.take(half), sorted.skip(half));
    assert(sorted =~= front + back);
    lemma_count_in_parts(front, back, below);
    lemma_count_bounds(front, below);
    assert forall|i: int| 0 <= i < back.len() implies !below(#[trigger] back[i]) by {
        assert(i == 0 || leq(sorted[half], sorted[half + i]));
    }
    lemma_count_bounds(back, below);
    let (low, high) = (sorted.take(half + 1), sorted.skip(half + 1));
    assert(sorted =~= low + high);
    lemma_count_in_parts(low, high, above);
    lemma_count_bounds(high, above);
    assert forall|i: int| 0 <= i < low.len() implies !above(#[trigger] low[i]) by {
        assert(i == half || leq(sorted[i], sorted[half]));
    }
    lemma_count_bounds(low, above);
}

/// The average is the sum of all samples over their number, rounded down, and a sum grows by every sample
/// that joins it.
pub proof fn law_average_is_the_sum_over_the_number(
    report: LatencyReport,
    samples: Seq<u64>,
    next: u64,
)
    requires
        samples.len() > 0,
        report.describes(samples),
    ensures
        report.count == samples.len(),
        report.average * samples.len() <= total(samples) < (report.average + 1) * samples.len(),
        total(Seq::empty()) == 0,
        total(samples.push(next)) == total(samples) + next,
{
    let count = samples.len() as int;
    let sum = total(samples) as int;
    vstd::arithmetic::div_mod::lemma_fundamental_div_mod(sum, count);
    assert(report.average * count <= sum < (report.average + 1) * count) by (nonlinear_arith)
        requires
            sum == count * (sum / count) + sum % count,
            0 <= sum % count < count,
            report.average == sum / count,
    ;
    assert(samples.push(next).drop_last() =~= samples);
}

/// A wait is added to the total and is the longest one if none was longer.
pub proof fn law_waits_add_up(totals: WaitTotals, elapsed_microseconds: u64)
    ensures
        ({
            let after = totals.with_wait(elapsed_microseconds);
            &&& (after.total - totals.total - elapsed_microseconds) % 0x1_0000_0000_0000_0000 == 0
            &&& after.maximum >= totals.maximum
            &&& after.maximum >= elapsed_microseconds
            &&& after.maximum == totals.maximum || after.maximum == elapsed_microseconds
        }),
{
}

/// The largest numbers of commands and of begin frames in one turn are kept, each on its own, and the begin
/// frames are added up. Nothing else changes.
pub proof fn law_largest_bursts_are_kept(
    counters: PaintCounters,
    command_count: u64,
    begin_frame_count: u64,
)
    ensures
        ({
            let after = counters.with_burst(command_count, begin_frame_count);
            &&& after.drain_max_burst >= counters.drain_max_burst
            &&& after.drain_max_burst >= command_count
            &&& after.drain_max_burst == counters.drain_max_burst || after.drain_max_burst
                == command_count
            &&& after.drain_max_begin_frame_burst >= counters.drain_max_begin_frame_burst
            &&& after.drain_max_begin_frame_burst >= begin_frame_count
            &&& after.drain_max_begin_frame_burst == counters.drain_max_begin_frame_burst
                || after.drain_max_begin_frame_burst == begin_frame_count
            &&& (after.drain_begin_frames - counters.drain_begin_frames - begin_frame_count)
                % 0x1_0000_0000_0000_0000 == 0
            &&& after == PaintCounters {
                drain_max_burst: after.drain_max_burst,
                drain_max_begin_frame_burst: after.drain_max_begin_frame_burst,
                drain_begin_frames: after.drain_begin_frames,
                ..counters
            }
        }),
{
}

/// The changed areas and the areas of the surfaces are added up, each on its own. Nothing else changes.
pub proof fn law_areas_add_up(counters: PaintCounters, damage_area: u64, surface_area: u64)
    ensures
        ({
            let after = counters.with_damage(damage_area, surface_area);
            &&& (after.damage_area - counters.damage_area - damage_area) % 0x1_0000_0000_0000_0000
                == 0
            &&& (after.surface_area - counters.surface_area - surface_area)
                % 0x1_0000_0000_0000_0000 == 0
            &&& after == PaintCounters {
                damage_area: after.damage_area,
                surface_area: after.surface_area,
                ..counters
            }
        }),
{
}

/// Every copy is counted, and counted again if it was dropped; how long it was waited for goes to the waits
/// for copies, dropped or not, and not to those for sending.
pub proof fn law_copies_are_counted(
    counters: PaintCounters,
    elapsed_microseconds: u64,
    dropped: bool,
)
    ensures
        ({
            let after = counters.with_copy(elapsed_microseconds, dropped);
            &&& (after.copies - counters.copies) % 0x1_0000_0000_0000_0000 == 1
            &&& dropped ==> (after.copies_dropped - counters.copies_dropped)
                % 0x1_0000_0000_0000_0000 == 1
            &&& !dropped ==> after.copies_dropped == counters.copies_dropped
            &&& (after.copy_wait.total - counters.copy_wait.total - elapsed_microseconds)
                % 0x1_0000_0000_0000_0000 == 0
            &&& after.copy_wait.maximum >= elapsed_microseconds
            &&& after.send_wait == counters.send_wait
            &&& after.damage_area == counters.damage_area
            &&& after.surface_area == counters.surface_area
            &&& after.drain_max_burst == counters.drain_max_burst
            &&& after.drain_max_begin_frame_burst == counters.drain_max_begin_frame_burst
            &&& after.drain_begin_frames == counters.drain_begin_frames
        }),
{
}

/// A window is reported on once it has lasted a second, and not before; until then nothing changes.
pub proof fn law_window_lasts_a_second(
    statistics: PaintStatistics,
    window: StatisticsWindow,
    facts: StatisticsFacts,
)
    requires
        statistics.window == Some(window),
    ensures
        facts.now_nanoseconds < window.started_at_nanoseconds + 1_000_000_000
            ==> statistics.reported(facts) == (statistics, None::<PaintReport>),
        facts.now_nanoseconds >= window.started_at_nanoseconds + 1_000_000_000
            ==> statistics.reported(facts).1 is Some,
{
}

/// A report holds what was counted in its window and how far the clock and the outer counters have come
/// since its start. The next window starts at that moment, with nothing counted.
pub proof fn law_report_covers_its_window(
    statistics: PaintStatistics,
    window: StatisticsWindow,
    facts: StatisticsFacts,
)
    requires
        statistics.window == Some(window),
        facts.now_nanoseconds >= window.started_at_nanoseconds + 1_000_000_000,
        facts.pump_count >= window.pump_count_at_start,
        facts.paint_count >= window.paint_count_at_start,
        facts.cpu_milliseconds >= window.cpu_milliseconds_at_start,
    ensures
        ({
            let (after, report) = statistics.reported(facts);
            &&& report matches Some(report)
            &&& report.counters == statistics.counters
            &&& report.window_milliseconds * 1_000_000 <= facts.now_nanoseconds
                - window.started_at_nanoseconds < (report.window_milliseconds + 1) * 1_000_000
            &&& window.pump_count_at_start + report.pump_ticks == facts.pump_count
            &&& window.paint_count_at_start + report.paints == facts.paint_count
            &&& window.cpu_milliseconds_at_start + report.cpu_milliseconds == facts.cpu_milliseconds
            &&& after.window matches Some(next)
            &&& next.started_at_nanoseconds == facts.now_nanoseconds
            &&& next.pump_count_at_start == facts.pump_count
            &&& next.paint_count_at_start == facts.paint_count
            &&& next.cpu_milliseconds_at_start == facts.cpu_milliseconds
            &&& after.counters.copies == 0
            &&& after.counters.copies_dropped == 0
            &&& after.counters.copy_wait.total == 0
            &&& after.counters.copy_wait.maximum == 0
            &&& after.counters.send_wait.total == 0
            &&& after.counters.send_wait.maximum == 0
            &&& after.counters.damage_area == 0
            &&& after.counters.surface_area == 0
            &&& after.counters.drain_max_burst == 0
            &&& after.counters.drain_max_begin_frame_burst == 0
            &&& after.counters.drain_begin_frames == 0
        }),
{
}

/// A counter that has gone back since the window began is reported as not having moved.
pub proof fn law_report_never_counts_backwards(
    statistics: PaintStatistics,
    window: StatisticsWindow,
    facts: StatisticsFacts,
    report: PaintReport,
)
    requires
        statistics.window == Some(window),
        statistics.reported(facts).1 == Some(report),
    ensures
        facts.pump_count < window.pump_count_at_start ==> report.pump_ticks == 0,
        facts.paint_count < window.paint_count_at_start ==> report.paints == 0,
        facts.cpu_milliseconds < window.cpu_milliseconds_at_start ==> report.cpu_milliseconds == 0,
{
}

/// The first look starts a window at that moment, and reports nothing.
pub proof fn law_first_look_starts_a_window(statistics: PaintStatistics, facts: StatisticsFacts)
    requires
        statistics.window is None,
    ensures
        ({
            let (after, report) = statistics.reported(facts);
            &&& report is None
            &&& after.counters == statistics.counters
            &&& after.window matches Some(window)
            &&& window.started_at_nanoseconds == facts.now_nanoseconds
            &&& window.pump_count_at_start == facts.pump_count
            &&& window.paint_count_at_start == facts.paint_count
            &&& window.cpu_milliseconds_at_start == facts.cpu_milliseconds
        }),
{
}

/// Rectangles add up to their areas, whatever their order: one more adds its width times its height.
pub proof fn law_areas_of_rectangles_add_up(rectangles: Seq<(u32, u32)>, width: u32, height: u32)
    ensures
        area_of(Seq::empty()) == 0,
        area_of(rectangles.push((width, height))) == area_of(rectangles) + width * height,
{
    assert(rectangles.push((width, height)).drop_last() =~= rectangles);
}

/// The time that a process computes is the same whether it is spent in its own code or in the system's, and
/// each of the two is counted in whole milliseconds.
pub proof fn law_both_times_count_alike(
    seconds: u64,
    microseconds: u64,
    other_seconds: u64,
    other_microseconds: u64,
)
    ensures
        computing_time(seconds, microseconds, other_seconds, other_microseconds) == computing_time(
            other_seconds,
            other_microseconds,
            seconds,
            microseconds,
        ),
        computing_time(seconds, microseconds, other_seconds, other_microseconds) == computing_time(
            seconds,
            microseconds,
            0,
            0,
        ) + computing_time(0, 0, other_seconds, other_microseconds),
        computing_time(seconds, microseconds, 0, 0) * 1000 <= seconds * 1_000_000 + microseconds < (
        computing_time(seconds, microseconds, 0, 0) + 1) * 1000,
{
}

/// A time in steps of 100 nanoseconds comes to whole milliseconds, rounded down; the upper half counts steps
/// of which each holds all those of the lower one.
pub proof fn law_steps_come_to_milliseconds(high: u32, low: u32)
    ensures
        filetime(high, low) * 10_000 <= high * 0x1_0000_0000 + low < (filetime(high, low) + 1)
            * 10_000,
{
}

/// A time is written with its whole milliseconds before the point and the rest, as three digits, behind it,
/// so that it can be read back.
pub proof fn law_written_time_can_be_read(microseconds: u64)
    ensures
        ({
            let written = in_milliseconds(microseconds);
            let point = written.len() - 6;
            &&& written.len() >= 7
            &&& written[point] == '.'
            &&& written.skip(written.len() - 2) == "ms"@
            &&& text::is_number(written.take(point))
            &&& text::is_number(written.subrange(point + 1, point + 4))
            &&& text::number(written.take(point)) * 1000 + text::number(
                written.subrange(point + 1, point + 4),
            ) == microseconds
        }),
{
    reveal_strlit(".");
    reveal_strlit("ms");
    reveal_with_fuel(text::number, 4);
    let whole = text::decimal((microseconds / 1000) as nat);
    let rest = (microseconds % 1000) as nat;
    let digits = three_digits(rest);
    let written = in_milliseconds(microseconds);
    let point = written.len() - 6;
    text::lemma_decimal_is_number((microseconds / 1000) as nat);
    assert(written.take(point) =~= whole);
    assert(written.subrange(point + 1, point + 4) =~= digits);
    assert(written.skip(written.len() - 2) =~= "ms"@);
    let (a, b, c) = (rest / 100, rest / 10 % 10, rest % 10);
    assert(rest == a * 100 + b * 10 + c);
    assert(text::is_number(digits));
    let two = digits.drop_last();
    let one = two.drop_last();
    assert(two =~= seq![text::digit(a), text::digit(b)]);
    assert(one =~= seq![text::digit(a)]);
    assert(one.drop_last() =~= Seq::<char>::empty());
    assert(text::number(one.drop_last()) == 0);
    assert(text::number(one) == a);
    assert(text::number(two) == a * 10 + b);
    assert(text::number(digits) == rest);
}

/// Whether a line shows a value behind its label.
pub open spec fn shows(line: Seq<char>, label: Seq<char>, value: Seq<char>) -> bool {
    exists|before: Seq<char>, after: Seq<char>| line == #[trigger] (before + label + value + after)
}

/// A line shows what was appended to it, and still shows what it showed before.
proof fn lemma_line_shows(line: Seq<char>, label: Seq<char>, value: Seq<char>)
    ensures
        shows(line + label + value, label, value),
        forall|other: Seq<char>, shown: Seq<char>| #[trigger]
            shows(line, other, shown) ==> shows(line + label + value, other, shown),
{
    let longer = line + label + value;
    assert(longer =~= line + label + value + Seq::<char>::empty());
    assert forall|other: Seq<char>, shown: Seq<char>| #[trigger] shows(line, other, shown) implies shows(
        longer,
        other,
        shown,
    ) by {
        let (before, after) = choose|before: Seq<char>, after: Seq<char>|
            line == #[trigger] (before + other + shown + after);
        assert(longer =~= before + other + shown + (after + label + value));
    }
}

/// The line on latencies shows each figure of the report behind its own label.
pub proof fn law_every_latency_is_shown(report: LatencyReport)
    ensures
        ({
            let line = latency_text(report);
            &&& shows(line, "BeginFrame→paint latency (n="@, text::decimal(report.count as nat))
            &&& shows(line, "): average="@, in_milliseconds(report.average))
            &&& shows(line, " median="@, in_milliseconds(report.median))
            &&& shows(line, " min="@, in_milliseconds(report.min))
            &&& shows(line, " max="@, in_milliseconds(report.max))
        }),
{
    let first = text::decimal(report.count as nat);
    let line_0 = "BeginFrame→paint latency (n="@ + first;
    lemma_line_shows(Seq::empty(), "BeginFrame→paint latency (n="@, first);
    assert(Seq::<char>::empty() + "BeginFrame→paint latency (n="@ + first =~= line_0);
    let line_1 = line_0 + "): average="@ + in_milliseconds(report.average);
    lemma_line_shows(line_0, "): average="@, in_milliseconds(report.average));
    let line_2 = line_1 + " median="@ + in_milliseconds(report.median);
    lemma_line_shows(line_1, " median="@, in_milliseconds(report.median));
    let line_3 = line_2 + " min="@ + in_milliseconds(report.min);
    lemma_line_shows(line_2, " min="@, in_milliseconds(report.min));
    let line_4 = line_3 + " max="@ + in_milliseconds(report.max);
    lemma_line_shows(line_3, " max="@, in_milliseconds(report.max));
    assert(line_4 == latency_text(report));
}

/// The line on a window of paint statistics shows each figure of the report behind its own label.
pub proof fn law_every_figure_is_shown(
    report: PaintReport,
    thread: Seq<char>,
    mode: Seq<char>,
    damage_ratio: Seq<char>,
    deferred: u64,
    poisoned: u64,
)
    ensures
        ({
            let line = statistics_text(report, thread, mode, damage_ratio, deferred, poisoned);
            &&& shows(line, "STATISTICS tick_thread="@, thread)
            &&& shows(line, " mode="@, mode)
            &&& shows(line, " window="@, text::decimal(report.window_milliseconds as nat))
            &&& shows(line, "ms pump_ticks="@, text::decimal(report.pump_ticks as nat))
            &&& shows(line, " paints="@, text::decimal(report.paints as nat))
            &&& shows(line, " copies="@, text::decimal(report.counters.copies as nat))
            &&& shows(line, " dropped="@, text::decimal(report.counters.copies_dropped as nat))
            &&& shows(line, " copy_wait_total="@, in_milliseconds(report.counters.copy_wait.total))
            &&& shows(line, " copy_wait_max="@, in_milliseconds(report.counters.copy_wait.maximum))
            &&& shows(line, " send_wait_total="@, in_milliseconds(report.counters.send_wait.total))
            &&& shows(line, " send_wait_max="@, in_milliseconds(report.counters.send_wait.maximum))
            &&& shows(line, " cpu="@, text::decimal(report.cpu_milliseconds as nat))
            &&& shows(line, "ms damage_ratio="@, damage_ratio)
            &&& shows(line, "% drain_max="@, text::decimal(report.counters.drain_max_burst as nat))
            &&& shows(line, " begin_frame_drained="@, text::decimal(report.counters.drain_begin_frames as nat))
            &&& shows(line, " begin_frame_burst_max="@, text::decimal(report.counters.drain_max_begin_frame_burst as nat))
            &&& shows(line, " begin_frame_deferred="@, text::decimal(deferred as nat))
            &&& shows(line, " poisoned_total="@, text::decimal(poisoned as nat))
        }),
{
    let line_0 = "STATISTICS tick_thread="@ + thread;
    lemma_line_shows(Seq::empty(), "STATISTICS tick_thread="@, thread);
    assert(Seq::<char>::empty() + "STATISTICS tick_thread="@ + thread =~= line_0);
    let line_1 = line_0 + " mode="@ + mode;
    lemma_line_shows(line_0, " mode="@, mode);
    let line_2 = line_1 + " window="@ + text::decimal(report.window_milliseconds as nat);
    lemma_line_shows(line_1, " window="@, text::decimal(report.window_milliseconds as nat));
    let line_3 = line_2 + "ms pump_ticks="@ + text::decimal(report.pump_ticks as nat);
    lemma_line_shows(line_2, "ms pump_ticks="@, text::decimal(report.pump_ticks as nat));
    let line_4 = line_3 + " paints="@ + text::decimal(report.paints as nat);
    lemma_line_shows(line_3, " paints="@, text::decimal(report.paints as nat));
    let line_5 = line_4 + " copies="@ + text::decimal(report.counters.copies as nat);
    lemma_line_shows(line_4, " copies="@, text::decimal(report.counters.copies as nat));
    let line_6 = line_5 + " dropped="@ + text::decimal(report.counters.copies_dropped as nat);
    lemma_line_shows(line_5, " dropped="@, text::decimal(report.counters.copies_dropped as nat));
    let line_7 = line_6 + " copy_wait_total="@ + in_milliseconds(report.counters.copy_wait.total);
    lemma_line_shows(line_6, " copy_wait_total="@, in_milliseconds(report.counters.copy_wait.total));
    let line_8 = line_7 + " copy_wait_max="@ + in_milliseconds(report.counters.copy_wait.maximum);
    lemma_line_shows(line_7, " copy_wait_max="@, in_milliseconds(report.counters.copy_wait.maximum));
    let line_9 = line_8 + " send_wait_total="@ + in_milliseconds(report.counters.send_wait.total);
    lemma_line_shows(line_8, " send_wait_total="@, in_milliseconds(report.counters.send_wait.total));
    let line_10 = line_9 + " send_wait_max="@ + in_milliseconds(report.counters.send_wait.maximum);
    lemma_line_shows(line_9, " send_wait_max="@, in_milliseconds(report.counters.send_wait.maximum));
    let line_11 = line_10 + " cpu="@ + text::decimal(report.cpu_milliseconds as nat);
    lemma_line_shows(line_10, " cpu="@, text::decimal(report.cpu_milliseconds as nat));
    let line_12 = line_11 + "ms damage_ratio="@ + damage_ratio;
    lemma_line_shows(line_11, "ms damage_ratio="@, damage_ratio);
    let line_13 = line_12 + "% drain_max="@ + text::decimal(report.counters.drain_max_burst as nat);
    lemma_line_shows(line_12, "% drain_max="@, text::decimal(report.counters.drain_max_burst as nat));
    let line_14 = line_13 + " begin_frame_drained="@ + text::decimal(report.counters.drain_begin_frames as nat);
    lemma_line_shows(line_13, " begin_frame_drained="@, text::decimal(report.counters.drain_begin_frames as nat));
    let line_15 = line_14 + " begin_frame_burst_max="@ + text::decimal(report.counters.drain_max_begin_frame_burst as nat);
    lemma_line_shows(line_14, " begin_frame_burst_max="@, text::decimal(report.counters.drain_max_begin_frame_burst as nat));
    let line_16 = line_15 + " begin_frame_deferred="@ + text::decimal(deferred as nat);
    lemma_line_shows(line_15, " begin_frame_deferred="@, text::decimal(deferred as nat));
    let line_17 = line_16 + " poisoned_total="@ + text::decimal(poisoned as nat);
    lemma_line_shows(line_16, " poisoned_total="@, text::decimal(poisoned as nat));
    assert(line_17 == statistics_text(report, thread, mode, damage_ratio, deferred, poisoned));
}

} // verus!
