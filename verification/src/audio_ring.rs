//! A ring of audio frames between a producer and a consumer whose clocks differ.
//!
//! The producer appends frames; the consumer blends two neighbouring frames into each one that it
//! plays, and moves on by a little more or less than one frame, so that the number of waiting frames
//! stays near a target. Blending and the length of the step are floating-point work of the caller.
//! Here is everything else: which frames wait, which of them are blended, when there is nothing to
//! play, and what is lost when the ring is full. A sample is the `u32` with the bytes of the
//! floating-point number.
use vstd::arithmetic::div_mod::*;
use vstd::prelude::*;

verus! {

/// The newest `most` frames.
pub open spec fn newest(frames: Seq<Seq<u32>>, most: nat) -> Seq<Seq<u32>> {
    if frames.len() <= most {
        frames
    } else {
        frames.skip(frames.len() - most)
    }
}

/// How many frames are lost where only `most` can be kept.
pub open spec fn lost(frames: nat, most: nat) -> nat {
    if frames <= most {
        0
    } else {
        (frames - most) as nat
    }
}

/// `count + by`, starting over at zero.
pub open spec fn counted(count: u64, by: nat) -> u64 {
    ((count + by) % 0x1_0000_0000_0000_0000) as u64
}

/// A frame out of samples that alternate between the channels.
pub open spec fn frame_of(samples: Seq<u32>, channels: nat, index: int) -> Seq<u32> {
    Seq::new(channels, |c: int| samples[index * channels + c])
}

/// The frames of samples that alternate between the channels.
pub open spec fn frames_of(samples: Seq<u32>, channels: nat, count: nat) -> Seq<Seq<u32>> {
    Seq::new(count, |i: int| frame_of(samples, channels, i))
}

/// A number, or the least one that there has to be.
pub open spec fn at_least(number: nat, least: nat) -> nat {
    if number < least {
        least
    } else {
        number
    }
}

/// The number of frames that are to wait in a ring, where so many are wished for: one at least, and fewer
/// than fit.
pub open spec fn target_within(wished: nat, capacity: nat) -> nat {
    if wished < 1 {
        1
    } else if wished >= capacity {
        (capacity - 1) as nat
    } else {
        wished
    }
}

/// What is played next.
#[derive(Clone, Copy, Debug, PartialEq, Eq, Structural)]
pub enum FrameSource {
    /// Silence: there are too few frames.
    Silence,
    /// A blend of two frames; their samples begin at these places of the ring.
    Blend { first: usize, second: usize },
}

/// The ring.
pub struct AudioRing {
    buffer: Vec<u32>,
    capacity_frames: usize,
    channels: usize,
    target_frames: usize,
    /// The number of frames written so far.
    write_frame: u64,
    /// The number of frames that the consumer has passed.
    read_frame: u64,
    /// Whether the consumer stands between the first waiting frame and the one after it, rather
    /// than on the first one.
    between_frames: bool,
    /// Whether the target was reached once. Until then silence is played.
    primed: bool,
    /// The frames of silence that were played for want of frames.
    underrun_frames: u64,
    /// The frames that were lost because the ring was full.
    overflow_drop_frames: u64,
}

impl View for AudioRing {
    type V = Seq<Seq<u32>>;

    /// The frames that wait, oldest first.
    closed spec fn view(&self) -> Seq<Seq<u32>> {
        Seq::new(
            (self.write_frame - self.read_frame) as nat,
            |k: int| self.stored(self.read_frame + k),
        )
    }
}

/// The place of a frame in the ring.
spec fn slot(frame: int, capacity: int) -> int {
    frame % capacity
}

/// The samples of a place lie inside the ring, and those of different places lie apart.
proof fn lemma_slots(capacity: int, channels: int, first: int, second: int)
    requires
        0 < capacity,
        0 < channels,
        0 <= first,
        0 <= second,
    ensures
        0 <= slot(first, capacity) * channels,
        slot(first, capacity) * channels + channels <= capacity * channels,
        slot(first, capacity) != slot(second, capacity) ==> (slot(first, capacity) * channels
            + channels <= slot(second, capacity) * channels || slot(second, capacity) * channels
            + channels <= slot(first, capacity) * channels),
{
    lemma_mod_bound(first, capacity);
    lemma_mod_bound(second, capacity);
    let (a, b) = (slot(first, capacity), slot(second, capacity));
    assert(0 <= a * channels && a * channels + channels <= capacity * channels) by (nonlinear_arith)
        requires
            0 <= a < capacity,
            0 < channels,
    ;
    if a < b {
        assert(a * channels + channels <= b * channels) by (nonlinear_arith)
            requires
                a + 1 <= b,
                0 < channels,
        ;
    } else if b < a {
        assert(b * channels + channels <= a * channels) by (nonlinear_arith)
            requires
                b + 1 <= a,
                0 < channels,
        ;
    }
}

/// Frames that are less than a ring apart have different places.
proof fn lemma_slots_differ(capacity: int, first: int, second: int)
    requires
        0 < capacity,
        0 <= first < second < first + capacity,
    ensures
        slot(first, capacity) != slot(second, capacity),
{
    lemma_mod_equivalence(second, first, capacity);
    lemma_small_mod((second - first) as nat, capacity as nat);
}

/// What is lost and what stays is the same whether frames come at once or in parts.
pub proof fn law_parts_come_to_the_whole(
    waiting: Seq<Seq<u32>>,
    first: Seq<Seq<u32>>,
    second: Seq<Seq<u32>>,
    most: nat,
)
    requires
        waiting.len() <= most,
    ensures
        newest(newest(waiting + first, most) + second, most) == newest(
            waiting + (first + second),
            most,
        ),
        lost(waiting.len() + first.len(), most) + lost(
            newest(waiting + first, most).len() + second.len(),
            most,
        ) == lost(waiting.len() + first.len() + second.len(), most),
{
    assert(newest(newest(waiting + first, most) + second, most) =~= newest(
        waiting + (first + second),
        most,
    ));
}

/// Leaving out the first of the new frames where they alone are too many, and the oldest of the
/// waiting ones where there is no room for the others, leaves the newest frames that fit.
proof fn lemma_kept(
    waiting: Seq<Seq<u32>>,
    fresh: Seq<Seq<u32>>,
    skip: nat,
    drop: nat,
    most: nat,
)
    requires
        waiting.len() <= most,
        skip == lost(fresh.len(), most),
        drop == lost((waiting.len() + fresh.len() - skip) as nat, most),
    ensures
        waiting.skip(drop as int) + fresh.skip(skip as int) == newest(waiting + fresh, most),
        drop + skip == lost(waiting.len() + fresh.len(), most),
{
    assert(waiting.skip(drop as int) + fresh.skip(skip as int) =~= newest(waiting + fresh, most));
}

impl AudioRing {
    /// The samples of the frame with the given number, if it is still in the ring.
    spec fn stored(&self, frame: int) -> Seq<u32> {
        Seq::new(
            self.channels as nat,
            |c: int|
                self.buffer@[slot(frame, self.capacity_frames as int) * self.channels + c],
        )
    }

    /// The number of frames that fit.
    pub closed spec fn capacity(&self) -> nat {
        self.capacity_frames as nat
    }

    /// The number of channels.
    pub closed spec fn spec_channels(&self) -> nat {
        self.channels as nat
    }

    /// The number of frames that are to wait.
    pub closed spec fn target(&self) -> nat {
        self.target_frames as nat
    }

    /// Whether the target was reached once.
    pub closed spec fn spec_primed(&self) -> bool {
        self.primed
    }

    /// The number of frames written so far.
    pub closed spec fn written(&self) -> nat {
        self.write_frame as nat
    }

    /// The frames of silence that were played for want of frames.
    pub closed spec fn underruns(&self) -> u64 {
        self.underrun_frames
    }

    /// The frames that were lost because the ring was full.
    pub closed spec fn overflows(&self) -> u64 {
        self.overflow_drop_frames
    }

    /// Whether the consumer stands between the first waiting frame and the one after it, rather
    /// than on the first one.
    pub closed spec fn between(&self) -> bool {
        self.between_frames
    }

    /// What holds at any time.
    spec fn sound(&self) -> bool {
        &&& 2 <= self.capacity_frames
        &&& 1 <= self.channels
        &&& 1 <= self.target_frames < self.capacity_frames
        &&& self.buffer@.len() == self.capacity_frames * self.channels
        &&& self.read_frame <= self.write_frame
        &&& self.write_frame - self.read_frame <= self.capacity_frames
    }

    /// What holds between any two operations.
    pub closed spec fn well_formed(&self) -> bool {
        &&& self.sound()
        &&& self.between_frames ==> self.read_frame < self.write_frame
    }

    /// The settings are as they were.
    pub open spec fn same_setup(&self, before: &AudioRing) -> bool {
        &&& self.capacity() == before.capacity()
        &&& self.spec_channels() == before.spec_channels()
        &&& self.target() == before.target()
    }

    /// Whether `after` is this ring with frames appended, given with the channels alternating: the
    /// newest frames that fit wait, and the others are counted as lost.
    pub open spec fn becomes_by_writing(
        &self,
        after: &AudioRing,
        source: Seq<u32>,
        frame_count: nat,
    ) -> bool {
        &&& after.same_setup(self)
        &&& after@ == newest(
            self@ + frames_of(source, self.spec_channels(), frame_count),
            self.capacity(),
        )
        &&& after.overflows() == counted(
            self.overflows(),
            lost(self@.len() + frame_count, self.capacity()),
        )
        &&& after.written() == self.written() + if frame_count <= self.capacity() {
            frame_count
        } else {
            self.capacity()
        }
        &&& after.spec_primed() == self.spec_primed()
        &&& after.between() == self.between()
        &&& after.underruns() == self.underruns()
    }

    /// Whether the given source is what is played next, and `after` is this ring once that is decided.
    pub open spec fn plays(&self, after: &AudioRing, source: FrameSource) -> bool {
        let started: nat = if self.between() {
            1
        } else {
            0
        };
        let enough = self@.len() >= self.target() + started;
        let playable = self@.len() >= 2 + started;
        &&& after.same_setup(self)
        &&& after@ == self@
        &&& after.written() == self.written()
        &&& after.overflows() == self.overflows()
        &&& after.between() == self.between()
        &&& after.spec_primed() == (self.spec_primed() || enough)
        &&& (source !is Silence) == (after.spec_primed() && playable)
        &&& after.underruns() == if source is Silence {
            counted(self.underruns(), 1)
        } else {
            self.underruns()
        }
        &&& source matches FrameSource::Blend { first, second } ==> {
            &&& after.samples_at(first) == self@[0]
            &&& after.samples_at(second) == self@[1]
        }
    }

    /// Whether `after` is this ring with the consumer moved on by so many frames.
    pub open spec fn moves_on(&self, after: &AudioRing, frames: nat, between_frames: bool) -> bool {
        &&& after.same_setup(self)
        &&& after@ == self@.skip(frames as int)
        &&& after.between() == between_frames
        &&& after.written() == self.written()
        &&& after.spec_primed() == self.spec_primed()
        &&& after.underruns() == self.underruns()
        &&& after.overflows() == self.overflows()
    }

    /// How much waits, in parts of a frame of which `whole` make one, where the consumer stands
    /// `passed` such parts behind the first waiting frame.
    pub open spec fn occupancy(&self, passed: nat, whole: nat) -> int {
        self@.len() * whole - passed
    }

    /// Whether a consumer of this ring can stand `passed` parts of a frame behind the first waiting
    /// one, where `whole` such parts make a frame.
    pub open spec fn stands(&self, passed: nat, whole: nat) -> bool {
        &&& passed < whole
        &&& self.between() == (passed > 0)
    }

    /// What a ring promises to whoever holds it: never more frames than fit, and all of them with
    /// the same number of channels.
    pub proof fn law_frames_fit(&self)
        requires
            self.well_formed(),
        ensures
            self@.len() <= self.capacity(),
            2 <= self.capacity(),
            1 <= self.spec_channels(),
            1 <= self.target() < self.capacity(),
            self.between() ==> self@.len() > 0,
            forall|i: int| 0 <= i < self@.len() ==> (#[trigger] self@[i]).len()
                == self.spec_channels(),
    {
    }

    /// An empty ring. It holds two frames at least, of one channel at least, and the target lies
    /// within it.
    pub fn new(capacity_frames: usize, channels: usize, target_frames: usize) -> (ring: AudioRing)
        requires
            at_least(capacity_frames as nat, 2) * at_least(channels as nat, 1) <= usize::MAX,
        ensures
            ring.well_formed(),
            ring@ == Seq::<Seq<u32>>::empty(),
            ring.capacity() == at_least(capacity_frames as nat, 2),
            ring.spec_channels() == at_least(channels as nat, 1),
            ring.target() == target_within(target_frames as nat, ring.capacity()),
            !ring.spec_primed(),
            !ring.between(),
            ring.written() == 0,
            ring.underruns() == 0,
            ring.overflows() == 0,
    {
        let capacity: usize = if capacity_frames < 2 {
            2
        } else {
            capacity_frames
        };
        let channel_count: usize = if channels < 1 {
            1
        } else {
            channels
        };
        let target: usize = if target_frames < 1 {
            1
        } else if target_frames >= capacity {
            capacity - 1
        } else {
            target_frames
        };
        let ring = AudioRing {
            buffer: vec![0u32; capacity * channel_count],
            capacity_frames: capacity,
            channels: channel_count,
            target_frames: target,
            write_frame: 0,
            read_frame: 0,
            between_frames: false,
            primed: false,
            underrun_frames: 0,
            overflow_drop_frames: 0,
        };
        assert(ring@ =~= Seq::<Seq<u32>>::empty());
        ring
    }

    /// The number of frames that wait, with the one that is being played.
    pub fn waiting_frames(&self) -> (count: u64)
        requires
            self.well_formed(),
        ensures
            count == self@.len(),
    {
        self.write_frame - self.read_frame
    }

    /// The number of frames that are to wait.
    pub fn target_frames(&self) -> (target: usize)
        ensures
            target == self.target(),
    {
        self.target_frames
    }

    /// The number of channels.
    pub fn channel_count(&self) -> (channels: usize)
        ensures
            channels == self.spec_channels(),
    {
        self.channels
    }

    /// The frames of silence that were played for want of frames.
    pub fn underrun_frames(&self) -> (count: u64)
        ensures
            count == self.underruns(),
    {
        self.underrun_frames
    }

    /// The frames that were lost because the ring was full.
    pub fn overflow_drop_frames(&self) -> (count: u64)
        ensures
            count == self.overflows(),
    {
        self.overflow_drop_frames
    }

    /// Whether so many frames can be written without the count of them running over.
    pub fn can_write(&self, frame_count: usize) -> (possible: bool)
        ensures
            possible == (self.written() + frame_count <= u64::MAX),
    {
        frame_count as u128 <= (u64::MAX - self.write_frame) as u128
    }

    /// Forgets the oldest frames.
    fn drop_oldest(&mut self, count: u64)
        requires
            old(self).sound(),
            count <= old(self)@.len(),
        ensures
            final(self).sound(),
            final(self).same_setup(&*old(self)),
            final(self)@ == old(self)@.skip(count as int),
            final(self).written() == old(self).written(),
            final(self).spec_primed() == old(self).spec_primed(),
            final(self).between() == old(self).between(),
            final(self).underruns() == old(self).underruns(),
            final(self).overflows() == old(self).overflows(),
    {
        self.read_frame = self.read_frame + count;
        assert forall|k: int| 0 <= k < self@.len() implies #[trigger] self@[k]
            == old(self)@.skip(count as int)[k] by {
            assert(self.read_frame + k == old(self).read_frame + (count + k));
            assert(self.stored(self.read_frame + k) =~= old(self).stored(
                old(self).read_frame + (count + k),
            ));
        }
        assert(self@ =~= old(self)@.skip(count as int));
    }

    /// Appends the frame that begins at `from`.
    fn push_frame(&mut self, source: &[u32], from: usize)
        requires
            old(self).sound(),
            old(self)@.len() < old(self).capacity(),
            old(self).written() < u64::MAX,
            from + old(self).spec_channels() <= source@.len(),
        ensures
            final(self).sound(),
            final(self).same_setup(&*old(self)),
            final(self)@ == old(self)@.push(
                source@.subrange(from as int, from + old(self).spec_channels()),
            ),
            final(self).written() == old(self).written() + 1,
            final(self).spec_primed() == old(self).spec_primed(),
            final(self).between() == old(self).between(),
            final(self).underruns() == old(self).underruns(),
            final(self).overflows() == old(self).overflows(),
    {
        let length: usize = source.len();
        let ghost capacity = self.capacity_frames as int;
        let ghost width = self.channels as int;
        let ghost here = slot(self.write_frame as int, capacity);
        proof {
            lemma_slots(capacity, width, self.write_frame as int, 0);
            lemma_mod_bound(self.write_frame as int, capacity);
            assert(self.buffer.len() == self.buffer@.len());
        }
        let place: usize = (self.write_frame % self.capacity_frames as u64) as usize;
        let base: usize = place * self.channels;
        let mut channel: usize = 0;
        while channel < self.channels
            invariant
                channel <= self.channels,
                self.channels == width,
                self.capacity_frames == capacity,
                base == here * width,
                base + width <= self.buffer.len(),
                from + width <= length,
                length == source@.len(),
                self.buffer@.len() == old(self).buffer@.len(),
                self.write_frame == old(self).write_frame,
                self.read_frame == old(self).read_frame,
                self.target_frames == old(self).target_frames,
                self.primed == old(self).primed,
                self.between_frames == old(self).between_frames,
                self.underrun_frames == old(self).underruns(),
                self.overflow_drop_frames == old(self).overflows(),
                forall|c: int|
                    0 <= c < channel ==> #[trigger] self.buffer@[base + c] == source@[from + c],
                forall|k: int|
                    0 <= k < self.buffer@.len() && !(base <= k < base + width)
                        ==> #[trigger] self.buffer@[k] == old(self).buffer@[k],
            decreases self.channels - channel,
        {
            let sample: u32 = source[from + channel];
            self.buffer.set(base + channel, sample);
            channel += 1;
        }
        self.write_frame = self.write_frame + 1;
        proof {
            let frame = source@.subrange(from as int, from + width);
            let count = old(self)@.len();
            assert forall|k: int| 0 <= k < self@.len() implies #[trigger] self@[k]
                == old(self)@.push(frame)[k] by {
                let number = self.read_frame + k;
                if k < count {
                    lemma_slots_differ(capacity, number, old(self).write_frame as int);
                    lemma_slots(capacity, width, number, old(self).write_frame as int);
                    assert(self.stored(number) =~= old(self).stored(number));
                } else {
                    assert(self.stored(number) =~= frame);
                }
            }
            assert(self@ =~= old(self)@.push(frame));
        }
    }

    /// Appends the frames from `skip` on, given with the channels alternating. There is room for
    /// them.
    fn push_frames(&mut self, source: &[u32], skip: usize, frame_count: usize)
        requires
            old(self).sound(),
            skip <= frame_count,
            frame_count * old(self).spec_channels() <= source@.len(),
            old(self)@.len() + frame_count - skip <= old(self).capacity(),
            old(self).written() + frame_count - skip <= u64::MAX,
        ensures
            final(self).sound(),
            final(self).same_setup(&*old(self)),
            final(self)@ == old(self)@ + frames_of(
                source@,
                old(self).spec_channels(),
                frame_count as nat,
            ).skip(skip as int),
            final(self).written() == old(self).written() + frame_count - skip,
            final(self).spec_primed() == old(self).spec_primed(),
            final(self).between() == old(self).between(),
            final(self).underruns() == old(self).underruns(),
            final(self).overflows() == old(self).overflows(),
    {
        let ghost width = self.channels as int;
        let ghost all = frames_of(source@, width as nat, frame_count as nat);
        let length: usize = source.len();
        proof {
            assert(skip * width <= frame_count * width) by (nonlinear_arith)
                requires
                    0 <= skip <= frame_count,
                    0 < width,
            ;
        }
        let mut from: usize = skip * self.channels;
        let mut index: usize = skip;
        assert(old(self)@ + all.subrange(skip as int, skip as int) =~= old(self)@);
        while index < frame_count
            invariant
                skip <= index <= frame_count,
                length == source@.len(),
                frame_count * width <= length,
                from == index * width,
                0 < width,
                self.sound(),
                self.same_setup(&*old(self)),
                self.spec_channels() == width,
                self.written() == old(self).written() + index - skip,
                old(self).written() + frame_count - skip <= u64::MAX,
                self.spec_primed() == old(self).spec_primed(),
                self.between() == old(self).between(),
                self.underruns() == old(self).underruns(),
                self.overflows() == old(self).overflows(),
                all == frames_of(source@, width as nat, frame_count as nat),
                old(self)@.len() + frame_count - skip <= self.capacity(),
                self@ == old(self)@ + all.subrange(skip as int, index as int),
            decreases frame_count - index,
        {
            proof {
                assert(index * width + width <= frame_count * width) by (nonlinear_arith)
                    requires
                        0 <= index < frame_count,
                        0 < width,
                ;
                assert((index + 1) * width == index * width + width) by (nonlinear_arith);
            }
            self.push_frame(source, from);
            proof {
                let frame = source@.subrange(from as int, from + width);
                assert(all[index as int] =~= frame);
                assert(self@ =~= old(self)@ + all.subrange(skip as int, index + 1));
            }
            from += self.channels;
            index += 1;
        }
        assert(all.subrange(skip as int, index as int) =~= all.skip(skip as int));
    }

    /// Counts frames that were lost.
    fn count_lost(&mut self, count: u64)
        requires
            old(self).sound(),
        ensures
            final(self).sound(),
            final(self).same_setup(&*old(self)),
            final(self)@ == old(self)@,
            final(self).written() == old(self).written(),
            final(self).spec_primed() == old(self).spec_primed(),
            final(self).between() == old(self).between(),
            final(self).underruns() == old(self).underruns(),
            final(self).overflows() == counted(old(self).overflows(), count as nat),
    {
        self.overflow_drop_frames = self.overflow_drop_frames.wrapping_add(count);
        assert(self@ =~= old(self)@);
    }

    /// Appends frames, given with the channels alternating. Where they do not all fit, the oldest
    /// ones are lost, and counted.
    pub fn write(&mut self, source: &[u32], frame_count: usize)
        requires
            old(self).well_formed(),
            frame_count * old(self).spec_channels() <= source@.len(),
            old(self).written() + frame_count <= u64::MAX,
        ensures
            final(self).well_formed(),
            old(self).becomes_by_writing(&*final(self), source@, frame_count as nat),
    {
        let ghost all = frames_of(source@, self.channels as nat, frame_count as nat);
        let ghost waiting = self@;
        assert(waiting.len() == self.write_frame - self.read_frame);
        let skip: usize = if frame_count > self.capacity_frames {
            frame_count - self.capacity_frames
        } else {
            0
        };
        let kept: usize = frame_count - skip;
        let occupancy: u64 = self.write_frame - self.read_frame;
        let free: u64 = self.capacity_frames as u64 - occupancy;
        let drop: u64 = if kept as u64 > free {
            kept as u64 - free
        } else {
            0
        };
        self.drop_oldest(drop);
        self.push_frames(source, skip, frame_count);
        proof {
            lemma_kept(waiting, all, skip as nat, drop as nat, self.capacity());
        }
        self.count_lost(skip as u64 + drop);
        assert(self@.len() == self.write_frame - self.read_frame);
        assert(waiting.len() > 0 ==> self@.len() > 0);
    }

    /// Decides what is played next.
    pub fn next_source(&mut self) -> (source: FrameSource)
        requires
            old(self).well_formed(),
        ensures
            final(self).well_formed(),
            old(self).plays(&*final(self), source),
    {
        let waiting: u64 = self.write_frame - self.read_frame;
        let started: u64 = if self.between_frames {
            1
        } else {
            0
        };
        if !self.primed {
            if (waiting as u128) < self.target_frames as u128 + started as u128 {
                self.underrun_frames = self.underrun_frames.wrapping_add(1);
                assert(self@ =~= old(self)@);
                return FrameSource::Silence;
            }
            self.primed = true;
        }
        if waiting < 2 + started {
            self.underrun_frames = self.underrun_frames.wrapping_add(1);
            assert(self@ =~= old(self)@);
            return FrameSource::Silence;
        }
        proof {
            lemma_slots(
                self.capacity_frames as int,
                self.channels as int,
                self.read_frame as int,
                self.read_frame + 1,
            );
            lemma_slots(
                self.capacity_frames as int,
                self.channels as int,
                self.read_frame + 1,
                self.read_frame as int,
            );
            assert(self.buffer.len() == self.buffer@.len());
        }
        let first: usize = (self.read_frame % self.capacity_frames as u64) as usize
            * self.channels;
        let second: usize = ((self.read_frame + 1) % self.capacity_frames as u64) as usize
            * self.channels;
        proof {
            assert(self@ =~= old(self)@);
            assert(self.samples_at(first) =~= self.stored(self.read_frame as int));
            assert(self.samples_at(second) =~= self.stored(self.read_frame + 1));
        }
        FrameSource::Blend { first, second }
    }

    /// The samples of the frame that begins at the given place of the ring.
    pub closed spec fn samples_at(&self, base: usize) -> Seq<u32> {
        if base + self.channels <= self.buffer@.len() {
            self.buffer@.subrange(base as int, base + self.channels)
        } else {
            Seq::empty()
        }
    }

    /// One sample of the frame that begins at the given place of the ring.
    pub fn sample(&self, base: usize, channel: usize) -> (sample: u32)
        requires
            channel < self.samples_at(base).len(),
        ensures
            sample == self.samples_at(base)[channel as int],
    {
        assert(self.buffer.len() == self.buffer@.len());
        self.buffer[base + channel]
    }

    /// Moves the consumer on by whole frames, and says whether it stands between two frames then.
    /// One frame is left to blend with.
    pub fn advance(&mut self, frames: u64, between_frames: bool)
        requires
            old(self).well_formed(),
            frames < old(self)@.len(),
        ensures
            final(self).well_formed(),
            old(self).moves_on(&*final(self), frames as nat, between_frames),
    {
        self.drop_oldest(frames);
        let ghost held = self@;
        self.between_frames = between_frames;
        assert(self@ =~= held);
    }

    /// Whether the consumer stands between two frames.
    pub fn stands_between(&self) -> (between: bool)
        ensures
            between == self.between(),
    {
        self.between_frames
    }
}

/// However far the consumer has come, what waits is never less than nothing and never more than
/// fits.
pub proof fn law_occupancy_is_in_bounds(ring: AudioRing, passed: nat, whole: nat)
    requires
        ring.well_formed(),
        ring.stands(passed, whole),
    ensures
        0 <= ring.occupancy(passed, whole) <= ring.capacity() * whole,
{
    ring.law_frames_fit();
    let waiting = ring@.len();
    let capacity = ring.capacity();
    assert(waiting * whole <= capacity * whole) by (nonlinear_arith)
        requires
            waiting <= capacity,
    ;
    if waiting > 0 {
        assert(waiting * whole >= whole) by (nonlinear_arith)
            requires
                waiting > 0,
        ;
    }
}

/// So many parts of a frame, rounded up to whole frames.
pub open spec fn rounded_up(parts: int, whole: nat) -> int {
    (parts + whole - 1) / whole as int
}

/// Writing drops what does not fit and nothing else, however far the consumer has come: with what
/// waits rounded up to whole frames, the number of frames beyond the capacity is dropped and
/// counted, what waits grows by the others, the dropped frames are the oldest ones, and the
/// consumer stands where it stood.
pub proof fn law_write_drops_what_does_not_fit(
    before: AudioRing,
    after: AudioRing,
    source: Seq<u32>,
    frame_count: nat,
    passed: nat,
    whole: nat,
)
    requires
        before.well_formed(),
        after.well_formed(),
        before.stands(passed, whole),
        before.becomes_by_writing(&after, source, frame_count),
    ensures
        ({
            let beyond = rounded_up(before.occupancy(passed, whole), whole) + frame_count
                - before.capacity();
            let dropped: nat = if beyond > 0 {
                beyond as nat
            } else {
                0
            };
            &&& after.overflows() == counted(before.overflows(), dropped)
            &&& after@ == (before@ + frames_of(source, before.spec_channels(), frame_count)).skip(
                dropped as int,
            )
            &&& after.stands(passed, whole)
            &&& after.occupancy(passed, whole) == before.occupancy(passed, whole) + (frame_count
                - dropped) * whole
            &&& 0 <= after.occupancy(passed, whole) <= after.capacity() * whole
            &&& after.underruns() == before.underruns()
        }),
{
    before.law_frames_fit();
    law_occupancy_is_in_bounds(after, passed, whole);
    let waiting = before@.len() as int;
    let all = before@ + frames_of(source, before.spec_channels(), frame_count);
    let parts = waiting * whole - passed;
    assert(rounded_up(parts, whole) == waiting) by {
        let rest = whole - 1 - passed;
        assert(parts + whole - 1 == waiting * whole + rest);
        lemma_fundamental_div_mod_converse(parts + whole - 1, whole as int, waiting, rest);
    }
    let dropped = lost((waiting + frame_count) as nat, before.capacity());
    assert(after@ =~= all.skip(dropped as int));
    assert(after@.len() == waiting + frame_count - dropped);
    assert((waiting + (frame_count - dropped)) * whole == waiting * whole + (frame_count - dropped)
        * whole) by (nonlinear_arith);
}

/// The newest frames are kept in their order, as many as there may be, and every other one counts as lost.
pub proof fn law_newest_are_kept_and_the_others_lost(frames: Seq<Seq<u32>>, most: nat)
    ensures
        newest(frames, most).len() + lost(frames.len(), most) == frames.len(),
        newest(frames, most).len() <= most,
        frames.len() <= most ==> lost(frames.len(), most) == 0,
        forall|i: int|
            0 <= i < newest(frames, most).len() ==> #[trigger] newest(frames, most)[i] == frames[i
                + lost(frames.len(), most)],
{
}

/// Samples that alternate between the channels are cut into frames of one sample for each channel, in their
/// order.
pub proof fn law_samples_are_cut_into_frames(
    samples: Seq<u32>,
    channels: nat,
    count: nat,
    frame: int,
    channel: int,
)
    requires
        0 <= frame < count,
        0 <= channel < channels,
    ensures
        frames_of(samples, channels, count).len() == count,
        frames_of(samples, channels, count)[frame].len() == channels,
        frames_of(samples, channels, count)[frame][channel] == samples[frame * channels + channel],
{
}

/// Counting on by some number adds it, and starts over at zero behind the largest one.
pub proof fn law_counts_add_up(count: u64, first: nat, second: nat)
    ensures
        count + first <= u64::MAX ==> counted(count, first) == count + first,
        counted(counted(count, first), second) == counted(count, first + second),
{
}

/// A ring holds as many frames as are wished for, though two at least, of as many channels, though one at
/// least. As many frames are to wait as are wished for, as long as that is at least one and fewer than fit.
pub proof fn law_wishes_are_heeded_within_limits(
    capacity_frames: nat,
    channels: nat,
    target_frames: nat,
)
    ensures
        capacity_frames >= 2 ==> at_least(capacity_frames, 2) == capacity_frames,
        capacity_frames < 2 ==> at_least(capacity_frames, 2) == 2,
        channels >= 1 ==> at_least(channels, 1) == channels,
        channels == 0 ==> at_least(channels, 1) == 1,
        1 <= target_frames < capacity_frames ==> target_within(target_frames, capacity_frames)
            == target_frames,
        capacity_frames >= 2 && target_frames >= capacity_frames ==> target_within(
            target_frames,
            capacity_frames,
        ) == capacity_frames - 1,
        target_within(0, capacity_frames) == 1,
{
}

/// Until so many frames have waited once as are to wait, silence is played, whatever waits; and each frame of
/// silence is counted.
pub proof fn law_silence_is_played_until_enough_frames_wait(
    before: AudioRing,
    after: AudioRing,
    source: FrameSource,
)
    requires
        before.plays(&after, source),
        !before.spec_primed(),
        before@.len() < before.target(),
    ensures
        source is Silence,
        !after.spec_primed(),
        after@ == before@,
        (after.underruns() - before.underruns()) % 0x1_0000_0000_0000_0000 == 1,
{
}

/// Once enough frames have waited, the two oldest ones are blended as long as there are two of them, or three
/// where the consumer has left the first one already. Nothing is lost by that, and it is no underrun.
pub proof fn law_oldest_frames_are_played(
    before: AudioRing,
    after: AudioRing,
    source: FrameSource,
)
    requires
        before.plays(&after, source),
        before.spec_primed() || before@.len() > before.target(),
        before@.len() >= 3 || before@.len() == 2 && !before.between(),
    ensures
        ({
            &&& source matches FrameSource::Blend { first, second }
            &&& after.samples_at(first) == before@[0]
            &&& after.samples_at(second) == before@[1]
        }),
        after.spec_primed(),
        after@ == before@,
        after.underruns() == before.underruns(),
        after.overflows() == before.overflows(),
{
}

/// A ring that has run short plays silence and counts it, and goes on as soon as there are frames again: it
/// need not reach its target once more.
pub proof fn law_ring_that_ran_short_goes_on(
    before: AudioRing,
    after: AudioRing,
    source: FrameSource,
)
    requires
        before.plays(&after, source),
        before.spec_primed(),
        before@.len() < 2 || before@.len() == 2 && before.between(),
    ensures
        source is Silence,
        after.spec_primed(),
        (after.underruns() - before.underruns()) % 0x1_0000_0000_0000_0000 == 1,
        after@ == before@,
{
}

/// Moving on leaves behind as many of the oldest frames as are passed and keeps the others in their order. No
/// count changes by it.
pub proof fn law_passed_frames_are_left_behind(
    before: AudioRing,
    after: AudioRing,
    frames: nat,
    between_frames: bool,
)
    requires
        frames < before@.len(),
        before.moves_on(&after, frames, between_frames),
    ensures
        after@.len() == before@.len() - frames,
        forall|i: int| 0 <= i < after@.len() ==> #[trigger] after@[i] == before@[i + frames],
        after.between() == between_frames,
        after.spec_primed() == before.spec_primed(),
        after.underruns() == before.underruns(),
        after.overflows() == before.overflows(),
        after.capacity() == before.capacity(),
{
}

/// Writing changes neither the settings of a ring nor whether it has begun to play, nor where its consumer
/// stands, nor how much was missing. It counts the frames that came into the ring, which are no more than fit.
pub proof fn law_write_leaves_the_playing_alone(
    before: AudioRing,
    after: AudioRing,
    source: Seq<u32>,
    frame_count: nat,
)
    requires
        before.becomes_by_writing(&after, source, frame_count),
    ensures
        after.capacity() == before.capacity(),
        after.spec_channels() == before.spec_channels(),
        after.target() == before.target(),
        after.spec_primed() == before.spec_primed(),
        after.between() == before.between(),
        after.underruns() == before.underruns(),
        frame_count <= before.capacity() ==> after.written() == before.written() + frame_count,
        frame_count > before.capacity() ==> after.written() == before.written() + before.capacity(),
{
}

/// Deciding what to play changes no setting and counts nothing as written.
pub proof fn law_playing_leaves_the_settings_alone(
    before: AudioRing,
    after: AudioRing,
    source: FrameSource,
)
    requires
        before.plays(&after, source),
    ensures
        after.capacity() == before.capacity(),
        after.spec_channels() == before.spec_channels(),
        after.target() == before.target(),
        after.written() == before.written(),
        after.between() == before.between(),
        after.overflows() == before.overflows(),
        before.spec_primed() ==> after.spec_primed(),
{
}

} // verus!
