//! From the shared memory into the local ring: what an audio device plays is pulled this way.
use crate::audio_ring;
use crate::audio_ring::AudioRing;
use crate::audio_shared_memory;
use crate::audio_shared_memory::{
    AudioSharedMemoryHeader, AudioSharedMemoryReader, AUDIO_MAX_CHANNELS,
};
use vstd::prelude::*;

verus! {

/// The frames that are read from the shared memory at once, at most.
pub const SCRATCH_FRAMES: usize = 4096;

/// The local ring holds this part of a second.
pub const RING_CAPACITY_DIVISOR: u32 = 4;

/// Counters for whoever watches the playback.
#[derive(Clone, Copy, Debug, PartialEq, Eq, Structural)]
pub struct VoiceStatistics {
    /// The whole frames that wait.
    pub occupancy_frames: u64,
    pub underrun_frames: u64,
    pub overflow_frames: u64,
}

/// Why playback cannot begin.
#[derive(Clone, Copy, Debug, PartialEq, Eq, Structural)]
pub enum PrepareError {
    /// No stream has begun, so rate and channels are not known yet.
    FormatNotReady,
}

/// What pulling needs.
pub struct PullContext {
    pub reader: AudioSharedMemoryReader,
    pub ring: AudioRing,
    pub scratch: Vec<u32>,
    pub statistics: VoiceStatistics,
    pub channels: usize,
}

/// The frames of the shared memory from `start` up to `end`.
pub open spec fn shared_frames(memory: Seq<u8>, channels: nat, start: int, end: int) -> Seq<
    Seq<u32>,
> {
    Seq::new(
        (end - start) as nat,
        |i: int|
            Seq::new(channels, |c: int| audio_shared_memory::sample_at(memory, start + i, c)),
    )
}

/// The number of frames that the local ring holds for a stream of the given rate.
pub open spec fn ring_capacity(sample_rate: u32) -> nat {
    if sample_rate / RING_CAPACITY_DIVISOR < 2 {
        2
    } else {
        (sample_rate / RING_CAPACITY_DIVISOR) as nat
    }
}

/// The counters that say how playback stands.
pub open spec fn statistics_of(ring: AudioRing) -> VoiceStatistics {
    VoiceStatistics {
        occupancy_frames: if ring.between() {
            (ring@.len() - 1) as u64
        } else {
            ring@.len() as u64
        },
        underrun_frames: ring.underruns(),
        overflow_frames: ring.overflows(),
    }
}

impl PullContext {
    /// Whether `after` is this context with everything that was not read yet moved into the ring, or left
    /// where it is if the number of channels has changed.
    pub open spec fn drains(&self, memory: Seq<u8>, after: &PullContext) -> bool {
        let header = audio_shared_memory::header_of(memory);
        let start = audio_shared_memory::first_unread(header.write_frames, self.reader.read_frames);
        let fresh = shared_frames(
            memory,
            self.channels as nat,
            start,
            header.write_frames as int,
        );
        if header.channels == self.channels {
            &&& after.reader.read_frames == header.write_frames
            &&& after.ring@ == audio_ring::newest(self.ring@ + fresh, self.ring.capacity())
            &&& after.ring.overflows() == audio_ring::counted(
                self.ring.overflows(),
                audio_ring::lost(self.ring@.len() + fresh.len(), self.ring.capacity()),
            )
        } else {
            &&& after.reader == self.reader
            &&& after.ring@ == self.ring@
            &&& after.ring.overflows() == self.ring.overflows()
        }
    }

    /// Whether a stream with the given header is made ready to be played as the given context.
    pub open spec fn prepared_for(
        header: AudioSharedMemoryHeader,
        target_frames: nat,
        context: &PullContext,
    ) -> bool {
        &&& context.channels == audio_shared_memory::room_for(header.channels as int)
        &&& context.reader.read_frames == 0
        &&& context.ring@ == Seq::<Seq<u32>>::empty()
        &&& context.ring.written() == 0
        &&& !context.ring.spec_primed()
        &&& !context.ring.between()
        &&& context.ring.underruns() == 0
        &&& context.ring.overflows() == 0
        &&& context.ring.capacity() == ring_capacity(header.sample_rate)
        &&& context.ring.target() == audio_ring::target_within(
            target_frames,
            ring_capacity(header.sample_rate),
        )
        &&& context.statistics == (VoiceStatistics {
            occupancy_frames: 0,
            underrun_frames: 0,
            overflow_frames: 0,
        })
    }

    /// Whether a stream with the given header has begun, so that it can be played.
    pub open spec fn is_ready(header: AudioSharedMemoryHeader) -> bool {
        header.sample_rate != 0 && header.channels != 0
    }

    /// What holds between any two pulls.
    pub open spec fn well_formed(&self) -> bool {
        &&& self.ring.well_formed()
        &&& self.ring.spec_channels() == self.channels
        &&& 1 <= self.channels <= AUDIO_MAX_CHANNELS
        &&& self.scratch@.len() == SCRATCH_FRAMES * AUDIO_MAX_CHANNELS
    }

    /// Makes ready to play the stream in a memory, with the given number of frames waiting. Says
    /// at which rate the stream comes.
    pub fn prepare(memory: &[u8], target_frames: usize) -> (prepared: Result<
        (PullContext, u32),
        PrepareError,
    >)
        requires
            audio_shared_memory::mapped(memory@),
            ring_capacity(audio_shared_memory::header_of(memory@).sample_rate) * AUDIO_MAX_CHANNELS
                <= usize::MAX,
        ensures
            ({
                let header = audio_shared_memory::header_of(memory@);
                match prepared {
                    Err(error) => error == PrepareError::FormatNotReady && !PullContext::is_ready(
                        header,
                    ),
                    Ok((context, rate)) => {
                        &&& PullContext::is_ready(header)
                        &&& rate == header.sample_rate
                        &&& context.well_formed()
                        &&& PullContext::prepared_for(header, target_frames as nat, &context)
                    },
                }
            }),
    {
        let reader: AudioSharedMemoryReader = AudioSharedMemoryReader::open();
        let (rate, channels, _active) = reader.format(memory);
        if rate == 0 || channels == 0 {
            return Err(PrepareError::FormatNotReady);
        }
        let channels: usize = if channels < AUDIO_MAX_CHANNELS as u32 {
            channels as usize
        } else {
            AUDIO_MAX_CHANNELS
        };
        let capacity: usize = if rate / RING_CAPACITY_DIVISOR < 2 {
            2
        } else {
            (rate / RING_CAPACITY_DIVISOR) as usize
        };
        proof {
            assert(capacity * channels <= capacity * AUDIO_MAX_CHANNELS) by (nonlinear_arith)
                requires
                    0 <= channels <= AUDIO_MAX_CHANNELS,
                    0 <= capacity,
            ;
        }
        let context = PullContext {
            reader,
            ring: AudioRing::new(capacity, channels, target_frames),
            scratch: vec![0u32; SCRATCH_FRAMES * AUDIO_MAX_CHANNELS],
            statistics: VoiceStatistics {
                occupancy_frames: 0,
                underrun_frames: 0,
                overflow_frames: 0,
            },
            channels,
        };
        Ok((context, rate))
    }

    /// Moves everything that was not read yet from the shared memory into the ring. Where the
    /// number of channels has changed nothing is moved: silence is to be played until playback is
    /// set up anew.
    #[verifier::spinoff_prover]
    #[verifier::rlimit(30)]
    pub fn drain(&mut self, memory: &[u8]) -> (same_format: bool)
        requires
            audio_shared_memory::mapped(memory@),
            old(self).well_formed(),
            old(self).ring.written() + audio_shared_memory::AUDIO_RING_FRAMES <= u64::MAX,
        ensures
            final(self).well_formed(),
            final(self).channels == old(self).channels,
            final(self).statistics == old(self).statistics,
            final(self).ring.same_setup(&old(self).ring),
            final(self).ring.spec_primed() == old(self).ring.spec_primed(),
            final(self).ring.between() == old(self).ring.between(),
            final(self).ring.underruns() == old(self).ring.underruns(),
            ({
                let header = audio_shared_memory::header_of(memory@);
                same_format == (header.channels == old(self).channels)
            }),
            old(self).drains(memory@, &*final(self)),
    {
        let (_rate, channels, _active) = self.reader.format(memory);
        if channels as usize != self.channels {
            return false;
        }
        let ghost write = audio_shared_memory::header_of(memory@).write_frames;
        let ghost start = audio_shared_memory::first_unread(write, self.reader.read_frames);
        let ghost width = self.channels as nat;
        let ghost waiting = self.ring@;
        let ghost capacity = self.ring.capacity();
        let mut more: bool = true;
        proof {
            self.ring.law_frames_fit();
            assert(shared_frames(memory@, width, start, start) =~= Seq::<Seq<u32>>::empty());
            assert(waiting + Seq::<Seq<u32>>::empty() =~= waiting);
        }
        while more
            invariant
                audio_shared_memory::mapped(memory@),
                write == audio_shared_memory::header_of(memory@).write_frames,
                channels == audio_shared_memory::header_of(memory@).channels,
                channels == width,
                start == audio_shared_memory::first_unread(write, old(self).reader.read_frames),
                self.channels == width,
                self.well_formed(),
                self.statistics == old(self).statistics,
                self.ring.same_setup(&old(self).ring),
                self.ring.capacity() == capacity,
                self.ring.spec_primed() == old(self).ring.spec_primed(),
                self.ring.between() == old(self).ring.between(),
                self.ring.underruns() == old(self).ring.underruns(),
                waiting.len() <= capacity,
                waiting == old(self).ring@,
                old(self).ring.written() + audio_shared_memory::AUDIO_RING_FRAMES <= u64::MAX,
                start <= audio_shared_memory::first_unread(write, self.reader.read_frames) <= write,
                !more ==> self.reader.read_frames == write,
                self.ring.written() <= old(self).ring.written()
                    + audio_shared_memory::first_unread(write, self.reader.read_frames) - start,
                self.ring@ == audio_ring::newest(
                    waiting + shared_frames(
                        memory@,
                        width,
                        start,
                        audio_shared_memory::first_unread(write, self.reader.read_frames),
                    ),
                    capacity,
                ),
                self.ring.overflows() == audio_ring::counted(
                    old(self).ring.overflows(),
                    audio_ring::lost(
                        (waiting.len() + audio_shared_memory::first_unread(
                            write,
                            self.reader.read_frames,
                        ) - start) as nat,
                        capacity,
                    ),
                ),
            decreases
                    write - audio_shared_memory::first_unread(write, self.reader.read_frames) + if more {
                        1int
                    } else {
                        0int
                    },
        {
            let ghost from = audio_shared_memory::first_unread(write, self.reader.read_frames);
            let ghost earlier = shared_frames(memory@, width, start, from);
            let ghost count = audio_shared_memory::readable(
                write,
                self.reader.read_frames,
                SCRATCH_FRAMES as int,
            );
            proof {
                assert(count * channels <= SCRATCH_FRAMES * AUDIO_MAX_CHANNELS) by (nonlinear_arith)
                    requires
                        0 <= count <= SCRATCH_FRAMES,
                        0 <= channels <= AUDIO_MAX_CHANNELS,
                ;
            }
            let (got, _channels) = self.reader.read(
                memory,
                self.scratch.as_mut_slice(),
                SCRATCH_FRAMES,
            );
            if got > 0 {
                self.ring.write(self.scratch.as_slice(), got);
                proof {
                    let fresh = audio_ring::frames_of(self.scratch@, width, got as nat);
                    let next = shared_frames(memory@, width, from, from + got);
                    assert forall|i: int| 0 <= i < got implies #[trigger] fresh[i] == next[i] by {
                        assert forall|c: int| 0 <= c < width implies #[trigger] fresh[i][c]
                            == next[i][c] by {
                            assert(fresh[i][c] == audio_shared_memory::interleaved(
                                self.scratch@,
                                width as int,
                                i,
                                c,
                            ));
                        }
                        assert(fresh[i] =~= next[i]);
                    }
                    assert(fresh =~= next);
                    assert(earlier + next =~= shared_frames(memory@, width, start, from + got));
                    audio_ring::law_parts_come_to_the_whole(waiting, earlier, next, capacity);
                }
            }
            if got < SCRATCH_FRAMES {
                more = false;
            }
        }
        true
    }

    /// Takes note of how playback stands.
    pub fn record(&mut self)
        requires
            old(self).well_formed(),
        ensures
            final(self).well_formed(),
            final(self).channels == old(self).channels,
            final(self).reader == old(self).reader,
            final(self).ring == old(self).ring,
            final(self).statistics == statistics_of(old(self).ring),
    {
        proof {
            self.ring.law_frames_fit();
        }
        let waiting: u64 = self.ring.waiting_frames();
        self.statistics = VoiceStatistics {
            occupancy_frames: if self.ring.stands_between() {
                waiting - 1
            } else {
                waiting
            },
            underrun_frames: self.ring.underrun_frames(),
            overflow_frames: self.ring.overflow_drop_frames(),
        };
    }
}

/// The ring holds a quarter of a second, rounded down to whole frames, though two frames at least.
pub proof fn law_ring_holds_a_quarter_of_a_second(sample_rate: u32)
    ensures
        sample_rate >= 8 ==> ring_capacity(sample_rate) * 4 <= sample_rate < (ring_capacity(
            sample_rate,
        ) + 1) * 4,
        sample_rate < 8 ==> ring_capacity(sample_rate) == 2,
{
}

/// A stream can be played once both its rate and its number of channels are known.
pub proof fn law_stream_is_ready_once_its_format_is_known(header: AudioSharedMemoryHeader)
    ensures
        PullContext::is_ready(header) <==> header.sample_rate > 0 && header.channels > 0,
{
}

/// Playback begins with an empty ring, from the oldest frame that is still there, with the stream's channels,
/// eight at most, and with nothing counted.
pub proof fn law_playback_begins_with_nothing(
    header: AudioSharedMemoryHeader,
    target_frames: nat,
    context: PullContext,
)
    requires
        PullContext::prepared_for(header, target_frames, &context),
    ensures
        context.ring@.len() == 0,
        context.ring.written() == 0,
        context.ring.underruns() == 0,
        context.ring.overflows() == 0,
        !context.ring.spec_primed(),
        !context.ring.between(),
        context.reader.read_frames == 0,
        header.channels <= 8 ==> context.channels == header.channels,
        header.channels > 8 ==> context.channels == 8,
        context.ring.capacity() == ring_capacity(header.sample_rate),
        1 <= target_frames < ring_capacity(header.sample_rate) ==> context.ring.target()
            == target_frames,
        context.statistics.occupancy_frames == 0,
        context.statistics.underrun_frames == 0,
        context.statistics.overflow_frames == 0,
{
}

/// As long as there is room, every frame that the reader has not read comes into the ring, in its order and
/// sample for sample, behind what waits there; and none comes a second time.
pub proof fn law_unread_frames_come_into_the_ring(
    before: PullContext,
    memory: Seq<u8>,
    after: PullContext,
    frame: int,
    channel: int,
)
    requires
        before.drains(memory, &after),
        audio_shared_memory::header_of(memory).channels == before.channels,
        before.reader.read_frames <= frame < audio_shared_memory::header_of(memory).write_frames,
        audio_shared_memory::header_of(memory).write_frames - before.reader.read_frames <= 48_000,
        before.ring@.len() + audio_shared_memory::header_of(memory).write_frames
            - before.reader.read_frames <= before.ring.capacity(),
        0 <= channel < before.channels,
    ensures
        ({
            let write = audio_shared_memory::header_of(memory).write_frames;
            let at = before.ring@.len() + frame - before.reader.read_frames;
            &&& after.ring@.len() == before.ring@.len() + write - before.reader.read_frames
            &&& after.ring@.take(before.ring@.len() as int) == before.ring@
            &&& after.ring@[at][channel] == audio_shared_memory::sample_at(memory, frame, channel)
            &&& after.reader.read_frames == write
            &&& audio_shared_memory::first_unread(write, after.reader.read_frames) == write
        }),
{
    assert(after.ring@.take(before.ring@.len() as int) =~= before.ring@);
}

/// Where the number of channels has changed nothing is moved, and nothing is lost.
pub proof fn law_other_format_is_left_alone(
    before: PullContext,
    memory: Seq<u8>,
    after: PullContext,
)
    requires
        before.drains(memory, &after),
        audio_shared_memory::header_of(memory).channels != before.channels,
    ensures
        after.reader.read_frames == before.reader.read_frames,
        after.ring@ == before.ring@,
        after.ring.overflows() == before.ring.overflows(),
{
}

/// The counters tell how many whole frames wait, without the one that the consumer has left, and how many
/// were missing and how many were lost.
pub proof fn law_counters_tell_how_playback_stands(ring: AudioRing)
    requires
        ring.well_formed(),
        ring.capacity() <= u64::MAX,
    ensures
        !ring.between() ==> statistics_of(ring).occupancy_frames == ring@.len(),
        ring.between() ==> statistics_of(ring).occupancy_frames + 1 == ring@.len(),
        statistics_of(ring).underrun_frames == ring.underruns(),
        statistics_of(ring).overflow_frames == ring.overflows(),
{
    ring.law_frames_fit();
}

} // verus!
