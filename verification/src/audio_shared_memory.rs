//! The memory that a browser's audio is shared through: a header and a ring of samples.
//!
//! The ring is counted in frames, that is, one sample for each channel. Every frame takes the same
//! room whatever the number of channels, so that its place depends on its number alone. A sample is
//! kept as the four bytes of a floating-point number; here it is the `u32` with the same bytes, and
//! 0 is silence.
use crate::bytes;
use crate::bytes::{get_u32, get_u64, put_u32, put_u64};
use vstd::prelude::*;

verus! {

/// The number of channels that a frame has room for.
pub const AUDIO_MAX_CHANNELS: usize = 8;

/// The number of frames in the ring: one second at the usual rate.
pub const AUDIO_RING_FRAMES: usize = 48_000;

/// The number of samples in the ring.
pub const AUDIO_RING_SAMPLES: usize = 384_000;

/// The bytes of the ring.
pub const AUDIO_RING_BYTES: usize = 1_536_000;

/// The bytes of the header.
pub const AUDIO_SHARED_MEMORY_HEADER_SIZE: usize = 64;

/// The bytes of the header and the ring.
pub const AUDIO_SHARED_MEMORY_TOTAL_SIZE: usize = 1_536_064;

/// What the header holds.
#[derive(Clone, Copy, Debug, PartialEq, Eq, Structural)]
pub struct AudioSharedMemoryHeader {
    pub sample_rate: u32,
    pub channels: u32,
    /// 1 while the stream plays, 0 otherwise.
    pub stream_active: u32,
    /// The frames written since the stream began.
    pub write_frames: u64,
    pub ring_frames: u32,
}

/// The header of a memory.
pub open spec fn header_of(memory: Seq<u8>) -> AudioSharedMemoryHeader {
    AudioSharedMemoryHeader {
        sample_rate: bytes::u32_at(memory, 0),
        channels: bytes::u32_at(memory, 4),
        stream_active: bytes::u32_at(memory, 8),
        write_frames: bytes::u64_at(memory, 16),
        ring_frames: bytes::u32_at(memory, 24),
    }
}

/// Whether a memory is as large as it has to be.
pub open spec fn mapped(memory: Seq<u8>) -> bool {
    memory.len() >= AUDIO_SHARED_MEMORY_TOTAL_SIZE
}

/// The place in the ring of the frame with the given number.
pub open spec fn place(frame: int) -> int {
    frame % 48_000
}

/// Where a sample stands in the memory.
pub open spec fn sample_offset(frame: int, channel: int) -> int {
    AUDIO_SHARED_MEMORY_HEADER_SIZE + (place(frame) * 8 + channel) * 4
}

/// The sample of a frame in a channel.
pub open spec fn sample_at(memory: Seq<u8>, frame: int, channel: int) -> u32 {
    bytes::u32_at(memory, sample_offset(frame, channel))
}

/// Whether two memories have the same ring.
pub open spec fn same_ring(before: Seq<u8>, after: Seq<u8>) -> bool {
    bytes::same_outside(before, after, 0, AUDIO_SHARED_MEMORY_HEADER_SIZE as int)
}

/// A number of channels, cut down to those that there is room for.
pub open spec fn room_for(channels: int) -> int {
    if channels < AUDIO_MAX_CHANNELS {
        channels
    } else {
        AUDIO_MAX_CHANNELS as int
    }
}

/// The first frame that a reader gets that has read up to `read_frames`: the next one, or the
/// oldest one still in the ring, or, where the stream began anew, the newest one.
pub open spec fn first_unread(write_frames: u64, read_frames: u64) -> int {
    if write_frames < read_frames {
        write_frames as int
    } else if write_frames - read_frames > AUDIO_RING_FRAMES {
        write_frames - AUDIO_RING_FRAMES
    } else {
        read_frames as int
    }
}

/// The number of frames that a reader gets at once.
pub open spec fn readable(write_frames: u64, read_frames: u64, max_frames: int) -> int {
    let unread = write_frames - first_unread(write_frames, read_frames);
    if unread < max_frames {
        unread
    } else {
        max_frames
    }
}

/// The sample of a frame in a channel, in samples that alternate between the channels.
pub open spec fn interleaved(samples: Seq<u32>, channels: int, frame: int, channel: int) -> u32 {
    samples[frame * channels + channel]
}

/// Frames that are less than a ring apart have different places.
proof fn lemma_places_differ(first: int, second: int)
    requires
        0 <= first,
        0 <= second,
        first != second,
        -48_000 < first - second < 48_000,
    ensures
        place(first) != place(second),
{
}

/// A sample stands inside the ring.
proof fn lemma_sample_inside(frame: int, channel: int)
    requires
        0 <= frame,
        0 <= channel < AUDIO_MAX_CHANNELS,
    ensures
        AUDIO_SHARED_MEMORY_HEADER_SIZE <= sample_offset(frame, channel),
        sample_offset(frame, channel) + 4 <= AUDIO_SHARED_MEMORY_TOTAL_SIZE,
{
}

impl AudioSharedMemoryHeader {
    /// Reads the header of a memory.
    pub fn load(memory: &[u8]) -> (header: AudioSharedMemoryHeader)
        requires
            mapped(memory@),
        ensures
            header == header_of(memory@),
    {
        AudioSharedMemoryHeader {
            sample_rate: get_u32(memory, 0),
            channels: get_u32(memory, 4),
            stream_active: get_u32(memory, 8),
            write_frames: get_u64(memory, 16),
            ring_frames: get_u32(memory, 24),
        }
    }
}

/// Writes one sample.
fn put_sample(memory: &mut [u8], frame: u64, channel: usize, sample: u32)
    requires
        mapped(old(memory)@),
        channel < AUDIO_MAX_CHANNELS,
    ensures
        final(memory)@.len() == old(memory)@.len(),
        sample_at(final(memory)@, frame as int, channel as int) == sample,
        forall|f: int, c: int|
            0 <= f && 0 <= c < AUDIO_MAX_CHANNELS && (place(f) != place(frame as int) || c
                != channel) ==> #[trigger] sample_at(final(memory)@, f, c) == sample_at(
                old(memory)@,
                f,
                c,
            ),
        header_of(final(memory)@) == header_of(old(memory)@),
{
    proof {
        lemma_sample_inside(frame as int, channel as int);
    }
    let ring_frame: usize = (frame % AUDIO_RING_FRAMES as u64) as usize;
    let at: usize = AUDIO_SHARED_MEMORY_HEADER_SIZE + (ring_frame * AUDIO_MAX_CHANNELS + channel)
        * 4;
    put_u32(memory, at, sample);
    assert forall|f: int, c: int|
        0 <= f && 0 <= c < AUDIO_MAX_CHANNELS && (place(f) != place(frame as int) || c
            != channel) implies #[trigger] sample_at(memory@, f, c) == sample_at(
        old(memory)@,
        f,
        c,
    ) by {
        lemma_sample_inside(f, c);
        let other = sample_offset(f, c);
        assert(other + 4 <= at || at + 4 <= other);
    }
}

/// Writes one frame: the samples at `index` of the first `channels` planes.
fn put_frame_samples(
    memory: &mut [u8],
    frame: u64,
    planes: &[Vec<u32>],
    index: usize,
    channels: usize,
)
    requires
        mapped(old(memory)@),
        channels <= AUDIO_MAX_CHANNELS,
        channels <= planes@.len(),
        forall|c: int| 0 <= c < channels ==> index < (#[trigger] planes@[c])@.len(),
    ensures
        final(memory)@.len() == old(memory)@.len(),
        forall|c: int|
            0 <= c < channels ==> #[trigger] sample_at(final(memory)@, frame as int, c)
                == planes@[c]@[index as int],
        forall|f: int, c: int|
            0 <= f && 0 <= c < AUDIO_MAX_CHANNELS && (place(f) != place(frame as int) || c
                >= channels) ==> #[trigger] sample_at(final(memory)@, f, c) == sample_at(
                old(memory)@,
                f,
                c,
            ),
        header_of(final(memory)@) == header_of(old(memory)@),
{
    let mut channel: usize = 0;
    while channel < channels
        invariant
            channel <= channels <= AUDIO_MAX_CHANNELS,
            channels <= planes@.len(),
            mapped(memory@),
            memory@.len() == old(memory)@.len(),
            forall|c: int| 0 <= c < channels ==> index < (#[trigger] planes@[c])@.len(),
            forall|c: int|
                0 <= c < channel ==> #[trigger] sample_at(memory@, frame as int, c)
                    == planes@[c]@[index as int],
            forall|f: int, c: int|
                0 <= f && 0 <= c < AUDIO_MAX_CHANNELS && (place(f) != place(frame as int) || c
                    >= channel) ==> #[trigger] sample_at(memory@, f, c) == sample_at(
                    old(memory)@,
                    f,
                    c,
                ),
            header_of(memory@) == header_of(old(memory)@),
        decreases channels - channel,
    {
        assert(index < planes@[channel as int]@.len());
        put_sample(memory, frame, channel, planes[channel][index]);
        channel += 1;
    }
}

/// Whether `after` is `before` with frames written: `planes` holds, for each channel, the samples of
/// `frames` frames. What has left the ring again on the way need not be found; everything else that
/// was in the ring is still there.
pub open spec fn packet_written(
    before: Seq<u8>,
    after: Seq<u8>,
    planes: Seq<Vec<u32>>,
    frames: int,
    channels: int,
) -> bool {
    let start = header_of(before).write_frames;
    &&& after.len() == before.len()
    &&& header_of(after) == AudioSharedMemoryHeader {
        write_frames: (start + frames) as u64,
        ..header_of(before)
    }
    &&& forall|i: int, c: int|
        0 <= i < frames && frames - AUDIO_RING_FRAMES <= i && 0 <= c < room_for(channels)
            ==> #[trigger] sample_at(after, start + i, c) == planes[c]@[i]
    &&& forall|i: int, c: int|
        frames <= i < AUDIO_RING_FRAMES && 0 <= c < AUDIO_MAX_CHANNELS ==> #[trigger] sample_at(
            after,
            start + i,
            c,
        ) == sample_at(before, start + i, c)
    &&& forall|f: int, c: int|
        0 <= f && room_for(channels) <= c < AUDIO_MAX_CHANNELS ==> #[trigger] sample_at(after, f, c)
            == sample_at(before, f, c)
}

/// The header once a stream has begun.
pub open spec fn started(
    header: AudioSharedMemoryHeader,
    sample_rate: u32,
    channels: u32,
) -> AudioSharedMemoryHeader {
    AudioSharedMemoryHeader {
        sample_rate,
        channels: room_for(channels as int) as u32,
        stream_active: 1,
        write_frames: 0,
        ..header
    }
}

/// The header once the stream has ended.
pub open spec fn stopped(header: AudioSharedMemoryHeader) -> AudioSharedMemoryHeader {
    AudioSharedMemoryHeader { stream_active: 0, ..header }
}

/// The sample rate, the number of channels, and whether a stream plays.
pub open spec fn format_in(header: AudioSharedMemoryHeader) -> (u32, u32, bool) {
    (header.sample_rate, header.channels, header.stream_active != 0)
}

/// The server's end of a memory.
pub struct AudioSharedMemoryWriter {
    pub flink: String,
}

impl AudioSharedMemoryWriter {
    /// Takes a memory into use: no stream plays, and the header says how long the ring is.
    pub fn new(flink: &str, memory: &mut [u8]) -> (writer: AudioSharedMemoryWriter)
        requires
            mapped(old(memory)@),
        ensures
            writer.flink@ == flink@,
            header_of(final(memory)@) == (AudioSharedMemoryHeader {
                sample_rate: 0,
                channels: 0,
                stream_active: 0,
                write_frames: 0,
                ring_frames: AUDIO_RING_FRAMES as u32,
            }),
            same_ring(old(memory)@, final(memory)@),
    {
        let mut index: usize = 0;
        while index < AUDIO_SHARED_MEMORY_HEADER_SIZE
            invariant
                index <= AUDIO_SHARED_MEMORY_HEADER_SIZE,
                mapped(memory@),
                same_ring(old(memory)@, memory@),
                forall|i: int| 0 <= i < index ==> #[trigger] memory@[i] == 0,
            decreases AUDIO_SHARED_MEMORY_HEADER_SIZE - index,
        {
            memory[index] = 0;
            index += 1;
        }
        put_u32(memory, 24, AUDIO_RING_FRAMES as u32);
        AudioSharedMemoryWriter { flink: flink.to_owned() }
    }

    /// Begins a stream. There is room for a limited number of channels; the others are left out.
    pub fn start_stream(&self, memory: &mut [u8], sample_rate: u32, channels: u32)
        requires
            mapped(old(memory)@),
        ensures
            header_of(final(memory)@) == started(header_of(old(memory)@), sample_rate, channels),
            same_ring(old(memory)@, final(memory)@),
    {
        let clamped_channels: u32 = if channels < AUDIO_MAX_CHANNELS as u32 {
            channels
        } else {
            AUDIO_MAX_CHANNELS as u32
        };
        put_u64(memory, 16, 0);
        put_u32(memory, 0, sample_rate);
        put_u32(memory, 4, clamped_channels);
        put_u32(memory, 8, 1);
    }

    /// Ends the stream.
    pub fn stop_stream(&self, memory: &mut [u8])
        requires
            mapped(old(memory)@),
        ensures
            header_of(final(memory)@) == stopped(header_of(old(memory)@)),
            same_ring(old(memory)@, final(memory)@),
    {
        put_u32(memory, 8, 0);
    }

    /// The number of channels of the stream.
    pub fn channels(&self, memory: &[u8]) -> (channels: usize)
        requires
            mapped(memory@),
        ensures
            channels == header_of(memory@).channels,
    {
        get_u32(memory, 4) as usize
    }

    /// Writes the samples of some frames, given channel by channel, into the ring.
    pub fn write_packet(&self, memory: &mut [u8], planes: &[Vec<u32>], frames: usize)
        requires
            mapped(old(memory)@),
            header_of(old(memory)@).write_frames + frames <= u64::MAX,
            forall|c: int|
                0 <= c < room_for(planes@.len() as int) ==> frames <= (#[trigger] planes@[c])@.len(),
        ensures
            frames == 0 || planes@.len() == 0 ==> final(memory)@ == old(memory)@,
            frames > 0 && planes@.len() > 0 ==> packet_written(
                old(memory)@,
                final(memory)@,
                planes@,
                frames as int,
                planes@.len() as int,
            ),
    {
        let channels: usize = planes.len();
        if frames == 0 || channels == 0 {
            return;
        }
        let clamped_channels: usize = if channels < AUDIO_MAX_CHANNELS {
            channels
        } else {
            AUDIO_MAX_CHANNELS
        };
        let start: u64 = get_u64(memory, 16);
        let mut frame_index: usize = 0;
        while frame_index < frames
            invariant
                frame_index <= frames,
                mapped(memory@),
                memory@.len() == old(memory)@.len(),
                start == header_of(old(memory)@).write_frames,
                start + frames <= u64::MAX,
                clamped_channels == room_for(channels as int),
                channels == planes@.len(),
                forall|c: int|
                    0 <= c < clamped_channels ==> frames <= (#[trigger] planes@[c])@.len(),
                header_of(memory@) == header_of(old(memory)@),
                forall|i: int, c: int|
                    0 <= i < frame_index && frame_index - AUDIO_RING_FRAMES <= i && 0 <= c
                        < clamped_channels ==> #[trigger] sample_at(memory@, start + i, c)
                        == planes@[c]@[i],
                forall|i: int, c: int|
                    frame_index <= i < AUDIO_RING_FRAMES && 0 <= c < AUDIO_MAX_CHANNELS
                        ==> #[trigger] sample_at(memory@, start + i, c) == sample_at(
                        old(memory)@,
                        start + i,
                        c,
                    ),
                forall|f: int, c: int|
                    0 <= f && clamped_channels <= c < AUDIO_MAX_CHANNELS ==> #[trigger] sample_at(
                        memory@,
                        f,
                        c,
                    ) == sample_at(old(memory)@, f, c),
            decreases frames - frame_index,
        {
            let frame: u64 = start + frame_index as u64;
            let ghost before = memory@;
            put_frame_samples(memory, frame, planes, frame_index, clamped_channels);
            proof {
                assert forall|i: int, c: int|
                    0 <= i < frame_index + 1 && frame_index + 1 - AUDIO_RING_FRAMES <= i && 0 <= c
                        < clamped_channels implies #[trigger] sample_at(memory@, start + i, c)
                    == planes@[c]@[i] by {
                    if i < frame_index {
                        lemma_places_differ(start + i, frame as int);
                        assert(sample_at(before, start + i, c) == planes@[c]@[i]);
                    }
                }
                assert forall|i: int, c: int|
                    frame_index + 1 <= i < AUDIO_RING_FRAMES && 0 <= c
                        < AUDIO_MAX_CHANNELS implies #[trigger] sample_at(memory@, start + i, c)
                    == sample_at(old(memory)@, start + i, c) by {
                    lemma_places_differ(start + i, frame as int);
                    assert(sample_at(before, start + i, c) == sample_at(
                        old(memory)@,
                        start + i,
                        c,
                    ));
                }
            }
            frame_index += 1;
        }
        let ghost before = memory@;
        put_u64(memory, 16, start + frames as u64);
        proof {
            assert forall|f: int, c: int|
                0 <= f && 0 <= c < AUDIO_MAX_CHANNELS implies #[trigger] sample_at(memory@, f, c)
                == sample_at(before, f, c) by {
                lemma_sample_inside(f, c);
            }
        }
    }
}

/// The client's end of a memory, and how far it has read.
#[derive(Clone, Copy, Debug, PartialEq, Eq, Structural)]
pub struct AudioSharedMemoryReader {
    pub read_frames: u64,
}

/// Whether `after` is `before` with frames read into it from the front on: frames of the ring from
/// `start` on, with the channels alternating, and silence for the channels beyond those that there
/// is room for.
pub open spec fn frames_read(
    memory: Seq<u8>,
    start: int,
    count: int,
    channels: int,
    before: Seq<u32>,
    after: Seq<u32>,
) -> bool {
    &&& after.len() == before.len()
    &&& forall|i: int, c: int|
        0 <= i < count && 0 <= c < channels ==> #[trigger] interleaved(after, channels, i, c)
            == if c < AUDIO_MAX_CHANNELS {
            sample_at(memory, start + i, c)
        } else {
            0
        }
    &&& forall|k: int| count * channels <= k < before.len() ==> #[trigger] after[k] == before[k]
}

/// A sample of one of `count` frames stands among the first `count * channels`.
proof fn lemma_interleaved_inside(channels: int, count: int, i: int, c: int)
    requires
        0 <= i < count,
        0 <= c < channels,
    ensures
        0 <= i * channels,
        i * channels + c < i * channels + channels <= count * channels,
{
    assert(0 <= i * channels && (i + 1) * channels <= count * channels && (i + 1) * channels == i
        * channels + channels) by (nonlinear_arith)
        requires
            0 <= i < count,
            0 < channels,
    ;
}

/// Reads one frame: its samples stand in `out` from `offset` on.
fn get_frame_samples(memory: &[u8], frame: u64, out: &mut [u32], offset: usize, channels: usize)
    requires
        mapped(memory@),
        offset + channels <= old(out).len(),
    ensures
        final(out)@.len() == old(out)@.len(),
        forall|c: int|
            0 <= c < channels ==> #[trigger] final(out)@[offset + c] == if c < AUDIO_MAX_CHANNELS {
                sample_at(memory@, frame as int, c)
            } else {
                0
            },
        forall|k: int|
            0 <= k < old(out)@.len() && !(offset <= k < offset + channels)
                ==> #[trigger] final(out)@[k] == old(out)@[k],
{
    let ring_frame: usize = (frame % AUDIO_RING_FRAMES as u64) as usize;
    let mut channel: usize = 0;
    while channel < channels
        invariant
            channel <= channels,
            mapped(memory@),
            offset + channels <= out.len(),
            out@.len() == old(out)@.len(),
            ring_frame == place(frame as int),
            ring_frame < AUDIO_RING_FRAMES,
            forall|c: int|
                0 <= c < channel ==> #[trigger] out@[offset + c] == if c < AUDIO_MAX_CHANNELS {
                    sample_at(memory@, frame as int, c)
                } else {
                    0
                },
            forall|k: int|
                0 <= k < old(out)@.len() && !(offset <= k < offset + channel)
                    ==> #[trigger] out@[k] == old(out)@[k],
        decreases channels - channel,
    {
        if channel < AUDIO_MAX_CHANNELS {
            proof {
                lemma_sample_inside(frame as int, channel as int);
            }
            let at: usize = AUDIO_SHARED_MEMORY_HEADER_SIZE + (ring_frame * AUDIO_MAX_CHANNELS
                + channel) * 4;
            out[offset + channel] = get_u32(memory, at);
        } else {
            out[offset + channel] = 0;
        }
        channel += 1;
    }
}

impl AudioSharedMemoryReader {
    /// A reader that has read nothing yet.
    pub fn open() -> (reader: AudioSharedMemoryReader)
        ensures
            reader.read_frames == 0,
    {
        AudioSharedMemoryReader { read_frames: 0 }
    }

    /// The sample rate, the number of channels, and whether a stream plays.
    pub fn format(&self, memory: &[u8]) -> (format: (u32, u32, bool))
        requires
            mapped(memory@),
        ensures
            format == format_in(header_of(memory@)),
    {
        (get_u32(memory, 0), get_u32(memory, 4), get_u32(memory, 8) != 0)
    }

    /// Reads frames that were not read yet, at most `max_frames`, with the channels alternating.
    /// Says how many frames there were, and how many channels.
    pub fn read(&mut self, memory: &[u8], out: &mut [u32], max_frames: usize) -> (result: (
        usize,
        usize,
    ))
        requires
            mapped(memory@),
            readable(
                header_of(memory@).write_frames,
                old(self).read_frames,
                max_frames as int,
            ) * header_of(memory@).channels <= old(out)@.len(),
        ensures
            ({
                let header = header_of(memory@);
                let start = first_unread(header.write_frames, old(self).read_frames);
                let count = readable(
                    header.write_frames,
                    old(self).read_frames,
                    max_frames as int,
                );
                if header.channels == 0 {
                    &&& result == (0usize, 0usize)
                    &&& *final(self) == *old(self)
                    &&& final(out)@ == old(out)@
                } else {
                    &&& result.0 == count
                    &&& result.1 == header.channels
                    &&& final(self).read_frames == start + count
                    &&& frames_read(
                        memory@,
                        start,
                        count,
                        header.channels as int,
                        old(out)@,
                        final(out)@,
                    )
                }
            }),
    {
        let channels: usize = get_u32(memory, 4) as usize;
        if channels == 0 {
            return (0, 0);
        }
        let write: u64 = get_u64(memory, 16);
        if write < self.read_frames {
            self.read_frames = write;
        }
        let mut available: u64 = write - self.read_frames;
        if available > AUDIO_RING_FRAMES as u64 {
            self.read_frames = write - AUDIO_RING_FRAMES as u64;
            available = AUDIO_RING_FRAMES as u64;
        }
        let to_read: usize = if available < max_frames as u64 {
            available as usize
        } else {
            max_frames
        };
        let start: u64 = self.read_frames;
        let mut frame_index: usize = 0;
        let mut offset: usize = 0;
        let ghost room: int = out@.len() as int;
        while frame_index < to_read
            invariant
                frame_index <= to_read,
                offset == frame_index * channels,
                channels > 0,
                to_read * channels <= room,
                room == out.len(),
                room == out@.len(),
                mapped(memory@),
                start + to_read <= u64::MAX,
                frames_read(
                    memory@,
                    start as int,
                    frame_index as int,
                    channels as int,
                    old(out)@,
                    out@,
                ),
            decreases to_read - frame_index,
        {
            let ghost before = out@;
            proof {
                lemma_interleaved_inside(channels as int, to_read as int, frame_index as int, 0);
                assert((frame_index + 1) * channels == frame_index * channels + channels)
                    by (nonlinear_arith);
            }
            get_frame_samples(memory, start + frame_index as u64, out, offset, channels);
            proof {
                assert forall|i: int, c: int|
                    0 <= i < frame_index + 1 && 0 <= c
                        < channels implies #[trigger] interleaved(out@, channels as int, i, c)
                    == if c < AUDIO_MAX_CHANNELS {
                    sample_at(memory@, start + i, c)
                } else {
                    0
                } by {
                    if i == frame_index {
                        assert(out@[offset + c] == interleaved(out@, channels as int, i, c));
                    } else {
                        lemma_interleaved_inside(channels as int, frame_index as int, i, c);
                        assert(interleaved(before, channels as int, i, c) == interleaved(
                            out@,
                            channels as int,
                            i,
                            c,
                        ));
                    }
                }
            }
            frame_index += 1;
            offset += channels;
        }
        self.read_frames = start + to_read as u64;
        (to_read, channels)
    }
}

/// What the server writes the client reads: a reader that has read everything before a packet gets
/// exactly the samples of that packet, in order, with the channels alternating, and then nothing
/// until the next packet.
#[verifier::spinoff_prover]
pub proof fn law_read_gives_back_what_was_written(
    before: Seq<u8>,
    after: Seq<u8>,
    planes: Seq<Vec<u32>>,
    frames: int,
    out_before: Seq<u32>,
    out_after: Seq<u32>,
)
    requires
        0 < frames <= AUDIO_RING_FRAMES,
        0 < planes.len() <= AUDIO_MAX_CHANNELS,
        header_of(before).channels == planes.len(),
        header_of(before).write_frames + frames <= u64::MAX,
        packet_written(before, after, planes, frames, planes.len() as int),
        frames_read(
            after,
            first_unread(header_of(after).write_frames, header_of(before).write_frames),
            readable(header_of(after).write_frames, header_of(before).write_frames, frames),
            header_of(after).channels as int,
            out_before,
            out_after,
        ),
    ensures
        readable(header_of(after).write_frames, header_of(before).write_frames, frames) == frames,
        forall|i: int, c: int|
            0 <= i < frames && 0 <= c < planes.len() ==> #[trigger] interleaved(
                out_after,
                planes.len() as int,
                i,
                c,
            ) == planes[c]@[i],
        forall|most: int|
            0 <= most ==> #[trigger] readable(
                header_of(after).write_frames,
                header_of(after).write_frames,
                most,
            ) == 0,
{
    let start = header_of(before).write_frames;
    assert forall|i: int, c: int| 0 <= i < frames && 0 <= c < planes.len() implies
        #[trigger] interleaved(out_after, planes.len() as int, i, c) == planes[c]@[i] by {
        assert(sample_at(after, start + i, c) == planes[c]@[i]);
    }
}

/// The newest frames stay in the ring: whatever a packet does not push out is still there after
/// it, sample for sample.
#[verifier::spinoff_prover]
pub proof fn law_newest_frames_stay(
    before: Seq<u8>,
    after: Seq<u8>,
    planes: Seq<Vec<u32>>,
    frames: int,
    frame: int,
    channel: int,
)
    requires
        0 < frames,
        header_of(before).write_frames + frames <= u64::MAX,
        packet_written(before, after, planes, frames, planes.len() as int),
        0 <= frame < header_of(before).write_frames,
        header_of(after).write_frames - AUDIO_RING_FRAMES <= frame,
        0 <= channel < AUDIO_MAX_CHANNELS,
    ensures
        sample_at(after, frame, channel) == sample_at(before, frame, channel),
{
    let start = header_of(before).write_frames;
    let i = frame + AUDIO_RING_FRAMES - start;
    assert(start + i == frame + AUDIO_RING_FRAMES);
    assert(place(start + i) == place(frame));
    assert(sample_offset(start + i, channel) == sample_offset(frame, channel));
    assert(sample_at(after, start + i, channel) == sample_at(before, start + i, channel));
}

/// A reader that was overtaken loses the oldest frames and none of the newest: it goes on with the
/// frames that are still in the ring.
pub proof fn law_overtaken_reader_keeps_the_newest(
    write_frames: u64,
    read_frames: u64,
    max_frames: int,
)
    requires
        read_frames + AUDIO_RING_FRAMES < write_frames,
        AUDIO_RING_FRAMES <= max_frames,
    ensures
        first_unread(write_frames, read_frames) == write_frames - AUDIO_RING_FRAMES,
        readable(write_frames, read_frames, max_frames) == AUDIO_RING_FRAMES,
{
}

/// Where a stream begins anew, a reader of the earlier one goes on with the new one from its
/// current frame on.
pub proof fn law_restarted_stream_is_followed(write_frames: u64, read_frames: u64, max_frames: int)
    requires
        write_frames < read_frames,
        0 <= max_frames,
    ensures
        first_unread(write_frames, read_frames) == write_frames,
        readable(write_frames, read_frames, max_frames) == 0,
{
}

/// A stream that has begun plays at the rate that was given, with as many channels as were given and there is
/// room for, which are eight at most, and from its first frame on.
pub proof fn law_stream_begins_with_its_format(
    header: AudioSharedMemoryHeader,
    sample_rate: u32,
    channels: u32,
)
    ensures
        channels <= 8 ==> format_in(started(header, sample_rate, channels)) == (
            sample_rate,
            channels,
            true,
        ),
        channels > 8 ==> format_in(started(header, sample_rate, channels)) == (
            sample_rate,
            8u32,
            true,
        ),
        started(header, sample_rate, channels).write_frames == 0,
        started(header, sample_rate, channels).ring_frames == header.ring_frames,
{
}

/// A stream that has ended plays no longer. Its format stays, and what was written can still be read.
pub proof fn law_ended_stream_can_still_be_read(
    header: AudioSharedMemoryHeader,
    read_frames: u64,
    max_frames: int,
)
    ensures
        format_in(stopped(header)) == (header.sample_rate, header.channels, false),
        stopped(header).write_frames == header.write_frames,
        readable(stopped(header).write_frames, read_frames, max_frames) == readable(
            header.write_frames,
            read_frames,
            max_frames,
        ),
{
}

/// Every number of the header has a place of its own, and so has every sample: the ring begins behind 64
/// bytes, each frame takes eight samples of four bytes whatever the number of channels, and after 48000 frames
/// it starts over.
#[verifier::spinoff_prover]
pub proof fn law_ring_has_a_layout(memory: Seq<u8>, frame: int, channel: int)
    requires
        0 <= frame < 48_000,
        0 <= channel < 8,
    ensures
        header_of(memory).sample_rate == bytes::u32_at(memory, 0),
        header_of(memory).channels == bytes::u32_at(memory, 4),
        header_of(memory).stream_active == bytes::u32_at(memory, 8),
        header_of(memory).write_frames == bytes::u64_at(memory, 16),
        header_of(memory).ring_frames == bytes::u32_at(memory, 24),
        sample_at(memory, frame, channel) == bytes::u32_at(memory, 64 + frame * 32 + channel * 4),
        sample_at(memory, frame + 48_000, channel) == sample_at(memory, frame, channel),
{
}

/// A reader that keeps up goes on with the frame behind the last one that it read.
pub proof fn law_reader_goes_on_where_it_stopped(write_frames: u64, read_frames: u64)
    requires
        read_frames <= write_frames <= read_frames + 48_000,
    ensures
        first_unread(write_frames, read_frames) == read_frames,
{
}

/// Reading in two parts reads what reading at once does: the second part goes on where the first one stopped,
/// and together they are as long.
pub proof fn law_parts_are_read_in_turn(
    write_frames: u64,
    read_frames: u64,
    first_frames: int,
    second_frames: int,
)
    requires
        0 <= first_frames,
        0 <= second_frames,
    ensures
        ({
            let start = first_unread(write_frames, read_frames);
            let first = readable(write_frames, read_frames, first_frames);
            let between = (start + first) as u64;
            &&& 0 <= first <= first_frames
            &&& start + first <= write_frames
            &&& first_unread(write_frames, between) == start + first
            &&& first + readable(write_frames, between, second_frames) == readable(
                write_frames,
                read_frames,
                first_frames + second_frames,
            )
        }),
{
}

/// Of a packet that is longer than the ring the newest 48000 frames are found, and of one with more than eight
/// channels the first eight; all of its frames are counted.
#[verifier::spinoff_prover]
pub proof fn law_large_packet_is_found_in_part(
    before: Seq<u8>,
    after: Seq<u8>,
    planes: Seq<Vec<u32>>,
    frames: int,
    index: int,
    channel: int,
)
    requires
        header_of(before).write_frames + frames <= u64::MAX,
        packet_written(before, after, planes, frames, planes.len() as int),
        0 <= index < frames,
        frames - 48_000 <= index,
        0 <= channel < planes.len(),
        channel < 8,
    ensures
        sample_at(after, header_of(before).write_frames + index, channel) == planes[channel]@[index],
        header_of(after).write_frames == header_of(before).write_frames + frames,
        header_of(after).sample_rate == header_of(before).sample_rate,
        header_of(after).channels == header_of(before).channels,
        header_of(after).stream_active == header_of(before).stream_active,
{
    let start = header_of(before).write_frames;
    assert(sample_at(after, start + index, channel) == planes[channel]@[index]);
}

/// Channels that a packet does not have are left alone in every frame.
#[verifier::spinoff_prover]
pub proof fn law_missing_channels_are_left_alone(
    before: Seq<u8>,
    after: Seq<u8>,
    planes: Seq<Vec<u32>>,
    frames: int,
    frame: int,
    channel: int,
)
    requires
        packet_written(before, after, planes, frames, planes.len() as int),
        0 <= frame,
        planes.len() <= channel < 8,
    ensures
        sample_at(after, frame, channel) == sample_at(before, frame, channel),
{
}

/// What is read stands at the front of the destination, with the channels alternating; channels beyond the
/// eight that a frame has room for are silent, and the rest of the destination is left alone.
#[verifier::spinoff_prover]
pub proof fn law_read_frames_stand_at_the_front(
    memory: Seq<u8>,
    start: int,
    count: int,
    channels: int,
    before: Seq<u32>,
    after: Seq<u32>,
    frame: int,
    channel: int,
    beyond: int,
)
    requires
        frames_read(memory, start, count, channels, before, after),
        0 <= frame < count,
        0 <= channel < channels,
        count * channels <= beyond < before.len(),
    ensures
        after.len() == before.len(),
        channel < 8 ==> after[frame * channels + channel] == sample_at(
            memory,
            start + frame,
            channel,
        ),
        channel >= 8 ==> after[frame * channels + channel] == 0,
        after[beyond] == before[beyond],
{
    assert(interleaved(after, channels, frame, channel) == after[frame * channels + channel]);
}

} // verus!
