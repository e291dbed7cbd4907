//! Frames in shared memory: two buffers behind a header, of which one can be read while the other
//! one is written.
//!
//! A memory begins with the frame counter (eight bytes), the width, the height and the index of the
//! readable buffer (four bytes each). What else the header holds is no matter here; after the
//! header come the two buffers.
use crate::bytes;
use crate::bytes::{get_u32, get_u64, put_bytes, put_u32, put_u64};
use vstd::prelude::*;

verus! {

/// The widest frame that fits.
pub const MAX_WIDTH: u32 = 3840;

/// The highest frame that fits.
pub const MAX_HEIGHT: u32 = 2160;

/// The bytes of one buffer: four for each pixel of the largest frame.
pub const BUFFER_SIZE: usize = 33_177_600;

/// Where the header keeps the width, the height, and the index of the readable buffer.
pub const WIDTH_AT: usize = 8;

/// See `WIDTH_AT`.
pub const HEIGHT_AT: usize = 12;

/// See `WIDTH_AT`.
pub const ACTIVE_AT: usize = 16;

/// Where the part of the header that describes the frame ends.
pub const FRAME_HEADER_END: usize = 20;

/// The number of frames written so far.
pub open spec fn frame_id(memory: Seq<u8>) -> u64 {
    bytes::u64_at(memory, 0)
}

pub open spec fn frame_width(memory: Seq<u8>) -> u32 {
    bytes::u32_at(memory, WIDTH_AT as int)
}

pub open spec fn frame_height(memory: Seq<u8>) -> u32 {
    bytes::u32_at(memory, HEIGHT_AT as int)
}

/// The index of the readable buffer.
pub open spec fn active_buffer(memory: Seq<u8>) -> u32 {
    bytes::u32_at(memory, ACTIVE_AT as int)
}

/// The bytes of a frame of the given size: four for each pixel.
pub open spec fn frame_size(width: u32, height: u32) -> int {
    width * height * 4
}

/// Where a buffer begins.
pub open spec fn buffer_start(header_size: usize, index: u32) -> int {
    header_size + index * BUFFER_SIZE
}

/// The buffer that is written while `active` can be read.
pub open spec fn inactive(active: u32) -> u32 {
    if active == 0 {
        1
    } else {
        0
    }
}

/// `count + 1`, starting over at zero.
pub open spec fn next_id(count: u64) -> u64 {
    if count == u64::MAX {
        0
    } else {
        (count + 1) as u64
    }
}

/// Whether a memory has room for a header of the given size and two buffers.
pub open spec fn has_room(memory: Seq<u8>, header_size: usize) -> bool {
    &&& FRAME_HEADER_END <= header_size <= 0x1000
    &&& header_size + 2 * BUFFER_SIZE <= memory.len()
}

/// Whether frames of the given size fit into a buffer.
pub open spec fn fits(width: u32, height: u32) -> bool {
    width <= MAX_WIDTH && height <= MAX_HEIGHT
}

/// Whether `after` is `before` with a frame put into the buffer that cannot be read, and that
/// buffer made the readable one; the frame counter still stands.
pub open spec fn staged(
    before: Seq<u8>,
    after: Seq<u8>,
    header_size: usize,
    pixels: Seq<u8>,
    width: u32,
    height: u32,
) -> bool {
    let target = inactive(active_buffer(before));
    let start = buffer_start(header_size, target);
    &&& after.len() == before.len()
    &&& frame_id(after) == frame_id(before)
    &&& frame_width(after) == width
    &&& frame_height(after) == height
    &&& active_buffer(after) == target
    &&& after.subrange(start, start + pixels.len()) == pixels
    &&& forall|i: int|
        FRAME_HEADER_END <= i < before.len() && !(start <= i < start + pixels.len())
            ==> #[trigger] after[i] == before[i]
}

/// Whether `after` is `before` with a frame written: staged, and counted.
pub open spec fn frame_written(
    before: Seq<u8>,
    after: Seq<u8>,
    header_size: usize,
    pixels: Seq<u8>,
    width: u32,
    height: u32,
) -> bool {
    let target = inactive(active_buffer(before));
    let start = buffer_start(header_size, target);
    &&& after.len() == before.len()
    &&& frame_id(after) == next_id(frame_id(before))
    &&& frame_width(after) == width
    &&& frame_height(after) == height
    &&& active_buffer(after) == target
    &&& after.subrange(start, start + pixels.len()) == pixels
    &&& forall|i: int|
        FRAME_HEADER_END <= i < before.len() && !(start <= i < start + pixels.len())
            ==> #[trigger] after[i] == before[i]
}

/// The pixels of a frame of the given size in the given buffer.
pub open spec fn pixels_in(
    memory: Seq<u8>,
    header_size: usize,
    index: u32,
    width: u32,
    height: u32,
) -> Seq<u8> {
    let start = buffer_start(header_size, index);
    memory.subrange(start, start + frame_size(width, height))
}

/// A frame within the limits needs no more than one buffer.
pub proof fn lemma_frame_fits(width: u32, height: u32)
    requires
        fits(width, height),
    ensures
        0 <= frame_size(width, height) <= BUFFER_SIZE,
{
    assert(0 <= width * height <= MAX_WIDTH * MAX_HEIGHT) by (nonlinear_arith)
        requires
            0 <= width <= MAX_WIDTH,
            0 <= height <= MAX_HEIGHT,
    ;
}

/// The number of bytes of a frame, counted without overflow.
pub fn frame_bytes(width: u32, height: u32) -> (size: u128)
    ensures
        size == frame_size(width, height),
{
    proof {
        assert(0 <= width * height <= u32::MAX * u32::MAX) by (nonlinear_arith)
            requires
                0 <= width <= u32::MAX,
                0 <= height <= u32::MAX,
        ;
    }
    width as u128 * height as u128 * 4
}

/// Puts a frame into the buffer that cannot be read, and makes that buffer the readable one.
pub fn stage_frame(
    memory: &mut [u8],
    header_size: usize,
    pixels: &[u8],
    width: u32,
    height: u32,
)
    requires
        has_room(old(memory)@, header_size),
        pixels@.len() == frame_size(width, height),
        frame_size(width, height) <= BUFFER_SIZE,
    ensures
        staged(old(memory)@, final(memory)@, header_size, pixels@, width, height),
{
    let active: u32 = get_u32(memory, ACTIVE_AT);
    let target: u32 = if active == 0 {
        1
    } else {
        0
    };
    let start: usize = header_size + target as usize * BUFFER_SIZE;
    put_bytes(memory, start, pixels);
    let ghost copied = memory@;
    put_u32(memory, WIDTH_AT, width);
    put_u32(memory, HEIGHT_AT, height);
    put_u32(memory, ACTIVE_AT, target);
    proof {
        assert(memory@.subrange(start as int, start + pixels@.len()) =~= copied.subrange(
            start as int,
            start + pixels@.len(),
        ));
    }
}

/// Counts a frame, so that readers see it.
pub fn publish_frame(memory: &mut [u8])
    requires
        FRAME_HEADER_END <= old(memory).len(),
    ensures
        frame_id(final(memory)@) == next_id(frame_id(old(memory)@)),
        bytes::same_outside(old(memory)@, final(memory)@, 0, 8),
{
    let id: u64 = get_u64(memory, 0);
    put_u64(
        memory,
        0,
        if id == u64::MAX {
            0
        } else {
            id + 1
        },
    );
}

/// Writes a frame into the buffer that cannot be read, makes that buffer the readable one, and
/// counts the frame.
pub fn put_frame(
    memory: &mut [u8],
    header_size: usize,
    pixels: &[u8],
    width: u32,
    height: u32,
)
    requires
        has_room(old(memory)@, header_size),
        pixels@.len() == frame_size(width, height),
        frame_size(width, height) <= BUFFER_SIZE,
    ensures
        frame_written(old(memory)@, final(memory)@, header_size, pixels@, width, height),
{
    stage_frame(memory, header_size, pixels, width, height);
    let ghost before = memory@;
    publish_frame(memory);
    proof {
        let start = buffer_start(header_size, inactive(active_buffer(old(memory)@)));
        assert(memory@.subrange(start, start + pixels@.len()) =~= before.subrange(
            start,
            start + pixels@.len(),
        ));
    }
}

/// Copies a stretch of memory, in place of what `destination` held.
pub fn copy_out(memory: &[u8], at: usize, size: usize, destination: &mut Vec<u8>)
    requires
        at + size <= memory@.len(),
    ensures
        final(destination)@ == memory@.subrange(at as int, at + size),
{
    let length: usize = memory.len();
    destination.clear();
    destination.extend_from_slice(&memory[at..at + size]);
    assert(destination@ =~= memory@.subrange(at as int, at + size));
}

/// Writing a frame leaves the buffer alone that was readable before: whoever still reads it sees
/// the earlier frame.
pub proof fn law_readable_buffer_is_not_written(
    before: Seq<u8>,
    after: Seq<u8>,
    header_size: usize,
    pixels: Seq<u8>,
    width: u32,
    height: u32,
)
    requires
        has_room(before, header_size),
        active_buffer(before) <= 1,
        pixels.len() <= BUFFER_SIZE,
        frame_written(before, after, header_size, pixels, width, height),
    ensures
        after.subrange(
            buffer_start(header_size, active_buffer(before)),
            buffer_start(header_size, active_buffer(before)) + BUFFER_SIZE,
        ) == before.subrange(
            buffer_start(header_size, active_buffer(before)),
            buffer_start(header_size, active_buffer(before)) + BUFFER_SIZE,
        ),
{
    let start = buffer_start(header_size, active_buffer(before));
    assert(after.subrange(start, start + BUFFER_SIZE) =~= before.subrange(
        start,
        start + BUFFER_SIZE,
    ));
}

/// Every frame counts for one, and after the largest number the count starts over.
pub proof fn law_frames_are_counted_one_by_one(count: u64)
    ensures
        (next_id(count) - count) % 0x1_0000_0000_0000_0000 == 1,
{
}

/// The buffer that is written is one of the two, and never the one that can be read.
pub proof fn law_other_buffer_is_written(active: u32)
    ensures
        inactive(active) <= 1,
        inactive(active) != active,
{
}

/// The two buffers stand one behind the other right behind the header, and each has room for the largest
/// frame, of 3840 by 2160 pixels of four bytes.
pub proof fn law_buffers_stand_behind_the_header(header_size: usize, width: u32, height: u32)
    ensures
        buffer_start(header_size, 0) == header_size,
        buffer_start(header_size, 1) == header_size + 3840 * 2160 * 4,
        frame_size(width, height) == 4 * (width * height),
        fits(width, height) <==> width <= 3840 && height <= 2160,
        fits(width, height) ==> buffer_start(header_size, 0) + frame_size(width, height)
            <= buffer_start(header_size, 1),
{
    if fits(width, height) {
        lemma_frame_fits(width, height);
    }
    assert(width * height * 4 == 4 * (width * height)) by (nonlinear_arith);
}

/// A frame that is staged is not seen before it is counted, and once it is counted it is as if it had been
/// written at once.
pub proof fn law_staged_frame_is_written_once_counted(
    before: Seq<u8>,
    between: Seq<u8>,
    after: Seq<u8>,
    header_size: usize,
    pixels: Seq<u8>,
    width: u32,
    height: u32,
)
    requires
        has_room(before, header_size),
        pixels.len() <= BUFFER_SIZE,
        staged(before, between, header_size, pixels, width, height),
        frame_id(after) == next_id(frame_id(between)),
        bytes::same_outside(between, after, 0, 8),
    ensures
        frame_id(between) == frame_id(before),
        frame_written(before, after, header_size, pixels, width, height),
{
    let start = buffer_start(header_size, inactive(active_buffer(before)));
    assert(after.subrange(start, start + pixels.len()) =~= between.subrange(
        start,
        start + pixels.len(),
    ));
}

} // verus!
