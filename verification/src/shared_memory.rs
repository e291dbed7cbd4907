//! The memory that a browser's frames are shared through, and the header in front of it.
//!
//! The server writes (`SharedMemoryWriter`), the client reads (`SharedMemoryReader`). Both work on
//! the mapped memory as a slice of bytes.
use crate::bytes;
use crate::bytes::{as_signed, get_u32, get_u64, put_i32, put_u32, put_u64};
use crate::frames;
use crate::frames::{copy_out, put_frame, BUFFER_SIZE, MAX_HEIGHT, MAX_WIDTH};
use vstd::prelude::*;

verus! {

/// The bytes of the header.
pub const SHARED_MEMORY_HEADER_SIZE: usize = 128;

/// The bytes of the header and the two buffers.
pub const SHARED_MEMORY_TOTAL_SIZE: usize = 66_355_328;

/// What the header holds.
#[derive(Clone, Copy, Debug, PartialEq, Eq, Structural)]
pub struct SharedMemoryHeader {
    pub frame_id: u64,
    pub width: u32,
    pub height: u32,
    /// The index of the readable buffer.
    pub active_buffer: u32,
    pub ime_caret_x: i32,
    pub ime_caret_y: i32,
    pub ime_caret_width: i32,
    pub ime_caret_height: i32,
    /// The number of frames that were passed as surfaces.
    pub accelerated_frame_id: u64,
    pub accelerated_surface_id: u32,
    pub accelerated_width: u32,
    pub accelerated_height: u32,
    /// 0 for BGRA, 1 for RGBA.
    pub accelerated_format: u32,
    pub d3d11_handle: u64,
    /// The number of frames that were passed as handles.
    pub d3d11_frame_id: u64,
    /// The value that the shared fence reaches once the frame is complete.
    pub d3d11_fence_value: u64,
    /// The engine frame for which the last paint was asked.
    pub accelerated_paint_unity_frame: u64,
}

/// The header of a memory.
pub open spec fn header_of(memory: Seq<u8>) -> SharedMemoryHeader {
    SharedMemoryHeader {
        frame_id: bytes::u64_at(memory, 0),
        width: bytes::u32_at(memory, 8),
        height: bytes::u32_at(memory, 12),
        active_buffer: bytes::u32_at(memory, 16),
        ime_caret_x: bytes::i32_at(memory, 20),
        ime_caret_y: bytes::i32_at(memory, 24),
        ime_caret_width: bytes::i32_at(memory, 28),
        ime_caret_height: bytes::i32_at(memory, 32),
        accelerated_frame_id: bytes::u64_at(memory, 40),
        accelerated_surface_id: bytes::u32_at(memory, 48),
        accelerated_width: bytes::u32_at(memory, 52),
        accelerated_height: bytes::u32_at(memory, 56),
        accelerated_format: bytes::u32_at(memory, 60),
        d3d11_handle: bytes::u64_at(memory, 64),
        d3d11_frame_id: bytes::u64_at(memory, 72),
        d3d11_fence_value: bytes::u64_at(memory, 80),
        accelerated_paint_unity_frame: bytes::u64_at(memory, 88),
    }
}

/// Whether a memory is as large as it has to be.
pub open spec fn mapped(memory: Seq<u8>) -> bool {
    memory.len() >= SHARED_MEMORY_TOTAL_SIZE
}

/// Whether two memories agree behind their headers.
pub open spec fn same_buffers(before: Seq<u8>, after: Seq<u8>) -> bool {
    bytes::same_outside(before, after, 0, SHARED_MEMORY_HEADER_SIZE as int)
}

/// A header that is all zeros.
pub open spec fn blank_header() -> SharedMemoryHeader {
    SharedMemoryHeader {
        frame_id: 0,
        width: 0,
        height: 0,
        active_buffer: 0,
        ime_caret_x: 0,
        ime_caret_y: 0,
        ime_caret_width: 0,
        ime_caret_height: 0,
        accelerated_frame_id: 0,
        accelerated_surface_id: 0,
        accelerated_width: 0,
        accelerated_height: 0,
        accelerated_format: 0,
        d3d11_handle: 0,
        d3d11_frame_id: 0,
        d3d11_fence_value: 0,
        accelerated_paint_unity_frame: 0,
    }
}

impl SharedMemoryHeader {
    /// Reads the header of a memory.
    pub fn load(memory: &[u8]) -> (header: SharedMemoryHeader)
        requires
            mapped(memory@),
        ensures
            header == header_of(memory@),
    {
        SharedMemoryHeader {
            frame_id: get_u64(memory, 0),
            width: get_u32(memory, 8),
            height: get_u32(memory, 12),
            active_buffer: get_u32(memory, 16),
            ime_caret_x: as_signed(get_u32(memory, 20)),
            ime_caret_y: as_signed(get_u32(memory, 24)),
            ime_caret_width: as_signed(get_u32(memory, 28)),
            ime_caret_height: as_signed(get_u32(memory, 32)),
            accelerated_frame_id: get_u64(memory, 40),
            accelerated_surface_id: get_u32(memory, 48),
            accelerated_width: get_u32(memory, 52),
            accelerated_height: get_u32(memory, 56),
            accelerated_format: get_u32(memory, 60),
            d3d11_handle: get_u64(memory, 64),
            d3d11_frame_id: get_u64(memory, 72),
            d3d11_fence_value: get_u64(memory, 80),
            accelerated_paint_unity_frame: get_u64(memory, 88),
        }
    }
}

/// The frame that a reader gets that has seen all frames up to `last_frame_id`: its size, and its
/// pixels. Nothing if there is no newer frame, or if the header describes none.
pub open spec fn frame_for(memory: Seq<u8>, last_frame_id: u64) -> Option<(u32, u32, Seq<u8>)> {
    let header = header_of(memory);
    if header.frame_id == last_frame_id || header.active_buffer > 1 || header.width == 0
        || header.height == 0 || !frames::fits(header.width, header.height) {
        None
    } else {
        Some(
            (
                header.width,
                header.height,
                frames::pixels_in(
                    memory,
                    SHARED_MEMORY_HEADER_SIZE,
                    header.active_buffer,
                    header.width,
                    header.height,
                ),
            ),
        )
    }
}

/// The surface that a reader gets that has seen all of them up to `last_frame_id`.
pub open spec fn surface_for(header: SharedMemoryHeader, last_frame_id: u64) -> Option<
    (u32, u32, u32, u32),
> {
    if header.accelerated_frame_id == last_frame_id || header.accelerated_surface_id == 0
        || header.accelerated_width == 0 || header.accelerated_height == 0 {
        None
    } else {
        Some(
            (
                header.accelerated_surface_id,
                header.accelerated_width,
                header.accelerated_height,
                header.accelerated_format,
            ),
        )
    }
}

/// The handle that a reader gets that has seen all of them up to `last_frame_id`.
pub open spec fn handle_for(header: SharedMemoryHeader, last_frame_id: u64) -> Option<
    (u64, u32, u32, u32, u64),
> {
    if header.d3d11_frame_id == last_frame_id || header.d3d11_handle == 0
        || header.accelerated_width == 0 || header.accelerated_height == 0 {
        None
    } else {
        Some(
            (
                header.d3d11_handle,
                header.accelerated_width,
                header.accelerated_height,
                header.accelerated_format,
                header.d3d11_fence_value,
            ),
        )
    }
}

/// The header once a texture handle is described in it.
pub open spec fn with_handle(
    header: SharedMemoryHeader,
    handle: u64,
    width: u32,
    height: u32,
    format: u32,
    fence_value: u64,
) -> SharedMemoryHeader {
    SharedMemoryHeader {
        accelerated_width: width,
        accelerated_height: height,
        accelerated_format: format,
        d3d11_handle: handle,
        d3d11_fence_value: fence_value,
        ..header
    }
}

/// The header once the texture handle in it is announced.
pub open spec fn handle_announced(header: SharedMemoryHeader) -> SharedMemoryHeader {
    SharedMemoryHeader { d3d11_frame_id: frames::next_id(header.d3d11_frame_id), ..header }
}

/// The header once a surface is described in it.
pub open spec fn with_surface(
    header: SharedMemoryHeader,
    surface_id: u32,
    width: u32,
    height: u32,
    format: u32,
) -> SharedMemoryHeader {
    SharedMemoryHeader {
        accelerated_surface_id: surface_id,
        accelerated_width: width,
        accelerated_height: height,
        accelerated_format: format,
        ..header
    }
}

/// The header once the surface in it is announced.
pub open spec fn surface_announced(header: SharedMemoryHeader) -> SharedMemoryHeader {
    SharedMemoryHeader {
        accelerated_frame_id: frames::next_id(header.accelerated_frame_id),
        ..header
    }
}

/// The header once it says where the text cursor stands.
pub open spec fn with_caret(
    header: SharedMemoryHeader,
    x: i32,
    y: i32,
    width: i32,
    height: i32,
) -> SharedMemoryHeader {
    SharedMemoryHeader {
        ime_caret_x: x,
        ime_caret_y: y,
        ime_caret_width: width,
        ime_caret_height: height,
        ..header
    }
}

/// Where the text cursor stands: its corner, width and height.
pub open spec fn caret_in(header: SharedMemoryHeader) -> (i32, i32, i32, i32) {
    (header.ime_caret_x, header.ime_caret_y, header.ime_caret_width, header.ime_caret_height)
}

/// The size of the newest surface: its width and its height.
pub open spec fn surface_size(header: SharedMemoryHeader) -> (u32, u32) {
    (header.accelerated_width, header.accelerated_height)
}

/// The header once it says for which engine frame a paint was asked.
pub open spec fn with_unity_frame(header: SharedMemoryHeader, unity_frame: u64) -> SharedMemoryHeader {
    SharedMemoryHeader { accelerated_paint_unity_frame: unity_frame, ..header }
}

/// The header once a frame was written.
pub open spec fn with_frame(header: SharedMemoryHeader, width: u32, height: u32) -> SharedMemoryHeader {
    SharedMemoryHeader {
        frame_id: frames::next_id(header.frame_id),
        width,
        height,
        active_buffer: frames::inactive(header.active_buffer),
        ..header
    }
}

/// The server's end of a memory.
pub struct SharedMemoryWriter {
    pub flink: String,
}

impl SharedMemoryWriter {
    /// Takes a memory into use: its header is blank then.
    pub fn new(flink: &str, memory: &mut [u8]) -> (writer: SharedMemoryWriter)
        requires
            mapped(old(memory)@),
        ensures
            writer.flink@ == flink@,
            header_of(final(memory)@) == blank_header(),
            same_buffers(old(memory)@, final(memory)@),
    {
        let mut index: usize = 0;
        while index < SHARED_MEMORY_HEADER_SIZE
            invariant
                index <= SHARED_MEMORY_HEADER_SIZE,
                mapped(memory@),
                same_buffers(old(memory)@, memory@),
                forall|i: int| 0 <= i < index ==> #[trigger] memory@[i] == 0,
            decreases SHARED_MEMORY_HEADER_SIZE - index,
        {
            memory[index] = 0;
            index += 1;
        }
        SharedMemoryWriter { flink: flink.to_owned() }
    }

    /// Writes where the text cursor stands.
    pub fn write_ime_caret(&self, memory: &mut [u8], x: i32, y: i32, width: i32, height: i32)
        requires
            mapped(old(memory)@),
        ensures
            header_of(final(memory)@) == with_caret(header_of(old(memory)@), x, y, width, height),
            same_buffers(old(memory)@, final(memory)@),
    {
        put_i32(memory, 20, x);
        put_i32(memory, 24, y);
        put_i32(memory, 28, width);
        put_i32(memory, 32, height);
    }

    /// Describes a surface, without announcing it yet.
    pub fn stage_iosurface_info(
        &self,
        memory: &mut [u8],
        surface_id: u32,
        width: u32,
        height: u32,
        format: u32,
    )
        requires
            mapped(old(memory)@),
        ensures
            header_of(final(memory)@) == with_surface(
                header_of(old(memory)@),
                surface_id,
                width,
                height,
                format,
            ),
            same_buffers(old(memory)@, final(memory)@),
    {
        put_u32(memory, 48, surface_id);
        put_u32(memory, 52, width);
        put_u32(memory, 56, height);
        put_u32(memory, 60, format);
    }

    /// Announces the surface that the header describes.
    pub fn publish_iosurface_info(&self, memory: &mut [u8])
        requires
            mapped(old(memory)@),
        ensures
            header_of(final(memory)@) == surface_announced(header_of(old(memory)@)),
            same_buffers(old(memory)@, final(memory)@),
    {
        let id: u64 = get_u64(memory, 40);
        put_u64(
            memory,
            40,
            if id == u64::MAX {
                0
            } else {
                id + 1
            },
        );
    }

    /// Describes and announces a surface.
    pub fn write_iosurface_info(
        &self,
        memory: &mut [u8],
        surface_id: u32,
        width: u32,
        height: u32,
        format: u32,
    )
        requires
            mapped(old(memory)@),
        ensures
            header_of(final(memory)@) == surface_announced(
                with_surface(header_of(old(memory)@), surface_id, width, height, format),
            ),
            same_buffers(old(memory)@, final(memory)@),
    {
        self.stage_iosurface_info(memory, surface_id, width, height, format);
        self.publish_iosurface_info(memory);
    }

    /// Writes the engine frame for which a paint was asked. It is to be written before the paint
    /// is announced.
    pub fn write_paint_unity_frame(&self, memory: &mut [u8], unity_frame: u64)
        requires
            mapped(old(memory)@),
        ensures
            header_of(final(memory)@) == with_unity_frame(header_of(old(memory)@), unity_frame),
            same_buffers(old(memory)@, final(memory)@),
    {
        put_u64(memory, 88, unity_frame);
    }

    /// Describes a texture handle, without announcing it yet.
    pub fn stage_d3d11_handle(
        &self,
        memory: &mut [u8],
        handle: u64,
        width: u32,
        height: u32,
        format: u32,
        fence_value: u64,
    )
        requires
            mapped(old(memory)@),
        ensures
            header_of(final(memory)@) == with_handle(
                header_of(old(memory)@),
                handle,
                width,
                height,
                format,
                fence_value,
            ),
            same_buffers(old(memory)@, final(memory)@),
    {
        put_u32(memory, 52, width);
        put_u32(memory, 56, height);
        put_u32(memory, 60, format);
        put_u64(memory, 64, handle);
        put_u64(memory, 80, fence_value);
    }

    /// Announces the texture handle that the header describes.
    pub fn publish_d3d11_handle(&self, memory: &mut [u8])
        requires
            mapped(old(memory)@),
        ensures
            header_of(final(memory)@) == handle_announced(header_of(old(memory)@)),
            same_buffers(old(memory)@, final(memory)@),
    {
        let id: u64 = get_u64(memory, 72);
        put_u64(
            memory,
            72,
            if id == u64::MAX {
                0
            } else {
                id + 1
            },
        );
    }

    /// Describes and announces a texture handle, and the fence value to wait for.
    pub fn write_d3d11_handle(
        &self,
        memory: &mut [u8],
        handle: u64,
        width: u32,
        height: u32,
        format: u32,
        fence_value: u64,
    )
        requires
            mapped(old(memory)@),
        ensures
            header_of(final(memory)@) == handle_announced(
                with_handle(
                    header_of(old(memory)@),
                    handle,
                    width,
                    height,
                    format,
                    fence_value,
                ),
            ),
            same_buffers(old(memory)@, final(memory)@),
    {
        self.stage_d3d11_handle(memory, handle, width, height, format, fence_value);
        self.publish_d3d11_handle(memory);
    }

    /// Writes a frame of four bytes per pixel. The frame has to fit into a buffer.
    pub fn write_frame(&self, memory: &mut [u8], pixels: &[u8], width: u32, height: u32)
        requires
            mapped(old(memory)@),
            frames::fits(width, height),
            pixels@.len() == frames::frame_size(width, height),
        ensures
            frames::frame_written(
                old(memory)@,
                final(memory)@,
                SHARED_MEMORY_HEADER_SIZE,
                pixels@,
                width,
                height,
            ),
            header_of(final(memory)@) == with_frame(header_of(old(memory)@), width, height),
    {
        proof {
            frames::lemma_frame_fits(width, height);
        }
        put_frame(memory, SHARED_MEMORY_HEADER_SIZE, pixels, width, height);
    }
}

/// Whether a painted view can be shared as a frame.
pub open spec fn can_be_shared(width: i32, height: i32) -> bool {
    1 <= width <= MAX_WIDTH && 1 <= height <= MAX_HEIGHT
}

/// Whether a painted view can be shared as a frame: it is not empty, and it fits into a buffer.
pub fn paint_fits(width: i32, height: i32) -> (usable: bool)
    ensures
        usable == can_be_shared(width, height),
{
    width >= 1 && height >= 1 && width as u32 <= MAX_WIDTH && height as u32 <= MAX_HEIGHT
}

/// The client's end of a memory, and what it has seen of it.
#[derive(Clone, Copy, Debug, PartialEq, Eq, Structural)]
pub struct SharedMemoryReader {
    pub last_frame_id: u64,
    pub last_accelerated_frame_id: u64,
    pub last_d3d11_frame_id: u64,
}

impl SharedMemoryReader {
    /// A reader that has seen nothing yet.
    pub fn open() -> (reader: SharedMemoryReader)
        ensures
            reader == (SharedMemoryReader {
                last_frame_id: 0,
                last_accelerated_frame_id: 0,
                last_d3d11_frame_id: 0,
            }),
    {
        SharedMemoryReader { last_frame_id: 0, last_accelerated_frame_id: 0, last_d3d11_frame_id: 0 }
    }

    /// The newest texture handle, if it is newer than the last one: handle, width, height, format,
    /// and the fence value to wait for.
    pub fn get_d3d11_handle(&mut self, memory: &[u8]) -> (handle: Option<(u64, u32, u32, u32, u64)>)
        requires
            mapped(memory@),
        ensures
            handle == handle_for(header_of(memory@), old(self).last_d3d11_frame_id),
            *final(self) == (SharedMemoryReader {
                last_d3d11_frame_id: header_of(memory@).d3d11_frame_id,
                ..*old(self)
            }),
    {
        let header: SharedMemoryHeader = SharedMemoryHeader::load(memory);
        if header.d3d11_frame_id == self.last_d3d11_frame_id {
            return None;
        }
        self.last_d3d11_frame_id = header.d3d11_frame_id;
        if header.d3d11_handle == 0 || header.accelerated_width == 0 || header.accelerated_height
            == 0 {
            return None;
        }
        Some(
            (
                header.d3d11_handle,
                header.accelerated_width,
                header.accelerated_height,
                header.accelerated_format,
                header.d3d11_fence_value,
            ),
        )
    }

    /// The newest surface, if it is newer than the last one: its number, width, height and format.
    pub fn get_iosurface_info(&mut self, memory: &[u8]) -> (surface: Option<(u32, u32, u32, u32)>)
        requires
            mapped(memory@),
        ensures
            surface == surface_for(header_of(memory@), old(self).last_accelerated_frame_id),
            *final(self) == (SharedMemoryReader {
                last_accelerated_frame_id: header_of(memory@).accelerated_frame_id,
                ..*old(self)
            }),
    {
        let header: SharedMemoryHeader = SharedMemoryHeader::load(memory);
        if header.accelerated_frame_id == self.last_accelerated_frame_id {
            return None;
        }
        self.last_accelerated_frame_id = header.accelerated_frame_id;
        if header.accelerated_surface_id == 0 || header.accelerated_width == 0
            || header.accelerated_height == 0 {
            return None;
        }
        Some(
            (
                header.accelerated_surface_id,
                header.accelerated_width,
                header.accelerated_height,
                header.accelerated_format,
            ),
        )
    }

    /// The size of the newest surface, whether or not it was seen already.
    pub fn read_accelerated_dimensions(&self, memory: &[u8]) -> (size: (u32, u32))
        requires
            mapped(memory@),
        ensures
            size == surface_size(header_of(memory@)),
    {
        (get_u32(memory, 52), get_u32(memory, 56))
    }

    /// The engine frame for which the newest paint was asked.
    pub fn read_paint_unity_frame(&self, memory: &[u8]) -> (unity_frame: u64)
        requires
            mapped(memory@),
        ensures
            unity_frame == header_of(memory@).accelerated_paint_unity_frame,
    {
        get_u64(memory, 88)
    }

    /// The number of surfaces announced so far.
    pub fn peek_accelerated_frame_id(&self, memory: &[u8]) -> (id: u64)
        requires
            mapped(memory@),
        ensures
            id == header_of(memory@).accelerated_frame_id,
    {
        get_u64(memory, 40)
    }

    /// Where the text cursor stands: its corner, width and height.
    pub fn read_ime_caret(&self, memory: &[u8]) -> (caret: (i32, i32, i32, i32))
        requires
            mapped(memory@),
        ensures
            caret == caret_in(header_of(memory@)),
    {
        (
            as_signed(get_u32(memory, 20)),
            as_signed(get_u32(memory, 24)),
            as_signed(get_u32(memory, 28)),
            as_signed(get_u32(memory, 32)),
        )
    }

    /// Whether a frame was written since the last one that was read.
    pub fn has_new_frame(&self, memory: &[u8]) -> (new: bool)
        requires
            mapped(memory@),
        ensures
            new == (header_of(memory@).frame_id != self.last_frame_id),
    {
        get_u64(memory, 0) != self.last_frame_id
    }

    /// Where the newest frame stands in the memory, if it is newer than the last one, with its
    /// width and height.
    pub fn get_active_buffer_offset(&mut self, memory: &[u8]) -> (frame: Option<(usize, u32, u32)>)
        requires
            mapped(memory@),
        ensures
            *final(self) == (SharedMemoryReader {
                last_frame_id: header_of(memory@).frame_id,
                ..*old(self)
            }),
            match frame_for(memory@, old(self).last_frame_id) {
                None => frame is None,
                Some((width, height, pixels)) => {
                    &&& frame matches Some((start, w, h))
                    &&& w == width && h == height
                    &&& start == frames::buffer_start(
                        SHARED_MEMORY_HEADER_SIZE,
                        header_of(memory@).active_buffer,
                    )
                    &&& start + pixels.len() <= memory@.len()
                    &&& pixels == memory@.subrange(start as int, start + pixels.len())
                },
            },
    {
        let header: SharedMemoryHeader = SharedMemoryHeader::load(memory);
        if header.frame_id == self.last_frame_id {
            return None;
        }
        self.last_frame_id = header.frame_id;
        if header.active_buffer > 1 || header.width == 0 || header.height == 0 || header.width
            > MAX_WIDTH || header.height > MAX_HEIGHT {
            return None;
        }
        proof {
            frames::lemma_frame_fits(header.width, header.height);
        }
        let start: usize = SHARED_MEMORY_HEADER_SIZE + header.active_buffer as usize * BUFFER_SIZE;
        Some((start, header.width, header.height))
    }

    /// Copies the newest frame into `destination`, if it is newer than the last one, and says how
    /// large it is.
    pub fn read_frame(&mut self, memory: &[u8], destination: &mut Vec<u8>) -> (size: Option<
        (u32, u32),
    >)
        requires
            mapped(memory@),
        ensures
            *final(self) == (SharedMemoryReader {
                last_frame_id: header_of(memory@).frame_id,
                ..*old(self)
            }),
            match frame_for(memory@, old(self).last_frame_id) {
                None => size is None && final(destination)@ == old(destination)@,
                Some((width, height, pixels)) => size == Some((width, height))
                    && final(destination)@ == pixels,
            },
    {
        match self.get_active_buffer_offset(memory) {
            None => None,
            Some((start, width, height)) => {
                proof {
                    frames::lemma_frame_fits(width, height);
                }
                let bytes: usize = width as usize * height as usize * 4;
                copy_out(memory, start, bytes, destination);
                Some((width, height))
            },
        }
    }
}

/// What the server writes the client reads: a reader that has seen every earlier frame gets
/// exactly the pixels that were written, and then nothing until the next frame.
pub proof fn law_read_gives_back_what_was_written(
    before: Seq<u8>,
    after: Seq<u8>,
    pixels: Seq<u8>,
    width: u32,
    height: u32,
)
    requires
        mapped(before),
        frames::fits(width, height),
        width > 0,
        height > 0,
        pixels.len() == frames::frame_size(width, height),
        frames::frame_written(before, after, SHARED_MEMORY_HEADER_SIZE, pixels, width, height),
    ensures
        frame_for(after, header_of(before).frame_id) == Some((width, height, pixels)),
        frame_for(after, header_of(after).frame_id) is None,
{
}

/// A frame that a reader was given by its place stays there while the next one is written: at
/// the start of the buffer that was readable, its pixels are unchanged.
pub proof fn law_frame_outlives_the_next_write(
    before: Seq<u8>,
    after: Seq<u8>,
    last_frame_id: u64,
    given: Seq<u8>,
    pixels: Seq<u8>,
    width: u32,
    height: u32,
)
    requires
        mapped(before),
        frame_for(before, last_frame_id) matches Some((_, _, seen)) && seen == given,
        frames::fits(width, height),
        pixels.len() == frames::frame_size(width, height),
        frames::frame_written(before, after, SHARED_MEMORY_HEADER_SIZE, pixels, width, height),
    ensures
        ({
            let start = frames::buffer_start(
                SHARED_MEMORY_HEADER_SIZE,
                header_of(before).active_buffer,
            );
            &&& given == before.subrange(start, start + given.len())
            &&& after.subrange(start, start + given.len()) == given
        }),
{
    let header = header_of(before);
    frames::lemma_frame_fits(header.width, header.height);
    frames::lemma_frame_fits(width, height);
    let start = frames::buffer_start(SHARED_MEMORY_HEADER_SIZE, header.active_buffer);
    frames::law_readable_buffer_is_not_written(
        before,
        after,
        SHARED_MEMORY_HEADER_SIZE,
        pixels,
        width,
        height,
    );
    assert(after.subrange(start, start + given.len()) =~= after.subrange(
        start,
        start + BUFFER_SIZE,
    ).subrange(0, given.len() as int));
    assert(before.subrange(start, start + given.len()) =~= before.subrange(
        start,
        start + BUFFER_SIZE,
    ).subrange(0, given.len() as int));
}

/// A reader never gets the same frame twice: once it has read, only a further frame makes it read
/// again.
pub proof fn law_nothing_is_read_twice(memory: Seq<u8>)
    ensures
        frame_for(memory, header_of(memory).frame_id) is None,
        surface_for(header_of(memory), header_of(memory).accelerated_frame_id) is None,
        handle_for(header_of(memory), header_of(memory).d3d11_frame_id) is None,
{
}

/// A texture handle is read as a whole or not at all: a reader that has seen every earlier one
/// gets nothing while the handle is only described, and exactly what was described once it is
/// announced.
pub proof fn law_handle_is_read_once_announced(
    before: SharedMemoryHeader,
    handle: u64,
    width: u32,
    height: u32,
    format: u32,
    fence_value: u64,
)
    requires
        handle != 0,
        width != 0,
        height != 0,
    ensures
        ({
            let described = with_handle(before, handle, width, height, format, fence_value);
            &&& handle_for(described, before.d3d11_frame_id) is None
            &&& handle_for(handle_announced(described), before.d3d11_frame_id) == Some(
                (handle, width, height, format, fence_value),
            )
        }),
{
}

/// A surface is read as a whole or not at all: a reader that has seen every earlier one gets
/// nothing while the surface is only described, and exactly what was described once it is
/// announced.
pub proof fn law_surface_is_read_once_announced(
    before: SharedMemoryHeader,
    surface_id: u32,
    width: u32,
    height: u32,
    format: u32,
)
    requires
        surface_id != 0,
        width != 0,
        height != 0,
    ensures
        ({
            let described = with_surface(before, surface_id, width, height, format);
            &&& surface_for(described, before.accelerated_frame_id) is None
            &&& surface_for(surface_announced(described), before.accelerated_frame_id) == Some(
                (surface_id, width, height, format),
            )
        }),
{
}

/// Every number of the header has a place of its own in the memory, and the buffers stand 128 bytes behind
/// its beginning.
pub proof fn law_header_has_a_layout(memory: Seq<u8>)
    ensures
        ({
            let header = header_of(memory);
            &&& header.frame_id == bytes::u64_at(memory, 0)
            &&& header.width == bytes::u32_at(memory, 8)
            &&& header.height == bytes::u32_at(memory, 12)
            &&& header.active_buffer == bytes::u32_at(memory, 16)
            &&& header.ime_caret_x == bytes::signed(bytes::u32_at(memory, 20))
            &&& header.ime_caret_y == bytes::signed(bytes::u32_at(memory, 24))
            &&& header.ime_caret_width == bytes::signed(bytes::u32_at(memory, 28))
            &&& header.ime_caret_height == bytes::signed(bytes::u32_at(memory, 32))
            &&& header.accelerated_frame_id == bytes::u64_at(memory, 40)
            &&& header.accelerated_surface_id == bytes::u32_at(memory, 48)
            &&& header.accelerated_width == bytes::u32_at(memory, 52)
            &&& header.accelerated_height == bytes::u32_at(memory, 56)
            &&& header.accelerated_format == bytes::u32_at(memory, 60)
            &&& header.d3d11_handle == bytes::u64_at(memory, 64)
            &&& header.d3d11_frame_id == bytes::u64_at(memory, 72)
            &&& header.d3d11_fence_value == bytes::u64_at(memory, 80)
            &&& header.accelerated_paint_unity_frame == bytes::u64_at(memory, 88)
        }),
        frames::buffer_start(SHARED_MEMORY_HEADER_SIZE, 0) == 128,
{
}

/// A new frame is read at its size and from the buffer that the header names, unless the header describes
/// none: one of no or too many pixels, or in a buffer that there is not.
pub proof fn law_frame_is_read_from_the_named_buffer(memory: Seq<u8>, last_frame_id: u64)
    requires
        header_of(memory).frame_id != last_frame_id,
    ensures
        ({
            let header = header_of(memory);
            let start = 128 + header.active_buffer * 33_177_600;
            &&& header.active_buffer <= 1 && 1 <= header.width <= 3840 && 1 <= header.height <= 2160
                ==> (frame_for(memory, last_frame_id) matches Some((width, height, pixels)) && width
                == header.width && height == header.height && pixels == memory.subrange(
                start,
                start + width * height * 4,
            ))
            &&& header.active_buffer > 1 || header.width == 0 || header.width > 3840 || header.height
                == 0 || header.height > 2160 ==> frame_for(memory, last_frame_id) is None
        }),
{
}

/// Writing a frame turns to the other buffer and counts the frame, and leaves what the header says of the
/// text cursor, of surfaces and of handles alone.
pub proof fn law_frame_leaves_the_rest_alone(header: SharedMemoryHeader, width: u32, height: u32)
    ensures
        ({
            let after = with_frame(header, width, height);
            &&& (after.frame_id - header.frame_id) % 0x1_0000_0000_0000_0000 == 1
            &&& after.width == width
            &&& after.height == height
            &&& after.active_buffer <= 1
            &&& after.active_buffer != header.active_buffer
            &&& caret_in(after) == caret_in(header)
            &&& forall|last: u64| #[trigger]
                surface_for(after, last) == surface_for(header, last)
            &&& forall|last: u64| #[trigger] handle_for(after, last) == handle_for(header, last)
            &&& after.accelerated_paint_unity_frame == header.accelerated_paint_unity_frame
        }),
{
}

/// Where the text cursor stands is read as it was written, and writing it announces nothing and leaves
/// everything else alone.
pub proof fn law_cursor_is_read_as_it_was_written(
    header: SharedMemoryHeader,
    x: i32,
    y: i32,
    width: i32,
    height: i32,
)
    ensures
        ({
            let after = with_caret(header, x, y, width, height);
            &&& caret_in(after) == (x, y, width, height)
            &&& after.frame_id == header.frame_id
            &&& after.width == header.width
            &&& after.height == header.height
            &&& after.active_buffer == header.active_buffer
            &&& forall|last: u64| #[trigger]
                surface_for(after, last) == surface_for(header, last)
            &&& forall|last: u64| #[trigger] handle_for(after, last) == handle_for(header, last)
            &&& after.accelerated_paint_unity_frame == header.accelerated_paint_unity_frame
        }),
{
}

/// The engine frame of a paint is read as it was written, and writing it announces nothing and leaves
/// everything else alone.
pub proof fn law_engine_frame_is_read_as_it_was_written(
    header: SharedMemoryHeader,
    unity_frame: u64,
)
    ensures
        ({
            let after = with_unity_frame(header, unity_frame);
            &&& after.accelerated_paint_unity_frame == unity_frame
            &&& after.frame_id == header.frame_id
            &&& after.width == header.width
            &&& after.height == header.height
            &&& after.active_buffer == header.active_buffer
            &&& caret_in(after) == caret_in(header)
            &&& forall|last: u64| #[trigger]
                surface_for(after, last) == surface_for(header, last)
            &&& forall|last: u64| #[trigger] handle_for(after, last) == handle_for(header, last)
        }),
{
}

/// Describing and announcing a handle, or a surface, leaves frames, the text cursor and the engine frame
/// alone, and neither announces the other.
pub proof fn law_surfaces_and_handles_are_announced_apart(
    header: SharedMemoryHeader,
    surface_id: u32,
    handle: u64,
    width: u32,
    height: u32,
    format: u32,
    fence_value: u64,
)
    ensures
        ({
            let shared = handle_announced(
                with_handle(header, handle, width, height, format, fence_value),
            );
            let passed = surface_announced(with_surface(header, surface_id, width, height, format));
            &&& shared.accelerated_frame_id == header.accelerated_frame_id
            &&& shared.accelerated_surface_id == header.accelerated_surface_id
            &&& passed.d3d11_frame_id == header.d3d11_frame_id
            &&& passed.d3d11_handle == header.d3d11_handle
            &&& passed.d3d11_fence_value == header.d3d11_fence_value
            &&& (shared.d3d11_frame_id - header.d3d11_frame_id) % 0x1_0000_0000_0000_0000 == 1
            &&& (passed.accelerated_frame_id - header.accelerated_frame_id)
                % 0x1_0000_0000_0000_0000 == 1
            &&& shared.frame_id == header.frame_id && passed.frame_id == header.frame_id
            &&& shared.width == header.width && passed.width == header.width
            &&& shared.height == header.height && passed.height == header.height
            &&& shared.active_buffer == header.active_buffer && passed.active_buffer
                == header.active_buffer
            &&& caret_in(shared) == caret_in(header) && caret_in(passed) == caret_in(header)
            &&& shared.accelerated_paint_unity_frame == header.accelerated_paint_unity_frame
            &&& passed.accelerated_paint_unity_frame == header.accelerated_paint_unity_frame
        }),
{
}

/// A surface without a number or without pixels is not handed out, and neither is a handle that is none; a
/// new one of any other kind is, as the header describes it.
pub proof fn law_surface_is_handed_out_as_described(header: SharedMemoryHeader, last: u64)
    ensures
        header.accelerated_frame_id != last && header.accelerated_surface_id != 0
            && header.accelerated_width != 0 && header.accelerated_height != 0 ==> surface_for(
            header,
            last,
        ) == Some(
            (
                header.accelerated_surface_id,
                header.accelerated_width,
                header.accelerated_height,
                header.accelerated_format,
            ),
        ),
        header.accelerated_surface_id == 0 || header.accelerated_width == 0
            || header.accelerated_height == 0 ==> surface_for(header, last) is None,
        header.d3d11_frame_id != last && header.d3d11_handle != 0 && header.accelerated_width != 0
            && header.accelerated_height != 0 ==> handle_for(header, last) == Some(
            (
                header.d3d11_handle,
                header.accelerated_width,
                header.accelerated_height,
                header.accelerated_format,
                header.d3d11_fence_value,
            ),
        ),
        header.d3d11_handle == 0 || header.accelerated_width == 0 || header.accelerated_height == 0
            ==> handle_for(header, last) is None,
{
}

/// A view can be shared if it has at least one pixel and at most 3840 by 2160; then a frame of it fits, and is
/// read back.
pub proof fn law_shared_views_fit(width: i32, height: i32)
    ensures
        can_be_shared(width, height) <==> 1 <= width <= 3840 && 1 <= height <= 2160,
        can_be_shared(width, height) ==> frames::fits(width as u32, height as u32),
{
}

/// From a memory that was just taken into use a new reader gets nothing: no frame, no surface and no handle,
/// and a text cursor that stands nowhere.
pub proof fn law_new_memory_holds_nothing(memory: Seq<u8>)
    requires
        header_of(memory) == blank_header(),
    ensures
        frame_for(memory, 0) is None,
        surface_for(header_of(memory), 0) is None,
        handle_for(header_of(memory), 0) is None,
        caret_in(header_of(memory)) == (0i32, 0i32, 0i32, 0i32),
        header_of(memory).frame_id == 0,
        header_of(memory).width == 0,
        header_of(memory).height == 0,
        header_of(memory).active_buffer == 0,
        header_of(memory).accelerated_frame_id == 0,
        header_of(memory).accelerated_surface_id == 0,
        header_of(memory).accelerated_width == 0,
        header_of(memory).accelerated_height == 0,
        header_of(memory).accelerated_format == 0,
        header_of(memory).d3d11_frame_id == 0,
        header_of(memory).d3d11_handle == 0,
        header_of(memory).d3d11_fence_value == 0,
        header_of(memory).accelerated_paint_unity_frame == 0,
{
}

/// The size of a surface is known as soon as it is described, whether or not it was announced or seen, and that
/// of a handle likewise.
pub proof fn law_size_is_known_once_described(
    header: SharedMemoryHeader,
    surface_id: u32,
    handle: u64,
    width: u32,
    height: u32,
    format: u32,
    fence_value: u64,
)
    ensures
        surface_size(with_surface(header, surface_id, width, height, format)) == (width, height),
        surface_size(surface_announced(with_surface(header, surface_id, width, height, format))) == (
            width,
            height,
        ),
        surface_size(with_handle(header, handle, width, height, format, fence_value)) == (
            width,
            height,
        ),
{
}

} // verus!
