//! Descriptions of graphics buffers, sent along with their file descriptors.
use crate::bytes;
use crate::bytes::{get_u32, get_u64};
use vstd::prelude::*;

verus! {

/// The file descriptors that one message can carry: one for each plane of a buffer.
pub const MAXIMUM_FILE_DESCRIPTORS: usize = 4;

/// The bytes of one file descriptor.
pub const FILE_DESCRIPTOR_BYTES: usize = 4;

/// The bytes of a description.
pub const DMABUF_DESCRIPTOR_BYTES: usize = 28;

/// Describes a graphics buffer.
#[derive(Clone, Copy, Debug, PartialEq, Eq, Structural)]
pub struct DmabufDescriptor {
    pub width: u32,
    pub height: u32,
    pub stride: u32,
    pub modifier: u64,
    /// The format, as four characters.
    pub fourcc: u32,
    /// Counts the buffers: a new one has the next number.
    pub generation: u32,
}

/// The bytes of a description.
pub open spec fn descriptor_bytes(descriptor: DmabufDescriptor) -> Seq<u8> {
    bytes::u32_bytes(descriptor.width) + bytes::u32_bytes(descriptor.height) + bytes::u32_bytes(
        descriptor.stride,
    ) + bytes::u64_bytes(descriptor.modifier) + bytes::u32_bytes(descriptor.fourcc)
        + bytes::u32_bytes(descriptor.generation)
}

/// The description that bytes spell, if there are enough of them.
pub open spec fn descriptor_in(data: Seq<u8>) -> Option<DmabufDescriptor> {
    if data.len() < DMABUF_DESCRIPTOR_BYTES {
        None
    } else {
        Some(
            DmabufDescriptor {
                width: bytes::u32_at(data, 0),
                height: bytes::u32_at(data, 4),
                stride: bytes::u32_at(data, 8),
                modifier: bytes::u64_at(data, 12),
                fourcc: bytes::u32_at(data, 20),
                generation: bytes::u32_at(data, 24),
            },
        )
    }
}

impl DmabufDescriptor {
    /// The bytes of the description.
    pub fn to_bytes(&self) -> (encoded: [u8; DMABUF_DESCRIPTOR_BYTES])
        ensures
            encoded@ == descriptor_bytes(*self),
    {
        let low: u32 = (self.modifier % 0x1_0000_0000) as u32;
        let high: u32 = (self.modifier / 0x1_0000_0000) as u32;
        let encoded: [u8; DMABUF_DESCRIPTOR_BYTES] = [
            (self.width % 0x100) as u8,
            (self.width / 0x100 % 0x100) as u8,
            (self.width / 0x1_0000 % 0x100) as u8,
            (self.width / 0x100_0000) as u8,
            (self.height % 0x100) as u8,
            (self.height / 0x100 % 0x100) as u8,
            (self.height / 0x1_0000 % 0x100) as u8,
            (self.height / 0x100_0000) as u8,
            (self.stride % 0x100) as u8,
            (self.stride / 0x100 % 0x100) as u8,
            (self.stride / 0x1_0000 % 0x100) as u8,
            (self.stride / 0x100_0000) as u8,
            (low % 0x100) as u8,
            (low / 0x100 % 0x100) as u8,
            (low / 0x1_0000 % 0x100) as u8,
            (low / 0x100_0000) as u8,
            (high % 0x100) as u8,
            (high / 0x100 % 0x100) as u8,
            (high / 0x1_0000 % 0x100) as u8,
            (high / 0x100_0000) as u8,
            (self.fourcc % 0x100) as u8,
            (self.fourcc / 0x100 % 0x100) as u8,
            (self.fourcc / 0x1_0000 % 0x100) as u8,
            (self.fourcc / 0x100_0000) as u8,
            (self.generation % 0x100) as u8,
            (self.generation / 0x100 % 0x100) as u8,
            (self.generation / 0x1_0000 % 0x100) as u8,
            (self.generation / 0x100_0000) as u8,
        ];
        assert(encoded@ =~= descriptor_bytes(*self));
        encoded
    }

    /// The description that bytes spell, if there are enough of them.
    pub fn from_bytes(data: &[u8]) -> (descriptor: Option<DmabufDescriptor>)
        ensures
            descriptor == descriptor_in(data@),
    {
        if data.len() < DMABUF_DESCRIPTOR_BYTES {
            return None;
        }
        Some(
            DmabufDescriptor {
                width: get_u32(data, 0),
                height: get_u32(data, 4),
                stride: get_u32(data, 8),
                modifier: get_u64(data, 12),
                fourcc: get_u32(data, 20),
                generation: get_u32(data, 24),
            },
        )
    }
}

/// Whether one message can carry so many file descriptors.
pub open spec fn fits_one_message(file_descriptors: nat) -> bool {
    file_descriptors <= MAXIMUM_FILE_DESCRIPTORS
}

/// The number of file descriptors in so many bytes.
pub open spec fn descriptors_in(data_length: nat) -> nat {
    data_length / FILE_DESCRIPTOR_BYTES as nat
}

/// Whether one message can carry so many file descriptors.
pub fn can_send(file_descriptors: usize) -> (possible: bool)
    ensures
        possible == fits_one_message(file_descriptors as nat),
{
    file_descriptors <= MAXIMUM_FILE_DESCRIPTORS
}

/// The number of file descriptors in so many bytes of ancillary data.
pub fn received_count(data_length: usize) -> (count: usize)
    ensures
        count == descriptors_in(data_length as nat),
{
    data_length / FILE_DESCRIPTOR_BYTES
}

/// A description that was sent is received as it was, whatever stands behind it.
pub proof fn law_descriptor_round_trip(descriptor: DmabufDescriptor, rest: Seq<u8>)
    ensures
        descriptor_in(descriptor_bytes(descriptor) + rest) == Some(descriptor),
{
    let data = descriptor_bytes(descriptor) + rest;
    assert(data.subrange(0, 4) =~= bytes::u32_bytes(descriptor.width));
    assert(data.subrange(4, 8) =~= bytes::u32_bytes(descriptor.height));
    assert(data.subrange(8, 12) =~= bytes::u32_bytes(descriptor.stride));
    assert(data.subrange(12, 20) =~= bytes::u64_bytes(descriptor.modifier));
    assert(data.subrange(20, 24) =~= bytes::u32_bytes(descriptor.fourcc));
    assert(data.subrange(24, 28) =~= bytes::u32_bytes(descriptor.generation));
    bytes::lemma_u32_round_trip(descriptor.width, data, 0);
    bytes::lemma_u32_round_trip(descriptor.height, data, 4);
    bytes::lemma_u32_round_trip(descriptor.stride, data, 8);
    bytes::lemma_u64_round_trip(descriptor.modifier, data, 12);
    bytes::lemma_u32_round_trip(descriptor.fourcc, data, 20);
    bytes::lemma_u32_round_trip(descriptor.generation, data, 24);
}

/// A description takes 28 bytes, and each of its numbers stands at a place of its own.
pub proof fn law_description_has_a_layout(descriptor: DmabufDescriptor)
    ensures
        ({
            let data = descriptor_bytes(descriptor);
            &&& data.len() == 28
            &&& data.subrange(0, 4) == bytes::u32_bytes(descriptor.width)
            &&& data.subrange(4, 8) == bytes::u32_bytes(descriptor.height)
            &&& data.subrange(8, 12) == bytes::u32_bytes(descriptor.stride)
            &&& data.subrange(12, 20) == bytes::u64_bytes(descriptor.modifier)
            &&& data.subrange(20, 24) == bytes::u32_bytes(descriptor.fourcc)
            &&& data.subrange(24, 28) == bytes::u32_bytes(descriptor.generation)
        }),
{
    let data = descriptor_bytes(descriptor);
    assert(data.subrange(0, 4) =~= bytes::u32_bytes(descriptor.width));
    assert(data.subrange(4, 8) =~= bytes::u32_bytes(descriptor.height));
    assert(data.subrange(8, 12) =~= bytes::u32_bytes(descriptor.stride));
    assert(data.subrange(12, 20) =~= bytes::u64_bytes(descriptor.modifier));
    assert(data.subrange(20, 24) =~= bytes::u32_bytes(descriptor.fourcc));
    assert(data.subrange(24, 28) =~= bytes::u32_bytes(descriptor.generation));
}

/// Fewer bytes than a description takes are none, and as many or more are one.
pub proof fn law_short_data_is_no_description(data: Seq<u8>)
    ensures
        descriptor_in(data) is Some <==> data.len() >= 28,
{
}

/// One message carries up to four file descriptors, each in four bytes; so many bytes hold as many as were
/// sent, and a part of one does not count.
pub proof fn law_four_file_descriptors_fit(file_descriptors: nat, part: nat)
    requires
        part < 4,
    ensures
        fits_one_message(file_descriptors) <==> file_descriptors <= 4,
        descriptors_in(file_descriptors * 4 + part) == file_descriptors,
{
}

} // verus!
