//! Little-endian integers in byte sequences.
use vstd::prelude::*;

verus! {

/// The four bytes of `value`, least significant first.
pub open spec fn u32_bytes(value: u32) -> Seq<u8> {
    seq![
        (value % 0x100) as u8,
        (value / 0x100 % 0x100) as u8,
        (value / 0x1_0000 % 0x100) as u8,
        (value / 0x100_0000) as u8,
    ]
}

/// The number that the four bytes from `at` on spell, least significant first.
pub open spec fn u32_at(bytes: Seq<u8>, at: int) -> u32 {
    (bytes[at] + bytes[at + 1] * 0x100 + bytes[at + 2] * 0x1_0000 + bytes[at + 3]
        * 0x100_0000) as u32
}

/// The unsigned number with the same four bytes as `value` (two's complement).
pub open spec fn twos_complement(value: i32) -> u32 {
    if value < 0 {
        (value + 0x1_0000_0000) as u32
    } else {
        value as u32
    }
}

/// The signed number with the same four bytes as `value` (two's complement).
pub open spec fn signed(value: u32) -> i32 {
    if value > i32::MAX {
        (value - 0x1_0000_0000) as i32
    } else {
        value as i32
    }
}

/// The four bytes of `value` in two's complement, least significant first.
pub open spec fn i32_bytes(value: i32) -> Seq<u8> {
    u32_bytes(twos_complement(value))
}

/// The signed number that the four bytes from `at` on spell.
pub open spec fn i32_at(bytes: Seq<u8>, at: int) -> i32 {
    signed(u32_at(bytes, at))
}

/// The eight bytes of `value`, least significant first.
pub open spec fn u64_bytes(value: u64) -> Seq<u8> {
    u32_bytes((value % 0x1_0000_0000) as u32) + u32_bytes((value / 0x1_0000_0000) as u32)
}

/// The number that the eight bytes from `at` on spell, least significant first.
pub open spec fn u64_at(bytes: Seq<u8>, at: int) -> u64 {
    (u32_at(bytes, at) + u32_at(bytes, at + 4) * 0x1_0000_0000) as u64
}

/// Decoding the encoding of a number gives that number back, wherever the bytes stand.
pub proof fn lemma_u32_round_trip(value: u32, bytes: Seq<u8>, at: int)
    requires
        0 <= at,
        at + 4 <= bytes.len(),
        bytes.subrange(at, at + 4) == u32_bytes(value),
    ensures
        u32_at(bytes, at) == value,
{
    let four = bytes.subrange(at, at + 4);
    assert(bytes[at] == four[0]);
    assert(bytes[at + 1] == four[1]);
    assert(bytes[at + 2] == four[2]);
    assert(bytes[at + 3] == four[3]);
}

/// Decoding the encoding of a signed number gives that number back.
pub proof fn lemma_i32_round_trip(value: i32, bytes: Seq<u8>, at: int)
    requires
        0 <= at,
        at + 4 <= bytes.len(),
        bytes.subrange(at, at + 4) == i32_bytes(value),
    ensures
        i32_at(bytes, at) == value,
{
    lemma_u32_round_trip(twos_complement(value), bytes, at);
}

/// Decoding the encoding of an eight-byte number gives that number back.
pub proof fn lemma_u64_round_trip(value: u64, bytes: Seq<u8>, at: int)
    requires
        0 <= at,
        at + 8 <= bytes.len(),
        bytes.subrange(at, at + 8) == u64_bytes(value),
    ensures
        u64_at(bytes, at) == value,
{
    let low = (value % 0x1_0000_0000) as u32;
    let high = (value / 0x1_0000_0000) as u32;
    let eight = bytes.subrange(at, at + 8);
    assert(bytes.subrange(at, at + 4) =~= eight.subrange(0, 4));
    assert(eight.subrange(0, 4) =~= u32_bytes(low));
    assert(bytes.subrange(at + 4, at + 8) =~= eight.subrange(4, 8));
    assert(eight.subrange(4, 8) =~= u32_bytes(high));
    lemma_u32_round_trip(low, bytes, at);
    lemma_u32_round_trip(high, bytes, at + 4);
}

/// The unsigned number with the same four bytes as `value`.
pub fn as_unsigned(value: i32) -> (number: u32)
    ensures
        number == twos_complement(value),
{
    if value < 0 {
        (value as i64 + 0x1_0000_0000i64) as u32
    } else {
        value as u32
    }
}

/// The signed number with the same four bytes as `value`.
pub fn as_signed(value: u32) -> (number: i32)
    ensures
        number == signed(value),
{
    if value > i32::MAX as u32 {
        (value as i64 - 0x1_0000_0000i64) as i32
    } else {
        value as i32
    }
}

/// Appends the four bytes of `value`.
pub fn push_u32(buffer: &mut Vec<u8>, value: u32)
    ensures
        final(buffer)@ == old(buffer)@ + u32_bytes(value),
{
    buffer.push((value % 0x100) as u8);
    buffer.push((value / 0x100 % 0x100) as u8);
    buffer.push((value / 0x1_0000 % 0x100) as u8);
    buffer.push((value / 0x100_0000) as u8);
    assert(buffer@ =~= old(buffer)@ + u32_bytes(value));
}

/// Reads the four-byte number at `at`.
pub fn get_u32(bytes: &[u8], at: usize) -> (value: u32)
    requires
        at + 4 <= bytes.len(),
    ensures
        value == u32_at(bytes@, at as int),
{
    bytes[at] as u32 + bytes[at + 1] as u32 * 0x100 + bytes[at + 2] as u32 * 0x1_0000 + bytes[at
        + 3] as u32 * 0x100_0000
}

/// Reads the eight-byte number at `at`.
pub fn get_u64(bytes: &[u8], at: usize) -> (value: u64)
    requires
        at + 8 <= bytes.len(),
    ensures
        value == u64_at(bytes@, at as int),
{
    get_u32(bytes, at) as u64 + get_u32(bytes, at + 4) as u64 * 0x1_0000_0000
}

/// `bytes` with `patch` written over it from `at` on.
pub open spec fn overwritten(bytes: Seq<u8>, at: int, patch: Seq<u8>) -> Seq<u8> {
    bytes.subrange(0, at) + patch + bytes.subrange(at + patch.len(), bytes.len() as int)
}

/// Whether two memories agree but for the bytes from `at` up to `end`.
pub open spec fn same_outside(before: Seq<u8>, after: Seq<u8>, at: int, end: int) -> bool {
    &&& after.len() == before.len()
    &&& forall|i: int| 0 <= i < before.len() && !(at <= i < end) ==> #[trigger] after[i] == before[i]
}

/// What is written over a memory is then found there, and nothing else has changed.
pub proof fn lemma_overwritten(bytes: Seq<u8>, at: int, patch: Seq<u8>)
    requires
        0 <= at,
        at + patch.len() <= bytes.len(),
    ensures
        overwritten(bytes, at, patch).subrange(at, at + patch.len()) == patch,
        same_outside(bytes, overwritten(bytes, at, patch), at, at + patch.len()),
{
    assert(overwritten(bytes, at, patch).subrange(at, at + patch.len()) =~= patch);
}

/// Writes the four bytes of `value` over the memory at `at`.
pub fn put_u32(memory: &mut [u8], at: usize, value: u32)
    requires
        at + 4 <= old(memory).len(),
    ensures
        final(memory)@ == overwritten(old(memory)@, at as int, u32_bytes(value)),
        u32_at(final(memory)@, at as int) == value,
        same_outside(old(memory)@, final(memory)@, at as int, at + 4),
{
    memory[at] = (value % 0x100) as u8;
    memory[at + 1] = (value / 0x100 % 0x100) as u8;
    memory[at + 2] = (value / 0x1_0000 % 0x100) as u8;
    memory[at + 3] = (value / 0x100_0000) as u8;
    proof {
        assert(memory@ =~= overwritten(old(memory)@, at as int, u32_bytes(value)));
        lemma_overwritten(old(memory)@, at as int, u32_bytes(value));
        lemma_u32_round_trip(value, memory@, at as int);
    }
}

/// Writes the four bytes of a signed number over the memory at `at`.
pub fn put_i32(memory: &mut [u8], at: usize, value: i32)
    requires
        at + 4 <= old(memory).len(),
    ensures
        final(memory)@ == overwritten(old(memory)@, at as int, i32_bytes(value)),
        i32_at(final(memory)@, at as int) == value,
        same_outside(old(memory)@, final(memory)@, at as int, at + 4),
{
    put_u32(memory, at, as_unsigned(value));
}

/// Writes the eight bytes of `value` over the memory at `at`.
pub fn put_u64(memory: &mut [u8], at: usize, value: u64)
    requires
        at + 8 <= old(memory).len(),
    ensures
        final(memory)@ == overwritten(old(memory)@, at as int, u64_bytes(value)),
        u64_at(final(memory)@, at as int) == value,
        same_outside(old(memory)@, final(memory)@, at as int, at + 8),
{
    put_u32(memory, at, (value % 0x1_0000_0000) as u32);
    put_u32(memory, at + 4, (value / 0x1_0000_0000) as u32);
    proof {
        assert(memory@ =~= overwritten(old(memory)@, at as int, u64_bytes(value)));
        lemma_overwritten(old(memory)@, at as int, u64_bytes(value));
        lemma_u64_round_trip(value, memory@, at as int);
    }
}

/// Writes `source` over the memory at `at`.
pub fn put_bytes(memory: &mut [u8], at: usize, source: &[u8])
    requires
        at + source@.len() <= old(memory).len(),
    ensures
        final(memory)@ == overwritten(old(memory)@, at as int, source@),
        final(memory)@.subrange(at as int, at + source@.len()) == source@,
        same_outside(old(memory)@, final(memory)@, at as int, at + source@.len()),
{
    let mut index: usize = 0;
    while index < source.len()
        invariant
            index <= source@.len(),
            at + source@.len() <= old(memory).len(),
            same_outside(old(memory)@, memory@, at as int, at + index),
            memory.len() == old(memory).len(),
            forall|i: int| 0 <= i < index ==> memory@[at + i] == #[trigger] source@[i],
        decreases source.len() - index,
    {
        memory[at + index] = source[index];
        index += 1;
    }
    proof {
        assert(memory@ =~= overwritten(old(memory)@, at as int, source@));
        lemma_overwritten(old(memory)@, at as int, source@);
    }
}

/// The least significant byte of a number comes first, and each further one counts 256 times as much as the
/// one before it.
pub proof fn law_least_significant_byte_comes_first(value: u32)
    ensures
        u32_bytes(value).len() == 4,
        u32_bytes(value)[0] == value % 0x100,
        u32_bytes(value)[1] == value / 0x100 % 0x100,
        u32_bytes(value)[2] == value / 0x1_0000 % 0x100,
        u32_bytes(value)[3] == value / 0x100_0000 % 0x100,
{
}

/// A number of eight bytes is its lower half and then its upper one.
pub proof fn law_lower_half_comes_first(low: u32, high: u32)
    ensures
        u64_bytes((low + high * 0x1_0000_0000) as u64) == u32_bytes(low) + u32_bytes(high),
{
    let value = (low + high * 0x1_0000_0000) as u64;
    assert((value % 0x1_0000_0000) as u32 == low);
    assert((value / 0x1_0000_0000) as u32 == high);
    assert(u64_bytes(value) == u32_bytes(low) + u32_bytes(high));
}

/// A number that is not negative has the bytes of the unsigned one; a negative one has those of the number
/// that lies as far below the end of the range as it lies below zero. Reading them gives the number back.
pub proof fn law_negative_numbers_count_from_the_end(value: i32)
    ensures
        value >= 0 ==> i32_bytes(value) == u32_bytes(value as u32),
        value < 0 ==> i32_bytes(value) == u32_bytes((0x1_0000_0000 + value) as u32),
        signed(twos_complement(value)) == value,
{
}

} // verus!
