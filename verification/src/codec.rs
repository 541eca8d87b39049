//! Little-endian field access on byte sequences, shared by the binary formats of this crate.
use crate::memory::splice;
use vstd::bytes::*;
use vstd::prelude::*;

verus! {

/// The little-endian `u16` stored at `offset`.
pub open spec fn le_u16_at(s: Seq<u8>, offset: int) -> u16 {
    spec_u16_from_le_bytes(s.subrange(offset, offset + 2))
}

/// The little-endian `u32` stored at `offset`.
pub open spec fn le_u32_at(s: Seq<u8>, offset: int) -> u32 {
    spec_u32_from_le_bytes(s.subrange(offset, offset + 4))
}

/// The little-endian `u64` stored at `offset`.
pub open spec fn le_u64_at(s: Seq<u8>, offset: int) -> u64 {
    spec_u64_from_le_bytes(s.subrange(offset, offset + 8))
}

pub fn read_u16_le(bytes: &[u8], offset: usize) -> (r: u16)
    requires offset + 2 <= bytes@.len(),
    ensures r == le_u16_at(bytes@, offset as int),
{
    let _n = bytes.len();
    u16_from_le_bytes(slice_range(bytes, offset, offset + 2))
}

pub fn read_u32_le(bytes: &[u8], offset: usize) -> (r: u32)
    requires offset + 4 <= bytes@.len(),
    ensures r == le_u32_at(bytes@, offset as int),
{
    let _n = bytes.len();
    u32_from_le_bytes(slice_range(bytes, offset, offset + 4))
}

pub fn read_u64_le(bytes: &[u8], offset: usize) -> (r: u64)
    requires offset + 8 <= bytes@.len(),
    ensures r == le_u64_at(bytes@, offset as int),
{
    let _n = bytes.len();
    u64_from_le_bytes(slice_range(bytes, offset, offset + 8))
}

/// The sub-slice `bytes[start..end]`.
pub fn slice_range(bytes: &[u8], start: usize, end: usize) -> (r: &[u8])
    requires start <= end <= bytes@.len(),
    ensures r@ == bytes@.subrange(start as int, end as int),
{
    &bytes[start..end]
}

/// Copies `data` into `buffer` at `offset`.
pub fn put_bytes(buffer: &mut [u8], offset: usize, data: &[u8])
    requires offset + data@.len() <= old(buffer)@.len(),
    ensures final(buffer)@ == splice(old(buffer)@, offset as int, data@),
{
    let ghost before = buffer@;
    let _total = buffer.len();
    let n = data.len();
    let mut i: usize = 0;
    while i < n
        invariant
            n == data@.len(),
            offset + n <= buffer@.len(),
            buffer@.len() == before.len(),
            buffer@.len() <= usize::MAX,
            0 <= i <= n,
            forall|j: int| 0 <= j < i ==> buffer@[offset + j] == data@[j],
            forall|j: int| 0 <= j < buffer@.len() && !(offset <= j < offset + i) ==> buffer@[j] == before[j],
        decreases n - i,
    {
        buffer[offset + i] = data[i];
        i = i + 1;
    }
    assert(buffer@ =~= splice(before, offset as int, data@));
}

/// Stores `value` as two little-endian bytes at `offset`.
pub fn put_u16_le(buffer: &mut [u8], offset: usize, value: u16)
    requires offset + 2 <= old(buffer)@.len(),
    ensures
        final(buffer)@ == splice(old(buffer)@, offset as int, spec_u16_to_le_bytes(value)),
        le_u16_at(final(buffer)@, offset as int) == value,
{
    proof { lemma_auto_spec_u16_to_from_le_bytes(); }
    let bytes = u16_to_le_bytes(value);
    put_bytes(buffer, offset, bytes.as_slice());
    proof { crate::memory::lemma_read_after_write(old(buffer)@, offset as int, spec_u16_to_le_bytes(value)); }
}

/// Stores `value` as four little-endian bytes at `offset`.
pub fn put_u32_le(buffer: &mut [u8], offset: usize, value: u32)
    requires offset + 4 <= old(buffer)@.len(),
    ensures
        final(buffer)@ == splice(old(buffer)@, offset as int, spec_u32_to_le_bytes(value)),
        le_u32_at(final(buffer)@, offset as int) == value,
{
    proof { lemma_auto_spec_u32_to_from_le_bytes(); }
    let bytes = u32_to_le_bytes(value);
    put_bytes(buffer, offset, bytes.as_slice());
    proof { crate::memory::lemma_read_after_write(old(buffer)@, offset as int, spec_u32_to_le_bytes(value)); }
}

/// Stores `value` as eight little-endian bytes at `offset`.
pub fn put_u64_le(buffer: &mut [u8], offset: usize, value: u64)
    requires offset + 8 <= old(buffer)@.len(),
    ensures
        final(buffer)@ == splice(old(buffer)@, offset as int, spec_u64_to_le_bytes(value)),
        le_u64_at(final(buffer)@, offset as int) == value,
{
    proof { lemma_auto_spec_u64_to_from_le_bytes(); }
    let bytes = u64_to_le_bytes(value);
    put_bytes(buffer, offset, bytes.as_slice());
    proof { crate::memory::lemma_read_after_write(old(buffer)@, offset as int, spec_u64_to_le_bytes(value)); }
}

} // verus!
