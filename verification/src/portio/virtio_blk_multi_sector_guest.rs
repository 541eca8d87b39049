//! The guest program of the multi-sector scenario, built instruction by instruction: it finds
//! the virtio-blk function through PCI configuration space, drives the device through MMIO,
//! writes two sectors with one request, reads them back with another, checks every completion
//! and the data, and reports each step on the debug port.
use crate::pci::config_selector;
use crate::pci::virtio_blk::{
    VIRTIO_BLK_CAPACITY_SECTORS, VIRTIO_BLK_S_OK, VIRTIO_BLK_T_IN, VIRTIO_BLK_T_OUT, VIRTIO_STATUS_ACKNOWLEDGE,
    VIRTIO_STATUS_DRIVER, VIRTIO_STATUS_DRIVER_OK, VIRTIO_STATUS_FEATURES_OK, VIRTQ_DESC_F_NEXT, VIRTQ_DESC_F_WRITE,
};
use crate::portio::virtio_blk_multi_sector_fixture::{
    spec_config_selector, READ_NOTIFY_BARRIER, READ_USED_LEN, VIRTIO_BLK_MULTI_SECTOR_DATA_LEN,
    VIRTIO_BLK_MULTI_SECTOR_START, VIRTIO_BLK_MULTI_SECTOR_STATUS_GPA, VIRTIO_QUEUE_SIZE, WRITE_NOTIFY_BARRIER,
};
use vstd::bytes::{
    spec_u16_to_le_bytes, spec_u32_to_le_bytes, spec_u64_to_le_bytes, u16_to_le_bytes, u32_to_le_bytes,
    u64_to_le_bytes,
};
use vstd::prelude::*;

verus! {

/// The guest-physical layout the program uses: the function's BAR0 (the MMIO base the program
/// addresses through `rbx`), the split-ring areas, the request header and the data buffer.
pub const VIRTIO_BLK_BAR0_GPA: u64 = 0x50_0000;
pub const VIRTIO_BLK_DESCRIPTOR_GPA: u64 = 0x1_8000;
pub const VIRTIO_BLK_AVAIL_GPA: u64 = 0x1_8100;
pub const VIRTIO_BLK_USED_GPA: u64 = 0x1_8200;
pub const VIRTIO_BLK_HEADER_GPA: u64 = 0x1_8300;
pub const VIRTIO_BLK_DATA_GPA: u64 = 0x1_8400;
/// The virtio PCI vendor and the modern virtio-blk device IDs.
pub const VIRTIO_PCI_VENDOR_ID: u16 = 0x1af4;
pub const VIRTIO_BLK_PCI_DEVICE_ID: u16 = 0x1042;

/// The five signatures of the payload, as the little-endian qwords the program compares:
/// "BLK-MULT", "I-0001!!", "END1BEG2", "-CROSS!!", "MULTEND!".
pub const SIGNATURE_HEAD: u64 = 0x544c554d2d4b4c42;
pub const SIGNATURE_SEQUENCE: u64 = 0x2121313030302d49;
pub const SIGNATURE_BOUNDARY: u64 = 0x3247454231444e45;
pub const SIGNATURE_CROSS: u64 = 0x212153534f52432d;
pub const SIGNATURE_TAIL: u64 = 0x21444e45544c554d;

fn push_all(code: &mut Vec<u8>, bytes: &[u8])
    ensures final(code)@ == old(code)@ + bytes@,
{
    let ghost start = code@;
    let mut i: usize = 0;
    while i < bytes.len()
        invariant
            0 <= i <= bytes@.len(),
            code@ == start + bytes@.subrange(0, i as int),
        decreases bytes@.len() - i,
    {
        code.push(bytes[i]);
        i = i + 1;
        assert(code@ =~= start + bytes@.subrange(0, i as int));
    }
    assert(bytes@.subrange(0, bytes@.len() as int) =~= bytes@);
}

/// `je +2; ud2`: continue when the last comparison was equal, fault otherwise.
pub open spec fn spec_emit_equal_or_ud2() -> Seq<u8> {
    seq![0x74u8, 0x02u8, 0x0fu8, 0x0bu8]
}

fn emit_equal_or_ud2(code: &mut Vec<u8>)
    ensures final(code)@ == old(code)@ + spec_emit_equal_or_ud2(),
{
    let ghost start = code@;
    let bytes = [0x74u8, 0x02u8, 0x0fu8, 0x0bu8];
    assert(bytes@ =~= seq![0x74u8, 0x02u8, 0x0fu8, 0x0bu8]);
    push_all(code, bytes.as_slice());
    let ghost mut acc: Seq<u8> = seq![0x74u8, 0x02u8, 0x0fu8, 0x0bu8];
    assert(code@ == start + spec_emit_equal_or_ud2());
}

/// `mov al, byte; out 0xe9, al`.
pub open spec fn spec_emit_debug(byte: u8) -> Seq<u8> {
    seq![0xb0u8] + seq![byte] + seq![0xe6u8, 0xe9u8]
}

fn emit_debug(code: &mut Vec<u8>, byte: u8)
    ensures final(code)@ == old(code)@ + spec_emit_debug(byte),
{
    let ghost start = code@;
    let bytes = [0xb0u8];
    assert(bytes@ =~= seq![0xb0u8]);
    push_all(code, bytes.as_slice());
    let ghost mut acc: Seq<u8> = seq![0xb0u8];
    let bytes = [byte];
    assert(bytes@ =~= seq![byte]);
    push_all(code, bytes.as_slice());
    proof {
        vstd::seq_lib::lemma_concat_associative(start, acc, seq![byte]);
        acc = acc + seq![byte];
    }
    let bytes = [0xe6u8, 0xe9u8];
    assert(bytes@ =~= seq![0xe6u8, 0xe9u8]);
    push_all(code, bytes.as_slice());
    proof {
        vstd::seq_lib::lemma_concat_associative(start, acc, seq![0xe6u8, 0xe9u8]);
        acc = acc + seq![0xe6u8, 0xe9u8];
    }
    assert(code@ == start + spec_emit_debug(byte));
}

/// `movabs r64, value` for register number `register`.
pub open spec fn spec_emit_movabs(register: u8, value: u64) -> Seq<u8> {
    seq![0x48u8] + seq![(0xb8u8 + register) as u8] + spec_u64_to_le_bytes(value)
}

fn emit_movabs(code: &mut Vec<u8>, register: u8, value: u64)
    requires register < 8,
    ensures final(code)@ == old(code)@ + spec_emit_movabs(register, value),
{
    let ghost start = code@;
    let bytes = [0x48u8];
    assert(bytes@ =~= seq![0x48u8]);
    push_all(code, bytes.as_slice());
    let ghost mut acc: Seq<u8> = seq![0x48u8];
    let bytes = [(0xb8u8 + register) as u8];
    assert(bytes@ =~= seq![(0xb8u8 + register) as u8]);
    push_all(code, bytes.as_slice());
    proof {
        vstd::seq_lib::lemma_concat_associative(start, acc, seq![(0xb8u8 + register) as u8]);
        acc = acc + seq![(0xb8u8 + register) as u8];
    }
    push_all(code, u64_to_le_bytes(value).as_slice());
    proof {
        vstd::seq_lib::lemma_concat_associative(start, acc, spec_u64_to_le_bytes(value));
        acc = acc + spec_u64_to_le_bytes(value);
    }
    assert(code@ == start + spec_emit_movabs(register, value));
}

/// Selects configuration register `offset` and reads it into `eax`.
pub open spec fn spec_emit_pci_read(offset: u8) -> Seq<u8> {
    seq![0x66u8, 0xbau8, 0xf8u8, 0x0cu8, 0xb8u8] + spec_u32_to_le_bytes(spec_config_selector(offset))
        + seq![0xefu8, 0x66u8, 0xbau8, 0xfcu8, 0x0cu8, 0xedu8]
}

fn emit_pci_read(code: &mut Vec<u8>, offset: u8)
    ensures final(code)@ == old(code)@ + spec_emit_pci_read(offset),
{
    let ghost start = code@;
    let bytes = [0x66u8, 0xbau8, 0xf8u8, 0x0cu8, 0xb8u8];
    assert(bytes@ =~= seq![0x66u8, 0xbau8, 0xf8u8, 0x0cu8, 0xb8u8]);
    push_all(code, bytes.as_slice());
    let ghost mut acc: Seq<u8> = seq![0x66u8, 0xbau8, 0xf8u8, 0x0cu8, 0xb8u8];
    push_all(code, u32_to_le_bytes(config_selector(offset)).as_slice());
    proof {
        vstd::seq_lib::lemma_concat_associative(start, acc, spec_u32_to_le_bytes(spec_config_selector(offset)));
        acc = acc + spec_u32_to_le_bytes(spec_config_selector(offset));
    }
    let bytes = [0xefu8, 0x66u8, 0xbau8, 0xfcu8, 0x0cu8, 0xedu8];
    assert(bytes@ =~= seq![0xefu8, 0x66u8, 0xbau8, 0xfcu8, 0x0cu8, 0xedu8]);
    push_all(code, bytes.as_slice());
    proof {
        vstd::seq_lib::lemma_concat_associative(start, acc, seq![0xefu8, 0x66u8, 0xbau8, 0xfcu8, 0x0cu8, 0xedu8]);
        acc = acc + seq![0xefu8, 0x66u8, 0xbau8, 0xfcu8, 0x0cu8, 0xedu8];
    }
    assert(code@ == start + spec_emit_pci_read(offset));
}

/// `cmp eax, expected`, then fault unless equal.
pub open spec fn spec_emit_compare_eax(expected: u32) -> Seq<u8> {
    seq![0x3du8] + spec_u32_to_le_bytes(expected) + spec_emit_equal_or_ud2()
}

fn emit_compare_eax(code: &mut Vec<u8>, expected: u32)
    ensures final(code)@ == old(code)@ + spec_emit_compare_eax(expected),
{
    let ghost start = code@;
    let bytes = [0x3du8];
    assert(bytes@ =~= seq![0x3du8]);
    push_all(code, bytes.as_slice());
    let ghost mut acc: Seq<u8> = seq![0x3du8];
    push_all(code, u32_to_le_bytes(expected).as_slice());
    proof {
        vstd::seq_lib::lemma_concat_associative(start, acc, spec_u32_to_le_bytes(expected));
        acc = acc + spec_u32_to_le_bytes(expected);
    }
    emit_equal_or_ud2(code);
    proof {
        vstd::seq_lib::lemma_concat_associative(start, acc, spec_emit_equal_or_ud2());
        acc = acc + spec_emit_equal_or_ud2();
    }
    assert(code@ == start + spec_emit_compare_eax(expected));
}

/// `cmp al, expected`, then fault unless equal.
pub open spec fn spec_emit_compare_al(expected: u8) -> Seq<u8> {
    seq![0x3cu8] + seq![expected] + spec_emit_equal_or_ud2()
}

fn emit_compare_al(code: &mut Vec<u8>, expected: u8)
    ensures final(code)@ == old(code)@ + spec_emit_compare_al(expected),
{
    let ghost start = code@;
    let bytes = [0x3cu8];
    assert(bytes@ =~= seq![0x3cu8]);
    push_all(code, bytes.as_slice());
    let ghost mut acc: Seq<u8> = seq![0x3cu8];
    let bytes = [expected];
    assert(bytes@ =~= seq![expected]);
    push_all(code, bytes.as_slice());
    proof {
        vstd::seq_lib::lemma_concat_associative(start, acc, seq![expected]);
        acc = acc + seq![expected];
    }
    emit_equal_or_ud2(code);
    proof {
        vstd::seq_lib::lemma_concat_associative(start, acc, spec_emit_equal_or_ud2());
        acc = acc + spec_emit_equal_or_ud2();
    }
    assert(code@ == start + spec_emit_compare_al(expected));
}

/// `mov byte [rbx + offset], value`.
pub open spec fn spec_emit_mmio_byte_write(offset: u8, value: u8) -> Seq<u8> {
    seq![0xc6u8, 0x43u8] + seq![offset] + seq![value]
}

fn emit_mmio_byte_write(code: &mut Vec<u8>, offset: u8, value: u8)
    ensures final(code)@ == old(code)@ + spec_emit_mmio_byte_write(offset, value),
{
    let ghost start = code@;
    let bytes = [0xc6u8, 0x43u8];
    assert(bytes@ =~= seq![0xc6u8, 0x43u8]);
    push_all(code, bytes.as_slice());
    let ghost mut acc: Seq<u8> = seq![0xc6u8, 0x43u8];
    let bytes = [offset];
    assert(bytes@ =~= seq![offset]);
    push_all(code, bytes.as_slice());
    proof {
        vstd::seq_lib::lemma_concat_associative(start, acc, seq![offset]);
        acc = acc + seq![offset];
    }
    let bytes = [value];
    assert(bytes@ =~= seq![value]);
    push_all(code, bytes.as_slice());
    proof {
        vstd::seq_lib::lemma_concat_associative(start, acc, seq![value]);
        acc = acc + seq![value];
    }
    assert(code@ == start + spec_emit_mmio_byte_write(offset, value));
}

/// `mov word [rbx + offset], value`.
pub open spec fn spec_emit_mmio_word_write(offset: u8, value: u16) -> Seq<u8> {
    seq![0x66u8, 0xc7u8, 0x43u8] + seq![offset] + spec_u16_to_le_bytes(value)
}

fn emit_mmio_word_write(code: &mut Vec<u8>, offset: u8, value: u16)
    ensures final(code)@ == old(code)@ + spec_emit_mmio_word_write(offset, value),
{
    let ghost start = code@;
    let bytes = [0x66u8, 0xc7u8, 0x43u8];
    assert(bytes@ =~= seq![0x66u8, 0xc7u8, 0x43u8]);
    push_all(code, bytes.as_slice());
    let ghost mut acc: Seq<u8> = seq![0x66u8, 0xc7u8, 0x43u8];
    let bytes = [offset];
    assert(bytes@ =~= seq![offset]);
    push_all(code, bytes.as_slice());
    proof {
        vstd::seq_lib::lemma_concat_associative(start, acc, seq![offset]);
        acc = acc + seq![offset];
    }
    push_all(code, u16_to_le_bytes(value).as_slice());
    proof {
        vstd::seq_lib::lemma_concat_associative(start, acc, spec_u16_to_le_bytes(value));
        acc = acc + spec_u16_to_le_bytes(value);
    }
    assert(code@ == start + spec_emit_mmio_word_write(offset, value));
}

/// `mov dword [rbx + offset], value`.
pub open spec fn spec_emit_mmio_dword_write(offset: u8, value: u32) -> Seq<u8> {
    seq![0xc7u8, 0x43u8] + seq![offset] + spec_u32_to_le_bytes(value)
}

fn emit_mmio_dword_write(code: &mut Vec<u8>, offset: u8, value: u32)
    ensures final(code)@ == old(code)@ + spec_emit_mmio_dword_write(offset, value),
{
    let ghost start = code@;
    let bytes = [0xc7u8, 0x43u8];
    assert(bytes@ =~= seq![0xc7u8, 0x43u8]);
    push_all(code, bytes.as_slice());
    let ghost mut acc: Seq<u8> = seq![0xc7u8, 0x43u8];
    let bytes = [offset];
    assert(bytes@ =~= seq![offset]);
    push_all(code, bytes.as_slice());
    proof {
        vstd::seq_lib::lemma_concat_associative(start, acc, seq![offset]);
        acc = acc + seq![offset];
    }
    push_all(code, u32_to_le_bytes(value).as_slice());
    proof {
        vstd::seq_lib::lemma_concat_associative(start, acc, spec_u32_to_le_bytes(value));
        acc = acc + spec_u32_to_le_bytes(value);
    }
    assert(code@ == start + spec_emit_mmio_dword_write(offset, value));
}

/// Stores the 0xff sentinel into the status byte.
pub open spec fn spec_emit_status_sentinel() -> Seq<u8> {
    spec_emit_movabs(7u8, VIRTIO_BLK_MULTI_SECTOR_STATUS_GPA) + seq![0xc6u8, 0x07u8, 0xffu8]
}

fn emit_status_sentinel(code: &mut Vec<u8>)
    ensures final(code)@ == old(code)@ + spec_emit_status_sentinel(),
{
    let ghost start = code@;
    emit_movabs(code, 7u8, VIRTIO_BLK_MULTI_SECTOR_STATUS_GPA);
    let ghost mut acc: Seq<u8> = spec_emit_movabs(7u8, VIRTIO_BLK_MULTI_SECTOR_STATUS_GPA);
    let bytes = [0xc6u8, 0x07u8, 0xffu8];
    assert(bytes@ =~= seq![0xc6u8, 0x07u8, 0xffu8]);
    push_all(code, bytes.as_slice());
    proof {
        vstd::seq_lib::lemma_concat_associative(start, acc, seq![0xc6u8, 0x07u8, 0xffu8]);
        acc = acc + seq![0xc6u8, 0x07u8, 0xffu8];
    }
    assert(code@ == start + spec_emit_status_sentinel());
}

/// Writes the request header: type, reserved 0, the first sector.
pub open spec fn spec_emit_request_header(request_type: u32) -> Seq<u8> {
    spec_emit_movabs(7u8, VIRTIO_BLK_HEADER_GPA) + seq![0xc7u8, 0x07u8] + spec_u32_to_le_bytes(request_type)
        + seq![0xc7u8, 0x47u8, 0x04u8, 0x00u8, 0x00u8, 0x00u8, 0x00u8] + seq![0x48u8, 0xc7u8, 0x47u8, 0x08u8]
        + spec_u32_to_le_bytes(VIRTIO_BLK_MULTI_SECTOR_START as u32)
}

fn emit_request_header(code: &mut Vec<u8>, request_type: u32)
    ensures final(code)@ == old(code)@ + spec_emit_request_header(request_type),
{
    let ghost start = code@;
    emit_movabs(code, 7u8, VIRTIO_BLK_HEADER_GPA);
    let ghost mut acc: Seq<u8> = spec_emit_movabs(7u8, VIRTIO_BLK_HEADER_GPA);
    let bytes = [0xc7u8, 0x07u8];
    assert(bytes@ =~= seq![0xc7u8, 0x07u8]);
    push_all(code, bytes.as_slice());
    proof {
        vstd::seq_lib::lemma_concat_associative(start, acc, seq![0xc7u8, 0x07u8]);
        acc = acc + seq![0xc7u8, 0x07u8];
    }
    push_all(code, u32_to_le_bytes(request_type).as_slice());
    proof {
        vstd::seq_lib::lemma_concat_associative(start, acc, spec_u32_to_le_bytes(request_type));
        acc = acc + spec_u32_to_le_bytes(request_type);
    }
    let bytes = [0xc7u8, 0x47u8, 0x04u8, 0x00u8, 0x00u8, 0x00u8, 0x00u8];
    assert(bytes@ =~= seq![0xc7u8, 0x47u8, 0x04u8, 0x00u8, 0x00u8, 0x00u8, 0x00u8]);
    push_all(code, bytes.as_slice());
    proof {
        vstd::seq_lib::lemma_concat_associative(start, acc, seq![0xc7u8, 0x47u8, 0x04u8, 0x00u8, 0x00u8, 0x00u8, 0x00u8]);
        acc = acc + seq![0xc7u8, 0x47u8, 0x04u8, 0x00u8, 0x00u8, 0x00u8, 0x00u8];
    }
    let bytes = [0x48u8, 0xc7u8, 0x47u8, 0x08u8];
    assert(bytes@ =~= seq![0x48u8, 0xc7u8, 0x47u8, 0x08u8]);
    push_all(code, bytes.as_slice());
    proof {
        vstd::seq_lib::lemma_concat_associative(start, acc, seq![0x48u8, 0xc7u8, 0x47u8, 0x08u8]);
        acc = acc + seq![0x48u8, 0xc7u8, 0x47u8, 0x08u8];
    }
    push_all(code, u32_to_le_bytes(VIRTIO_BLK_MULTI_SECTOR_START as u32).as_slice());
    proof {
        vstd::seq_lib::lemma_concat_associative(start, acc, spec_u32_to_le_bytes(VIRTIO_BLK_MULTI_SECTOR_START as u32));
        acc = acc + spec_u32_to_le_bytes(VIRTIO_BLK_MULTI_SECTOR_START as u32);
    }
    assert(code@ == start + spec_emit_request_header(request_type));
}

/// Clears the used ring's index and first two elements.
pub open spec fn spec_emit_zero_used_ring() -> Seq<u8> {
    spec_emit_movabs(7u8, VIRTIO_BLK_USED_GPA) + seq![0x48u8, 0xc7u8, 0x07u8, 0x00u8, 0x00u8, 0x00u8, 0x00u8]
        + seq![0x48u8, 0xc7u8, 0x47u8, 0x08u8, 0x00u8, 0x00u8, 0x00u8, 0x00u8]
        + seq![0x48u8, 0xc7u8, 0x47u8, 0x10u8, 0x00u8, 0x00u8, 0x00u8, 0x00u8]
}

fn emit_zero_used_ring(code: &mut Vec<u8>)
    ensures final(code)@ == old(code)@ + spec_emit_zero_used_ring(),
{
    let ghost start = code@;
    emit_movabs(code, 7u8, VIRTIO_BLK_USED_GPA);
    let ghost mut acc: Seq<u8> = spec_emit_movabs(7u8, VIRTIO_BLK_USED_GPA);
    let bytes = [0x48u8, 0xc7u8, 0x07u8, 0x00u8, 0x00u8, 0x00u8, 0x00u8];
    assert(bytes@ =~= seq![0x48u8, 0xc7u8, 0x07u8, 0x00u8, 0x00u8, 0x00u8, 0x00u8]);
    push_all(code, bytes.as_slice());
    proof {
        vstd::seq_lib::lemma_concat_associative(start, acc, seq![0x48u8, 0xc7u8, 0x07u8, 0x00u8, 0x00u8, 0x00u8, 0x00u8]);
        acc = acc + seq![0x48u8, 0xc7u8, 0x07u8, 0x00u8, 0x00u8, 0x00u8, 0x00u8];
    }
    let bytes = [0x48u8, 0xc7u8, 0x47u8, 0x08u8, 0x00u8, 0x00u8, 0x00u8, 0x00u8];
    assert(bytes@ =~= seq![0x48u8, 0xc7u8, 0x47u8, 0x08u8, 0x00u8, 0x00u8, 0x00u8, 0x00u8]);
    push_all(code, bytes.as_slice());
    proof {
        vstd::seq_lib::lemma_concat_associative(start, acc, seq![0x48u8, 0xc7u8, 0x47u8, 0x08u8, 0x00u8, 0x00u8, 0x00u8, 0x00u8]);
        acc = acc + seq![0x48u8, 0xc7u8, 0x47u8, 0x08u8, 0x00u8, 0x00u8, 0x00u8, 0x00u8];
    }
    let bytes = [0x48u8, 0xc7u8, 0x47u8, 0x10u8, 0x00u8, 0x00u8, 0x00u8, 0x00u8];
    assert(bytes@ =~= seq![0x48u8, 0xc7u8, 0x47u8, 0x10u8, 0x00u8, 0x00u8, 0x00u8, 0x00u8]);
    push_all(code, bytes.as_slice());
    proof {
        vstd::seq_lib::lemma_concat_associative(start, acc, seq![0x48u8, 0xc7u8, 0x47u8, 0x10u8, 0x00u8, 0x00u8, 0x00u8, 0x00u8]);
        acc = acc + seq![0x48u8, 0xc7u8, 0x47u8, 0x10u8, 0x00u8, 0x00u8, 0x00u8, 0x00u8];
    }
    assert(code@ == start + spec_emit_zero_used_ring());
}

/// Writes the three descriptors: header (16 bytes, next 1), data (both sectors, `data_flags`, next 2), status
/// (1 byte, device-writable).
pub open spec fn spec_emit_request_descriptors(data_flags: u16) -> Seq<u8> {
    spec_emit_movabs(7u8, VIRTIO_BLK_DESCRIPTOR_GPA) + seq![0x48u8, 0xc7u8, 0x07u8]
        + spec_u32_to_le_bytes(VIRTIO_BLK_HEADER_GPA as u32)
        + seq![0xc7u8, 0x47u8, 0x08u8, 0x10u8, 0x00u8, 0x00u8, 0x00u8] + seq![0xc7u8, 0x47u8, 0x0cu8]
        + spec_u32_to_le_bytes((VIRTQ_DESC_F_NEXT as u32) | (1u32 << 16u32))
        + seq![0x48u8, 0xc7u8, 0x47u8, 0x10u8] + spec_u32_to_le_bytes(VIRTIO_BLK_DATA_GPA as u32)
        + seq![0xc7u8, 0x47u8, 0x18u8] + spec_u32_to_le_bytes(VIRTIO_BLK_MULTI_SECTOR_DATA_LEN)
        + seq![0xc7u8, 0x47u8, 0x1cu8] + spec_u32_to_le_bytes((data_flags as u32) | (2u32 << 16u32))
        + seq![0x48u8, 0xc7u8, 0x47u8, 0x20u8]
        + spec_u32_to_le_bytes(VIRTIO_BLK_MULTI_SECTOR_STATUS_GPA as u32)
        + seq![0xc7u8, 0x47u8, 0x28u8, 0x01u8, 0x00u8, 0x00u8, 0x00u8] + seq![0xc7u8, 0x47u8, 0x2cu8]
        + spec_u32_to_le_bytes(VIRTQ_DESC_F_WRITE as u32)
}

fn emit_request_descriptors(code: &mut Vec<u8>, data_flags: u16)
    ensures final(code)@ == old(code)@ + spec_emit_request_descriptors(data_flags),
{
    let ghost start = code@;
    emit_movabs(code, 7u8, VIRTIO_BLK_DESCRIPTOR_GPA);
    let ghost mut acc: Seq<u8> = spec_emit_movabs(7u8, VIRTIO_BLK_DESCRIPTOR_GPA);
    let bytes = [0x48u8, 0xc7u8, 0x07u8];
    assert(bytes@ =~= seq![0x48u8, 0xc7u8, 0x07u8]);
    push_all(code, bytes.as_slice());
    proof {
        vstd::seq_lib::lemma_concat_associative(start, acc, seq![0x48u8, 0xc7u8, 0x07u8]);
        acc = acc + seq![0x48u8, 0xc7u8, 0x07u8];
    }
    push_all(code, u32_to_le_bytes(VIRTIO_BLK_HEADER_GPA as u32).as_slice());
    proof {
        vstd::seq_lib::lemma_concat_associative(start, acc, spec_u32_to_le_bytes(VIRTIO_BLK_HEADER_GPA as u32));
        acc = acc + spec_u32_to_le_bytes(VIRTIO_BLK_HEADER_GPA as u32);
    }
    let bytes = [0xc7u8, 0x47u8, 0x08u8, 0x10u8, 0x00u8, 0x00u8, 0x00u8];
    assert(bytes@ =~= seq![0xc7u8, 0x47u8, 0x08u8, 0x10u8, 0x00u8, 0x00u8, 0x00u8]);
    push_all(code, bytes.as_slice());
    proof {
        vstd::seq_lib::lemma_concat_associative(start, acc, seq![0xc7u8, 0x47u8, 0x08u8, 0x10u8, 0x00u8, 0x00u8, 0x00u8]);
        acc = acc + seq![0xc7u8, 0x47u8, 0x08u8, 0x10u8, 0x00u8, 0x00u8, 0x00u8];
    }
    let bytes = [0xc7u8, 0x47u8, 0x0cu8];
    assert(bytes@ =~= seq![0xc7u8, 0x47u8, 0x0cu8]);
    push_all(code, bytes.as_slice());
    proof {
        vstd::seq_lib::lemma_concat_associative(start, acc, seq![0xc7u8, 0x47u8, 0x0cu8]);
        acc = acc + seq![0xc7u8, 0x47u8, 0x0cu8];
    }
    push_all(code, u32_to_le_bytes((VIRTQ_DESC_F_NEXT as u32) | (1u32 << 16u32)).as_slice());
    proof {
        vstd::seq_lib::lemma_concat_associative(start, acc, spec_u32_to_le_bytes((VIRTQ_DESC_F_NEXT as u32) | (1u32 << 16u32)));
        acc = acc + spec_u32_to_le_bytes((VIRTQ_DESC_F_NEXT as u32) | (1u32 << 16u32));
    }
    let bytes = [0x48u8, 0xc7u8, 0x47u8, 0x10u8];
    assert(bytes@ =~= seq![0x48u8, 0xc7u8, 0x47u8, 0x10u8]);
    push_all(code, bytes.as_slice());
    proof {
        vstd::seq_lib::lemma_concat_associative(start, acc, seq![0x48u8, 0xc7u8, 0x47u8, 0x10u8]);
        acc = acc + seq![0x48u8, 0xc7u8, 0x47u8, 0x10u8];
    }
    push_all(code, u32_to_le_bytes(VIRTIO_BLK_DATA_GPA as u32).as_slice());
    proof {
        vstd::seq_lib::lemma_concat_associative(start, acc, spec_u32_to_le_bytes(VIRTIO_BLK_DATA_GPA as u32));
        acc = acc + spec_u32_to_le_bytes(VIRTIO_BLK_DATA_GPA as u32);
    }
    let bytes = [0xc7u8, 0x47u8, 0x18u8];
    assert(bytes@ =~= seq![0xc7u8, 0x47u8, 0x18u8]);
    push_all(code, bytes.as_slice());
    proof {
        vstd::seq_lib::lemma_concat_associative(start, acc, seq![0xc7u8, 0x47u8, 0x18u8]);
        acc = acc + seq![0xc7u8, 0x47u8, 0x18u8];
    }
    push_all(code, u32_to_le_bytes(VIRTIO_BLK_MULTI_SECTOR_DATA_LEN).as_slice());
    proof {
        vstd::seq_lib::lemma_concat_associative(start, acc, spec_u32_to_le_bytes(VIRTIO_BLK_MULTI_SECTOR_DATA_LEN));
        acc = acc + spec_u32_to_le_bytes(VIRTIO_BLK_MULTI_SECTOR_DATA_LEN);
    }
    let bytes = [0xc7u8, 0x47u8, 0x1cu8];
    assert(bytes@ =~= seq![0xc7u8, 0x47u8, 0x1cu8]);
    push_all(code, bytes.as_slice());
    proof {
        vstd::seq_lib::lemma_concat_associative(start, acc, seq![0xc7u8, 0x47u8, 0x1cu8]);
        acc = acc + seq![0xc7u8, 0x47u8, 0x1cu8];
    }
    push_all(code, u32_to_le_bytes((data_flags as u32) | (2u32 << 16u32)).as_slice());
    proof {
        vstd::seq_lib::lemma_concat_associative(start, acc, spec_u32_to_le_bytes((data_flags as u32) | (2u32 << 16u32)));
        acc = acc + spec_u32_to_le_bytes((data_flags as u32) | (2u32 << 16u32));
    }
    let bytes = [0x48u8, 0xc7u8, 0x47u8, 0x20u8];
    assert(bytes@ =~= seq![0x48u8, 0xc7u8, 0x47u8, 0x20u8]);
    push_all(code, bytes.as_slice());
    proof {
        vstd::seq_lib::lemma_concat_associative(start, acc, seq![0x48u8, 0xc7u8, 0x47u8, 0x20u8]);
        acc = acc + seq![0x48u8, 0xc7u8, 0x47u8, 0x20u8];
    }
    push_all(code, u32_to_le_bytes(VIRTIO_BLK_MULTI_SECTOR_STATUS_GPA as u32).as_slice());
    proof {
        vstd::seq_lib::lemma_concat_associative(start, acc, spec_u32_to_le_bytes(VIRTIO_BLK_MULTI_SECTOR_STATUS_GPA as u32));
        acc = acc + spec_u32_to_le_bytes(VIRTIO_BLK_MULTI_SECTOR_STATUS_GPA as u32);
    }
    let bytes = [0xc7u8, 0x47u8, 0x28u8, 0x01u8, 0x00u8, 0x00u8, 0x00u8];
    assert(bytes@ =~= seq![0xc7u8, 0x47u8, 0x28u8, 0x01u8, 0x00u8, 0x00u8, 0x00u8]);
    push_all(code, bytes.as_slice());
    proof {
        vstd::seq_lib::lemma_concat_associative(start, acc, seq![0xc7u8, 0x47u8, 0x28u8, 0x01u8, 0x00u8, 0x00u8, 0x00u8]);
        acc = acc + seq![0xc7u8, 0x47u8, 0x28u8, 0x01u8, 0x00u8, 0x00u8, 0x00u8];
    }
    let bytes = [0xc7u8, 0x47u8, 0x2cu8];
    assert(bytes@ =~= seq![0xc7u8, 0x47u8, 0x2cu8]);
    push_all(code, bytes.as_slice());
    proof {
        vstd::seq_lib::lemma_concat_associative(start, acc, seq![0xc7u8, 0x47u8, 0x2cu8]);
        acc = acc + seq![0xc7u8, 0x47u8, 0x2cu8];
    }
    push_all(code, u32_to_le_bytes(VIRTQ_DESC_F_WRITE as u32).as_slice());
    proof {
        vstd::seq_lib::lemma_concat_associative(start, acc, spec_u32_to_le_bytes(VIRTQ_DESC_F_WRITE as u32));
        acc = acc + spec_u32_to_le_bytes(VIRTQ_DESC_F_WRITE as u32);
    }
    assert(code@ == start + spec_emit_request_descriptors(data_flags));
}

/// Checks the first completion: used index 1, element 0 for descriptor 0 with length 1, status OK.
pub open spec fn spec_emit_first_completion_checks() -> Seq<u8> {
    spec_emit_movabs(7u8, VIRTIO_BLK_USED_GPA) + seq![0x0fu8, 0xb7u8, 0x47u8, 0x02u8, 0x83u8, 0xf8u8, 0x01u8]
        + spec_emit_equal_or_ud2() + seq![0x8bu8, 0x47u8, 0x04u8, 0x85u8, 0xc0u8] + spec_emit_equal_or_ud2()
        + seq![0x8bu8, 0x47u8, 0x08u8] + spec_emit_compare_eax(1u32)
        + spec_emit_movabs(7u8, VIRTIO_BLK_MULTI_SECTOR_STATUS_GPA) + seq![0x8au8, 0x07u8]
        + spec_emit_compare_al(VIRTIO_BLK_S_OK)
}

fn emit_first_completion_checks(code: &mut Vec<u8>)
    ensures final(code)@ == old(code)@ + spec_emit_first_completion_checks(),
{
    let ghost start = code@;
    emit_movabs(code, 7u8, VIRTIO_BLK_USED_GPA);
    let ghost mut acc: Seq<u8> = spec_emit_movabs(7u8, VIRTIO_BLK_USED_GPA);
    let bytes = [0x0fu8, 0xb7u8, 0x47u8, 0x02u8, 0x83u8, 0xf8u8, 0x01u8];
    assert(bytes@ =~= seq![0x0fu8, 0xb7u8, 0x47u8, 0x02u8, 0x83u8, 0xf8u8, 0x01u8]);
    push_all(code, bytes.as_slice());
    proof {
        vstd::seq_lib::lemma_concat_associative(start, acc, seq![0x0fu8, 0xb7u8, 0x47u8, 0x02u8, 0x83u8, 0xf8u8, 0x01u8]);
        acc = acc + seq![0x0fu8, 0xb7u8, 0x47u8, 0x02u8, 0x83u8, 0xf8u8, 0x01u8];
    }
    emit_equal_or_ud2(code);
    proof {
        vstd::seq_lib::lemma_concat_associative(start, acc, spec_emit_equal_or_ud2());
        acc = acc + spec_emit_equal_or_ud2();
    }
    let bytes = [0x8bu8, 0x47u8, 0x04u8, 0x85u8, 0xc0u8];
    assert(bytes@ =~= seq![0x8bu8, 0x47u8, 0x04u8, 0x85u8, 0xc0u8]);
    push_all(code, bytes.as_slice());
    proof {
        vstd::seq_lib::lemma_concat_associative(start, acc, seq![0x8bu8, 0x47u8, 0x04u8, 0x85u8, 0xc0u8]);
        acc = acc + seq![0x8bu8, 0x47u8, 0x04u8, 0x85u8, 0xc0u8];
    }
    emit_equal_or_ud2(code);
    proof {
        vstd::seq_lib::lemma_concat_associative(start, acc, spec_emit_equal_or_ud2());
        acc = acc + spec_emit_equal_or_ud2();
    }
    let bytes = [0x8bu8, 0x47u8, 0x08u8];
    assert(bytes@ =~= seq![0x8bu8, 0x47u8, 0x08u8]);
    push_all(code, bytes.as_slice());
    proof {
        vstd::seq_lib::lemma_concat_associative(start, acc, seq![0x8bu8, 0x47u8, 0x08u8]);
        acc = acc + seq![0x8bu8, 0x47u8, 0x08u8];
    }
    emit_compare_eax(code, 1u32);
    proof {
        vstd::seq_lib::lemma_concat_associative(start, acc, spec_emit_compare_eax(1u32));
        acc = acc + spec_emit_compare_eax(1u32);
    }
    emit_movabs(code, 7u8, VIRTIO_BLK_MULTI_SECTOR_STATUS_GPA);
    proof {
        vstd::seq_lib::lemma_concat_associative(start, acc, spec_emit_movabs(7u8, VIRTIO_BLK_MULTI_SECTOR_STATUS_GPA));
        acc = acc + spec_emit_movabs(7u8, VIRTIO_BLK_MULTI_SECTOR_STATUS_GPA);
    }
    let bytes = [0x8au8, 0x07u8];
    assert(bytes@ =~= seq![0x8au8, 0x07u8]);
    push_all(code, bytes.as_slice());
    proof {
        vstd::seq_lib::lemma_concat_associative(start, acc, seq![0x8au8, 0x07u8]);
        acc = acc + seq![0x8au8, 0x07u8];
    }
    emit_compare_al(code, VIRTIO_BLK_S_OK);
    proof {
        vstd::seq_lib::lemma_concat_associative(start, acc, spec_emit_compare_al(VIRTIO_BLK_S_OK));
        acc = acc + spec_emit_compare_al(VIRTIO_BLK_S_OK);
    }
    assert(code@ == start + spec_emit_first_completion_checks());
}

/// Loads the qword at `rdi + offset` and faults unless it equals `expected`.
pub open spec fn spec_emit_qword_check(offset: u32, expected: u64) -> Seq<u8> {
    (if offset == 0 { seq![0x48u8, 0x8bu8, 0x07u8] } else { seq![0x48u8, 0x8bu8, 0x87u8] + spec_u32_to_le_bytes(offset) })
        + spec_emit_movabs(1u8, expected) + seq![0x48u8, 0x39u8, 0xc8u8] + spec_emit_equal_or_ud2()
}

fn emit_qword_check(code: &mut Vec<u8>, offset: u32, expected: u64)
    ensures final(code)@ == old(code)@ + spec_emit_qword_check(offset, expected),
{
    let ghost start = code@;
    let ghost pre = code@;
    if offset == 0 {
        code.push(0x48u8);
        code.push(0x8bu8);
        code.push(0x07u8);
    } else {
        code.push(0x48u8);
        code.push(0x8bu8);
        code.push(0x87u8);
        push_all(code, u32_to_le_bytes(offset).as_slice());
    }
    assert(code@ =~= pre + (if offset == 0 { seq![0x48u8, 0x8bu8, 0x07u8] } else { seq![0x48u8, 0x8bu8, 0x87u8] + spec_u32_to_le_bytes(offset) }));
    let ghost mut acc: Seq<u8> = (if offset == 0 { seq![0x48u8, 0x8bu8, 0x07u8] } else { seq![0x48u8, 0x8bu8, 0x87u8] + spec_u32_to_le_bytes(offset) });
    emit_movabs(code, 1u8, expected);
    proof {
        vstd::seq_lib::lemma_concat_associative(start, acc, spec_emit_movabs(1u8, expected));
        acc = acc + spec_emit_movabs(1u8, expected);
    }
    let bytes = [0x48u8, 0x39u8, 0xc8u8];
    assert(bytes@ =~= seq![0x48u8, 0x39u8, 0xc8u8]);
    push_all(code, bytes.as_slice());
    proof {
        vstd::seq_lib::lemma_concat_associative(start, acc, seq![0x48u8, 0x39u8, 0xc8u8]);
        acc = acc + seq![0x48u8, 0x39u8, 0xc8u8];
    }
    emit_equal_or_ud2(code);
    proof {
        vstd::seq_lib::lemma_concat_associative(start, acc, spec_emit_equal_or_ud2());
        acc = acc + spec_emit_equal_or_ud2();
    }
    assert(code@ == start + spec_emit_qword_check(offset, expected));
}

/// Checks the second completion (used index 2, element 1 for descriptor 0 with both sectors plus the status
/// byte, status OK) and the five signatures in the data read back.
pub open spec fn spec_emit_second_completion_checks() -> Seq<u8> {
    spec_emit_movabs(7u8, VIRTIO_BLK_USED_GPA) + seq![0x0fu8, 0xb7u8, 0x47u8, 0x02u8, 0x83u8, 0xf8u8, 0x02u8]
        + spec_emit_equal_or_ud2() + seq![0x8bu8, 0x47u8, 0x0cu8, 0x85u8, 0xc0u8] + spec_emit_equal_or_ud2()
        + seq![0x8bu8, 0x47u8, 0x10u8] + spec_emit_compare_eax(READ_USED_LEN)
        + spec_emit_movabs(7u8, VIRTIO_BLK_MULTI_SECTOR_STATUS_GPA) + seq![0x8au8, 0x07u8]
        + spec_emit_compare_al(VIRTIO_BLK_S_OK) + spec_emit_movabs(7u8, VIRTIO_BLK_DATA_GPA)
        + spec_emit_qword_check(0u32, SIGNATURE_HEAD) + spec_emit_qword_check(8u32, SIGNATURE_SEQUENCE)
        + spec_emit_qword_check(504u32, SIGNATURE_BOUNDARY) + spec_emit_qword_check(512u32, SIGNATURE_CROSS)
        + spec_emit_qword_check(1016u32, SIGNATURE_TAIL)
}

fn emit_second_completion_checks(code: &mut Vec<u8>)
    ensures final(code)@ == old(code)@ + spec_emit_second_completion_checks(),
{
    let ghost start = code@;
    emit_movabs(code, 7u8, VIRTIO_BLK_USED_GPA);
    let ghost mut acc: Seq<u8> = spec_emit_movabs(7u8, VIRTIO_BLK_USED_GPA);
    let bytes = [0x0fu8, 0xb7u8, 0x47u8, 0x02u8, 0x83u8, 0xf8u8, 0x02u8];
    assert(bytes@ =~= seq![0x0fu8, 0xb7u8, 0x47u8, 0x02u8, 0x83u8, 0xf8u8, 0x02u8]);
    push_all(code, bytes.as_slice());
    proof {
        vstd::seq_lib::lemma_concat_associative(start, acc, seq![0x0fu8, 0xb7u8, 0x47u8, 0x02u8, 0x83u8, 0xf8u8, 0x02u8]);
        acc = acc + seq![0x0fu8, 0xb7u8, 0x47u8, 0x02u8, 0x83u8, 0xf8u8, 0x02u8];
    }
    emit_equal_or_ud2(code);
    proof {
        vstd::seq_lib::lemma_concat_associative(start, acc, spec_emit_equal_or_ud2());
        acc = acc + spec_emit_equal_or_ud2();
    }
    let bytes = [0x8bu8, 0x47u8, 0x0cu8, 0x85u8, 0xc0u8];
    assert(bytes@ =~= seq![0x8bu8, 0x47u8, 0x0cu8, 0x85u8, 0xc0u8]);
    push_all(code, bytes.as_slice());
    proof {
        vstd::seq_lib::lemma_concat_associative(start, acc, seq![0x8bu8, 0x47u8, 0x0cu8, 0x85u8, 0xc0u8]);
        acc = acc + seq![0x8bu8, 0x47u8, 0x0cu8, 0x85u8, 0xc0u8];
    }
    emit_equal_or_ud2(code);
    proof {
        vstd::seq_lib::lemma_concat_associative(start, acc, spec_emit_equal_or_ud2());
        acc = acc + spec_emit_equal_or_ud2();
    }
    let bytes = [0x8bu8, 0x47u8, 0x10u8];
    assert(bytes@ =~= seq![0x8bu8, 0x47u8, 0x10u8]);
    push_all(code, bytes.as_slice());
    proof {
        vstd::seq_lib::lemma_concat_associative(start, acc, seq![0x8bu8, 0x47u8, 0x10u8]);
        acc = acc + seq![0x8bu8, 0x47u8, 0x10u8];
    }
    emit_compare_eax(code, READ_USED_LEN);
    proof {
        vstd::seq_lib::lemma_concat_associative(start, acc, spec_emit_compare_eax(READ_USED_LEN));
        acc = acc + spec_emit_compare_eax(READ_USED_LEN);
    }
    emit_movabs(code, 7u8, VIRTIO_BLK_MULTI_SECTOR_STATUS_GPA);
    proof {
        vstd::seq_lib::lemma_concat_associative(start, acc, spec_emit_movabs(7u8, VIRTIO_BLK_MULTI_SECTOR_STATUS_GPA));
        acc = acc + spec_emit_movabs(7u8, VIRTIO_BLK_MULTI_SECTOR_STATUS_GPA);
    }
    let bytes = [0x8au8, 0x07u8];
    assert(bytes@ =~= seq![0x8au8, 0x07u8]);
    push_all(code, bytes.as_slice());
    proof {
        vstd::seq_lib::lemma_concat_associative(start, acc, seq![0x8au8, 0x07u8]);
        acc = acc + seq![0x8au8, 0x07u8];
    }
    emit_compare_al(code, VIRTIO_BLK_S_OK);
    proof {
        vstd::seq_lib::lemma_concat_associative(start, acc, spec_emit_compare_al(VIRTIO_BLK_S_OK));
        acc = acc + spec_emit_compare_al(VIRTIO_BLK_S_OK);
    }
    emit_movabs(code, 7u8, VIRTIO_BLK_DATA_GPA);
    proof {
        vstd::seq_lib::lemma_concat_associative(start, acc, spec_emit_movabs(7u8, VIRTIO_BLK_DATA_GPA));
        acc = acc + spec_emit_movabs(7u8, VIRTIO_BLK_DATA_GPA);
    }
    emit_qword_check(code, 0u32, SIGNATURE_HEAD);
    proof {
        vstd::seq_lib::lemma_concat_associative(start, acc, spec_emit_qword_check(0u32, SIGNATURE_HEAD));
        acc = acc + spec_emit_qword_check(0u32, SIGNATURE_HEAD);
    }
    emit_qword_check(code, 8u32, SIGNATURE_SEQUENCE);
    proof {
        vstd::seq_lib::lemma_concat_associative(start, acc, spec_emit_qword_check(8u32, SIGNATURE_SEQUENCE));
        acc = acc + spec_emit_qword_check(8u32, SIGNATURE_SEQUENCE);
    }
    emit_qword_check(code, 504u32, SIGNATURE_BOUNDARY);
    proof {
        vstd::seq_lib::lemma_concat_associative(start, acc, spec_emit_qword_check(504u32, SIGNATURE_BOUNDARY));
        acc = acc + spec_emit_qword_check(504u32, SIGNATURE_BOUNDARY);
    }
    emit_qword_check(code, 512u32, SIGNATURE_CROSS);
    proof {
        vstd::seq_lib::lemma_concat_associative(start, acc, spec_emit_qword_check(512u32, SIGNATURE_CROSS));
        acc = acc + spec_emit_qword_check(512u32, SIGNATURE_CROSS);
    }
    emit_qword_check(code, 1016u32, SIGNATURE_TAIL);
    proof {
        vstd::seq_lib::lemma_concat_associative(start, acc, spec_emit_qword_check(1016u32, SIGNATURE_TAIL));
        acc = acc + spec_emit_qword_check(1016u32, SIGNATURE_TAIL);
    }
    assert(code@ == start + spec_emit_second_completion_checks());
}

/// Lays out the write request and publishes it as avail index 1.
pub open spec fn spec_emit_write_request_setup() -> Seq<u8> {
    spec_emit_request_descriptors(VIRTQ_DESC_F_NEXT) + spec_emit_request_header(VIRTIO_BLK_T_OUT)
        + spec_emit_status_sentinel() + spec_emit_movabs(7u8, VIRTIO_BLK_AVAIL_GPA)
        + seq![0xc7u8, 0x07u8, 0x00u8, 0x00u8, 0x01u8, 0x00u8]
        + seq![0xc7u8, 0x47u8, 0x04u8, 0x00u8, 0x00u8, 0x00u8, 0x00u8] + spec_emit_zero_used_ring()
}

fn emit_write_request_setup(code: &mut Vec<u8>)
    ensures final(code)@ == old(code)@ + spec_emit_write_request_setup(),
{
    let ghost start = code@;
    emit_request_descriptors(code, VIRTQ_DESC_F_NEXT);
    let ghost mut acc: Seq<u8> = spec_emit_request_descriptors(VIRTQ_DESC_F_NEXT);
    emit_request_header(code, VIRTIO_BLK_T_OUT);
    proof {
        vstd::seq_lib::lemma_concat_associative(start, acc, spec_emit_request_header(VIRTIO_BLK_T_OUT));
        acc = acc + spec_emit_request_header(VIRTIO_BLK_T_OUT);
    }
    emit_status_sentinel(code);
    proof {
        vstd::seq_lib::lemma_concat_associative(start, acc, spec_emit_status_sentinel());
        acc = acc + spec_emit_status_sentinel();
    }
    emit_movabs(code, 7u8, VIRTIO_BLK_AVAIL_GPA);
    proof {
        vstd::seq_lib::lemma_concat_associative(start, acc, spec_emit_movabs(7u8, VIRTIO_BLK_AVAIL_GPA));
        acc = acc + spec_emit_movabs(7u8, VIRTIO_BLK_AVAIL_GPA);
    }
    let bytes = [0xc7u8, 0x07u8, 0x00u8, 0x00u8, 0x01u8, 0x00u8];
    assert(bytes@ =~= seq![0xc7u8, 0x07u8, 0x00u8, 0x00u8, 0x01u8, 0x00u8]);
    push_all(code, bytes.as_slice());
    proof {
        vstd::seq_lib::lemma_concat_associative(start, acc, seq![0xc7u8, 0x07u8, 0x00u8, 0x00u8, 0x01u8, 0x00u8]);
        acc = acc + seq![0xc7u8, 0x07u8, 0x00u8, 0x00u8, 0x01u8, 0x00u8];
    }
    let bytes = [0xc7u8, 0x47u8, 0x04u8, 0x00u8, 0x00u8, 0x00u8, 0x00u8];
    assert(bytes@ =~= seq![0xc7u8, 0x47u8, 0x04u8, 0x00u8, 0x00u8, 0x00u8, 0x00u8]);
    push_all(code, bytes.as_slice());
    proof {
        vstd::seq_lib::lemma_concat_associative(start, acc, seq![0xc7u8, 0x47u8, 0x04u8, 0x00u8, 0x00u8, 0x00u8, 0x00u8]);
        acc = acc + seq![0xc7u8, 0x47u8, 0x04u8, 0x00u8, 0x00u8, 0x00u8, 0x00u8];
    }
    emit_zero_used_ring(code);
    proof {
        vstd::seq_lib::lemma_concat_associative(start, acc, spec_emit_zero_used_ring());
        acc = acc + spec_emit_zero_used_ring();
    }
    assert(code@ == start + spec_emit_write_request_setup());
}

/// Lays out the read request, poisons the data buffer with 0x5a, and publishes it as avail index 2.
pub open spec fn spec_emit_readback_request_setup() -> Seq<u8> {
    spec_emit_request_descriptors(VIRTQ_DESC_F_NEXT | VIRTQ_DESC_F_WRITE)
        + spec_emit_request_header(VIRTIO_BLK_T_IN) + spec_emit_status_sentinel()
        + spec_emit_movabs(7u8, VIRTIO_BLK_DATA_GPA) + seq![0x48u8, 0xb8u8]
        + spec_u64_to_le_bytes(0x5a5a_5a5a_5a5a_5a5au64)
        + seq![0x48u8, 0xc7u8, 0xc1u8, 0x80u8, 0x00u8, 0x00u8, 0x00u8] + seq![0xf3u8, 0x48u8, 0xabu8]
        + spec_emit_movabs(7u8, VIRTIO_BLK_AVAIL_GPA) + seq![0xc7u8, 0x07u8, 0x00u8, 0x00u8, 0x02u8, 0x00u8]
        + seq![0x66u8, 0xc7u8, 0x47u8, 0x06u8, 0x00u8, 0x00u8]
}

fn emit_readback_request_setup(code: &mut Vec<u8>)
    ensures final(code)@ == old(code)@ + spec_emit_readback_request_setup(),
{
    let ghost start = code@;
    emit_request_descriptors(code, VIRTQ_DESC_F_NEXT | VIRTQ_DESC_F_WRITE);
    let ghost mut acc: Seq<u8> = spec_emit_request_descriptors(VIRTQ_DESC_F_NEXT | VIRTQ_DESC_F_WRITE);
    emit_request_header(code, VIRTIO_BLK_T_IN);
    proof {
        vstd::seq_lib::lemma_concat_associative(start, acc, spec_emit_request_header(VIRTIO_BLK_T_IN));
        acc = acc + spec_emit_request_header(VIRTIO_BLK_T_IN);
    }
    emit_status_sentinel(code);
    proof {
        vstd::seq_lib::lemma_concat_associative(start, acc, spec_emit_status_sentinel());
        acc = acc + spec_emit_status_sentinel();
    }
    emit_movabs(code, 7u8, VIRTIO_BLK_DATA_GPA);
    proof {
        vstd::seq_lib::lemma_concat_associative(start, acc, spec_emit_movabs(7u8, VIRTIO_BLK_DATA_GPA));
        acc = acc + spec_emit_movabs(7u8, VIRTIO_BLK_DATA_GPA);
    }
    let bytes = [0x48u8, 0xb8u8];
    assert(bytes@ =~= seq![0x48u8, 0xb8u8]);
    push_all(code, bytes.as_slice());
    proof {
        vstd::seq_lib::lemma_concat_associative(start, acc, seq![0x48u8, 0xb8u8]);
        acc = acc + seq![0x48u8, 0xb8u8];
    }
    push_all(code, u64_to_le_bytes(0x5a5a_5a5a_5a5a_5a5au64).as_slice());
    proof {
        vstd::seq_lib::lemma_concat_associative(start, acc, spec_u64_to_le_bytes(0x5a5a_5a5a_5a5a_5a5au64));
        acc = acc + spec_u64_to_le_bytes(0x5a5a_5a5a_5a5a_5a5au64);
    }
    let bytes = [0x48u8, 0xc7u8, 0xc1u8, 0x80u8, 0x00u8, 0x00u8, 0x00u8];
    assert(bytes@ =~= seq![0x48u8, 0xc7u8, 0xc1u8, 0x80u8, 0x00u8, 0x00u8, 0x00u8]);
    push_all(code, bytes.as_slice());
    proof {
        vstd::seq_lib::lemma_concat_associative(start, acc, seq![0x48u8, 0xc7u8, 0xc1u8, 0x80u8, 0x00u8, 0x00u8, 0x00u8]);
        acc = acc + seq![0x48u8, 0xc7u8, 0xc1u8, 0x80u8, 0x00u8, 0x00u8, 0x00u8];
    }
    let bytes = [0xf3u8, 0x48u8, 0xabu8];
    assert(bytes@ =~= seq![0xf3u8, 0x48u8, 0xabu8]);
    push_all(code, bytes.as_slice());
    proof {
        vstd::seq_lib::lemma_concat_associative(start, acc, seq![0xf3u8, 0x48u8, 0xabu8]);
        acc = acc + seq![0xf3u8, 0x48u8, 0xabu8];
    }
    emit_movabs(code, 7u8, VIRTIO_BLK_AVAIL_GPA);
    proof {
        vstd::seq_lib::lemma_concat_associative(start, acc, spec_emit_movabs(7u8, VIRTIO_BLK_AVAIL_GPA));
        acc = acc + spec_emit_movabs(7u8, VIRTIO_BLK_AVAIL_GPA);
    }
    let bytes = [0xc7u8, 0x07u8, 0x00u8, 0x00u8, 0x02u8, 0x00u8];
    assert(bytes@ =~= seq![0xc7u8, 0x07u8, 0x00u8, 0x00u8, 0x02u8, 0x00u8]);
    push_all(code, bytes.as_slice());
    proof {
        vstd::seq_lib::lemma_concat_associative(start, acc, seq![0xc7u8, 0x07u8, 0x00u8, 0x00u8, 0x02u8, 0x00u8]);
        acc = acc + seq![0xc7u8, 0x07u8, 0x00u8, 0x00u8, 0x02u8, 0x00u8];
    }
    let bytes = [0x66u8, 0xc7u8, 0x47u8, 0x06u8, 0x00u8, 0x00u8];
    assert(bytes@ =~= seq![0x66u8, 0xc7u8, 0x47u8, 0x06u8, 0x00u8, 0x00u8]);
    push_all(code, bytes.as_slice());
    proof {
        vstd::seq_lib::lemma_concat_associative(start, acc, seq![0x66u8, 0xc7u8, 0x47u8, 0x06u8, 0x00u8, 0x00u8]);
        acc = acc + seq![0x66u8, 0xc7u8, 0x47u8, 0x06u8, 0x00u8, 0x00u8];
    }
    assert(code@ == start + spec_emit_readback_request_setup());
}

/// Checks the function's IDs, its capability chain and its BAR0 through configuration reads, then reports
/// "P".
pub open spec fn spec_emit_pci_probe() -> Seq<u8> {
    spec_emit_pci_read(0x00u8)
        + spec_emit_compare_eax(((VIRTIO_BLK_PCI_DEVICE_ID as u32) << 16u32) | (VIRTIO_PCI_VENDOR_ID as u32))
        + spec_emit_pci_read(0x34u8) + spec_emit_compare_eax(0x40u32) + spec_emit_pci_read(0x40u8)
        + spec_emit_compare_eax(0x01105009u32) + spec_emit_pci_read(0x50u8)
        + spec_emit_compare_eax(0x02146409u32) + spec_emit_pci_read(0x64u8)
        + spec_emit_compare_eax(0x03107409u32) + spec_emit_pci_read(0x74u8)
        + spec_emit_compare_eax(0x04100009u32) + spec_emit_pci_read(0x10u8)
        + seq![0x25u8, 0xf0u8, 0xffu8, 0xffu8, 0xffu8] + spec_emit_compare_eax(VIRTIO_BLK_BAR0_GPA as u32)
        + spec_emit_debug(0x50u8)
}

fn emit_pci_probe(code: &mut Vec<u8>)
    ensures final(code)@ == old(code)@ + spec_emit_pci_probe(),
{
    let ghost start = code@;
    emit_pci_read(code, 0x00u8);
    let ghost mut acc: Seq<u8> = spec_emit_pci_read(0x00u8);
    emit_compare_eax(code, ((VIRTIO_BLK_PCI_DEVICE_ID as u32) << 16u32) | (VIRTIO_PCI_VENDOR_ID as u32));
    proof {
        vstd::seq_lib::lemma_concat_associative(start, acc, spec_emit_compare_eax(((VIRTIO_BLK_PCI_DEVICE_ID as u32) << 16u32) | (VIRTIO_PCI_VENDOR_ID as u32)));
        acc = acc + spec_emit_compare_eax(((VIRTIO_BLK_PCI_DEVICE_ID as u32) << 16u32) | (VIRTIO_PCI_VENDOR_ID as u32));
    }
    emit_pci_read(code, 0x34u8);
    proof {
        vstd::seq_lib::lemma_concat_associative(start, acc, spec_emit_pci_read(0x34u8));
        acc = acc + spec_emit_pci_read(0x34u8);
    }
    emit_compare_eax(code, 0x40u32);
    proof {
        vstd::seq_lib::lemma_concat_associative(start, acc, spec_emit_compare_eax(0x40u32));
        acc = acc + spec_emit_compare_eax(0x40u32);
    }
    emit_pci_read(code, 0x40u8);
    proof {
        vstd::seq_lib::lemma_concat_associative(start, acc, spec_emit_pci_read(0x40u8));
        acc = acc + spec_emit_pci_read(0x40u8);
    }
    emit_compare_eax(code, 0x01105009u32);
    proof {
        vstd::seq_lib::lemma_concat_associative(start, acc, spec_emit_compare_eax(0x01105009u32));
        acc = acc + spec_emit_compare_eax(0x01105009u32);
    }
    emit_pci_read(code, 0x50u8);
    proof {
        vstd::seq_lib::lemma_concat_associative(start, acc, spec_emit_pci_read(0x50u8));
        acc = acc + spec_emit_pci_read(0x50u8);
    }
    emit_compare_eax(code, 0x02146409u32);
    proof {
        vstd::seq_lib::lemma_concat_associative(start, acc, spec_emit_compare_eax(0x02146409u32));
        acc = acc + spec_emit_compare_eax(0x02146409u32);
    }
    emit_pci_read(code, 0x64u8);
    proof {
        vstd::seq_lib::lemma_concat_associative(start, acc, spec_emit_pci_read(0x64u8));
        acc = acc + spec_emit_pci_read(0x64u8);
    }
    emit_compare_eax(code, 0x03107409u32);
    proof {
        vstd::seq_lib::lemma_concat_associative(start, acc, spec_emit_compare_eax(0x03107409u32));
        acc = acc + spec_emit_compare_eax(0x03107409u32);
    }
    emit_pci_read(code, 0x74u8);
    proof {
        vstd::seq_lib::lemma_concat_associative(start, acc, spec_emit_pci_read(0x74u8));
        acc = acc + spec_emit_pci_read(0x74u8);
    }
    emit_compare_eax(code, 0x04100009u32);
    proof {
        vstd::seq_lib::lemma_concat_associative(start, acc, spec_emit_compare_eax(0x04100009u32));
        acc = acc + spec_emit_compare_eax(0x04100009u32);
    }
    emit_pci_read(code, 0x10u8);
    proof {
        vstd::seq_lib::lemma_concat_associative(start, acc, spec_emit_pci_read(0x10u8));
        acc = acc + spec_emit_pci_read(0x10u8);
    }
    let bytes = [0x25u8, 0xf0u8, 0xffu8, 0xffu8, 0xffu8];
    assert(bytes@ =~= seq![0x25u8, 0xf0u8, 0xffu8, 0xffu8, 0xffu8]);
    push_all(code, bytes.as_slice());
    proof {
        vstd::seq_lib::lemma_concat_associative(start, acc, seq![0x25u8, 0xf0u8, 0xffu8, 0xffu8, 0xffu8]);
        acc = acc + seq![0x25u8, 0xf0u8, 0xffu8, 0xffu8, 0xffu8];
    }
    emit_compare_eax(code, VIRTIO_BLK_BAR0_GPA as u32);
    proof {
        vstd::seq_lib::lemma_concat_associative(start, acc, spec_emit_compare_eax(VIRTIO_BLK_BAR0_GPA as u32));
        acc = acc + spec_emit_compare_eax(VIRTIO_BLK_BAR0_GPA as u32);
    }
    emit_debug(code, 0x50u8);
    proof {
        vstd::seq_lib::lemma_concat_associative(start, acc, spec_emit_debug(0x50u8));
        acc = acc + spec_emit_debug(0x50u8);
    }
    assert(code@ == start + spec_emit_pci_probe());
}

/// Checks the capacity, runs the status handshake, negotiates version 1, sets up queue 0, sets DRIVER_OK and
/// checks it, then reports "B".
pub open spec fn spec_emit_driver_setup() -> Seq<u8> {
    spec_emit_movabs(3u8, VIRTIO_BLK_BAR0_GPA) + seq![0x48u8, 0x8bu8, 0x83u8, 0x00u8, 0x03u8, 0x00u8, 0x00u8]
        + seq![0x48u8, 0x83u8, 0xf8u8] + seq![VIRTIO_BLK_CAPACITY_SECTORS as u8] + spec_emit_equal_or_ud2()
        + spec_emit_mmio_byte_write(0x14u8, VIRTIO_STATUS_ACKNOWLEDGE)
        + spec_emit_mmio_byte_write(0x14u8, VIRTIO_STATUS_ACKNOWLEDGE | VIRTIO_STATUS_DRIVER)
        + spec_emit_mmio_dword_write(0x00u8, 1u32) + seq![0x8bu8, 0x43u8, 0x04u8]
        + spec_emit_compare_eax(1u32) + spec_emit_mmio_dword_write(0x08u8, 1u32)
        + spec_emit_mmio_dword_write(0x0cu8, 1u32)
        + spec_emit_mmio_byte_write(0x14u8, VIRTIO_STATUS_ACKNOWLEDGE | VIRTIO_STATUS_DRIVER | VIRTIO_STATUS_FEATURES_OK)
        + spec_emit_mmio_word_write(0x16u8, 0u16) + spec_emit_mmio_word_write(0x18u8, VIRTIO_QUEUE_SIZE)
        + spec_emit_mmio_dword_write(0x20u8, VIRTIO_BLK_DESCRIPTOR_GPA as u32)
        + spec_emit_mmio_dword_write(0x24u8, 0u32)
        + spec_emit_mmio_dword_write(0x28u8, VIRTIO_BLK_AVAIL_GPA as u32)
        + spec_emit_mmio_dword_write(0x2cu8, 0u32)
        + spec_emit_mmio_dword_write(0x30u8, VIRTIO_BLK_USED_GPA as u32)
        + spec_emit_mmio_dword_write(0x34u8, 0u32) + spec_emit_mmio_word_write(0x1cu8, 1u16)
        + spec_emit_mmio_byte_write(0x14u8, VIRTIO_STATUS_ACKNOWLEDGE | VIRTIO_STATUS_DRIVER | VIRTIO_STATUS_FEATURES_OK | VIRTIO_STATUS_DRIVER_OK)
        + seq![0x8au8, 0x43u8, 0x14u8]
        + spec_emit_compare_al(VIRTIO_STATUS_ACKNOWLEDGE | VIRTIO_STATUS_DRIVER | VIRTIO_STATUS_FEATURES_OK | VIRTIO_STATUS_DRIVER_OK)
        + spec_emit_debug(0x42u8)
}

fn emit_driver_setup(code: &mut Vec<u8>)
    ensures final(code)@ == old(code)@ + spec_emit_driver_setup(),
{
    let ghost start = code@;
    emit_movabs(code, 3u8, VIRTIO_BLK_BAR0_GPA);
    let ghost mut acc: Seq<u8> = spec_emit_movabs(3u8, VIRTIO_BLK_BAR0_GPA);
    let bytes = [0x48u8, 0x8bu8, 0x83u8, 0x00u8, 0x03u8, 0x00u8, 0x00u8];
    assert(bytes@ =~= seq![0x48u8, 0x8bu8, 0x83u8, 0x00u8, 0x03u8, 0x00u8, 0x00u8]);
    push_all(code, bytes.as_slice());
    proof {
        vstd::seq_lib::lemma_concat_associative(start, acc, seq![0x48u8, 0x8bu8, 0x83u8, 0x00u8, 0x03u8, 0x00u8, 0x00u8]);
        acc = acc + seq![0x48u8, 0x8bu8, 0x83u8, 0x00u8, 0x03u8, 0x00u8, 0x00u8];
    }
    let bytes = [0x48u8, 0x83u8, 0xf8u8];
    assert(bytes@ =~= seq![0x48u8, 0x83u8, 0xf8u8]);
    push_all(code, bytes.as_slice());
    proof {
        vstd::seq_lib::lemma_concat_associative(start, acc, seq![0x48u8, 0x83u8, 0xf8u8]);
        acc = acc + seq![0x48u8, 0x83u8, 0xf8u8];
    }
    let bytes = [VIRTIO_BLK_CAPACITY_SECTORS as u8];
    assert(bytes@ =~= seq![VIRTIO_BLK_CAPACITY_SECTORS as u8]);
    push_all(code, bytes.as_slice());
    proof {
        vstd::seq_lib::lemma_concat_associative(start, acc, seq![VIRTIO_BLK_CAPACITY_SECTORS as u8]);
        acc = acc + seq![VIRTIO_BLK_CAPACITY_SECTORS as u8];
    }
    emit_equal_or_ud2(code);
    proof {
        vstd::seq_lib::lemma_concat_associative(start, acc, spec_emit_equal_or_ud2());
        acc = acc + spec_emit_equal_or_ud2();
    }
    emit_mmio_byte_write(code, 0x14u8, VIRTIO_STATUS_ACKNOWLEDGE);
    proof {
        vstd::seq_lib::lemma_concat_associative(start, acc, spec_emit_mmio_byte_write(0x14u8, VIRTIO_STATUS_ACKNOWLEDGE));
        acc = acc + spec_emit_mmio_byte_write(0x14u8, VIRTIO_STATUS_ACKNOWLEDGE);
    }
    emit_mmio_byte_write(code, 0x14u8, VIRTIO_STATUS_ACKNOWLEDGE | VIRTIO_STATUS_DRIVER);
    proof {
        vstd::seq_lib::lemma_concat_associative(start, acc, spec_emit_mmio_byte_write(0x14u8, VIRTIO_STATUS_ACKNOWLEDGE | VIRTIO_STATUS_DRIVER));
        acc = acc + spec_emit_mmio_byte_write(0x14u8, VIRTIO_STATUS_ACKNOWLEDGE | VIRTIO_STATUS_DRIVER);
    }
    emit_mmio_dword_write(code, 0x00u8, 1u32);
    proof {
        vstd::seq_lib::lemma_concat_associative(start, acc, spec_emit_mmio_dword_write(0x00u8, 1u32));
        acc = acc + spec_emit_mmio_dword_write(0x00u8, 1u32);
    }
    let bytes = [0x8bu8, 0x43u8, 0x04u8];
    assert(bytes@ =~= seq![0x8bu8, 0x43u8, 0x04u8]);
    push_all(code, bytes.as_slice());
    proof {
        vstd::seq_lib::lemma_concat_associative(start, acc, seq![0x8bu8, 0x43u8, 0x04u8]);
        acc = acc + seq![0x8bu8, 0x43u8, 0x04u8];
    }
    emit_compare_eax(code, 1u32);
    proof {
        vstd::seq_lib::lemma_concat_associative(start, acc, spec_emit_compare_eax(1u32));
        acc = acc + spec_emit_compare_eax(1u32);
    }
    emit_mmio_dword_write(code, 0x08u8, 1u32);
    proof {
        vstd::seq_lib::lemma_concat_associative(start, acc, spec_emit_mmio_dword_write(0x08u8, 1u32));
        acc = acc + spec_emit_mmio_dword_write(0x08u8, 1u32);
    }
    emit_mmio_dword_write(code, 0x0cu8, 1u32);
    proof {
        vstd::seq_lib::lemma_concat_associative(start, acc, spec_emit_mmio_dword_write(0x0cu8, 1u32));
        acc = acc + spec_emit_mmio_dword_write(0x0cu8, 1u32);
    }
    emit_mmio_byte_write(code, 0x14u8, VIRTIO_STATUS_ACKNOWLEDGE | VIRTIO_STATUS_DRIVER | VIRTIO_STATUS_FEATURES_OK);
    proof {
        vstd::seq_lib::lemma_concat_associative(start, acc, spec_emit_mmio_byte_write(0x14u8, VIRTIO_STATUS_ACKNOWLEDGE | VIRTIO_STATUS_DRIVER | VIRTIO_STATUS_FEATURES_OK));
        acc = acc + spec_emit_mmio_byte_write(0x14u8, VIRTIO_STATUS_ACKNOWLEDGE | VIRTIO_STATUS_DRIVER | VIRTIO_STATUS_FEATURES_OK);
    }
    emit_mmio_word_write(code, 0x16u8, 0u16);
    proof {
        vstd::seq_lib::lemma_concat_associative(start, acc, spec_emit_mmio_word_write(0x16u8, 0u16));
        acc = acc + spec_emit_mmio_word_write(0x16u8, 0u16);
    }
    emit_mmio_word_write(code, 0x18u8, VIRTIO_QUEUE_SIZE);
    proof {
        vstd::seq_lib::lemma_concat_associative(start, acc, spec_emit_mmio_word_write(0x18u8, VIRTIO_QUEUE_SIZE));
        acc = acc + spec_emit_mmio_word_write(0x18u8, VIRTIO_QUEUE_SIZE);
    }
    emit_mmio_dword_write(code, 0x20u8, VIRTIO_BLK_DESCRIPTOR_GPA as u32);
    proof {
        vstd::seq_lib::lemma_concat_associative(start, acc, spec_emit_mmio_dword_write(0x20u8, VIRTIO_BLK_DESCRIPTOR_GPA as u32));
        acc = acc + spec_emit_mmio_dword_write(0x20u8, VIRTIO_BLK_DESCRIPTOR_GPA as u32);
    }
    emit_mmio_dword_write(code, 0x24u8, 0u32);
    proof {
        vstd::seq_lib::lemma_concat_associative(start, acc, spec_emit_mmio_dword_write(0x24u8, 0u32));
        acc = acc + spec_emit_mmio_dword_write(0x24u8, 0u32);
    }
    emit_mmio_dword_write(code, 0x28u8, VIRTIO_BLK_AVAIL_GPA as u32);
    proof {
        vstd::seq_lib::lemma_concat_associative(start, acc, spec_emit_mmio_dword_write(0x28u8, VIRTIO_BLK_AVAIL_GPA as u32));
        acc = acc + spec_emit_mmio_dword_write(0x28u8, VIRTIO_BLK_AVAIL_GPA as u32);
    }
    emit_mmio_dword_write(code, 0x2cu8, 0u32);
    proof {
        vstd::seq_lib::lemma_concat_associative(start, acc, spec_emit_mmio_dword_write(0x2cu8, 0u32));
        acc = acc + spec_emit_mmio_dword_write(0x2cu8, 0u32);
    }
    emit_mmio_dword_write(code, 0x30u8, VIRTIO_BLK_USED_GPA as u32);
    proof {
        vstd::seq_lib::lemma_concat_associative(start, acc, spec_emit_mmio_dword_write(0x30u8, VIRTIO_BLK_USED_GPA as u32));
        acc = acc + spec_emit_mmio_dword_write(0x30u8, VIRTIO_BLK_USED_GPA as u32);
    }
    emit_mmio_dword_write(code, 0x34u8, 0u32);
    proof {
        vstd::seq_lib::lemma_concat_associative(start, acc, spec_emit_mmio_dword_write(0x34u8, 0u32));
        acc = acc + spec_emit_mmio_dword_write(0x34u8, 0u32);
    }
    emit_mmio_word_write(code, 0x1cu8, 1u16);
    proof {
        vstd::seq_lib::lemma_concat_associative(start, acc, spec_emit_mmio_word_write(0x1cu8, 1u16));
        acc = acc + spec_emit_mmio_word_write(0x1cu8, 1u16);
    }
    emit_mmio_byte_write(code, 0x14u8, VIRTIO_STATUS_ACKNOWLEDGE | VIRTIO_STATUS_DRIVER | VIRTIO_STATUS_FEATURES_OK | VIRTIO_STATUS_DRIVER_OK);
    proof {
        vstd::seq_lib::lemma_concat_associative(start, acc, spec_emit_mmio_byte_write(0x14u8, VIRTIO_STATUS_ACKNOWLEDGE | VIRTIO_STATUS_DRIVER | VIRTIO_STATUS_FEATURES_OK | VIRTIO_STATUS_DRIVER_OK));
        acc = acc + spec_emit_mmio_byte_write(0x14u8, VIRTIO_STATUS_ACKNOWLEDGE | VIRTIO_STATUS_DRIVER | VIRTIO_STATUS_FEATURES_OK | VIRTIO_STATUS_DRIVER_OK);
    }
    let bytes = [0x8au8, 0x43u8, 0x14u8];
    assert(bytes@ =~= seq![0x8au8, 0x43u8, 0x14u8]);
    push_all(code, bytes.as_slice());
    proof {
        vstd::seq_lib::lemma_concat_associative(start, acc, seq![0x8au8, 0x43u8, 0x14u8]);
        acc = acc + seq![0x8au8, 0x43u8, 0x14u8];
    }
    emit_compare_al(code, VIRTIO_STATUS_ACKNOWLEDGE | VIRTIO_STATUS_DRIVER | VIRTIO_STATUS_FEATURES_OK | VIRTIO_STATUS_DRIVER_OK);
    proof {
        vstd::seq_lib::lemma_concat_associative(start, acc, spec_emit_compare_al(VIRTIO_STATUS_ACKNOWLEDGE | VIRTIO_STATUS_DRIVER | VIRTIO_STATUS_FEATURES_OK | VIRTIO_STATUS_DRIVER_OK));
        acc = acc + spec_emit_compare_al(VIRTIO_STATUS_ACKNOWLEDGE | VIRTIO_STATUS_DRIVER | VIRTIO_STATUS_FEATURES_OK | VIRTIO_STATUS_DRIVER_OK);
    }
    emit_debug(code, 0x42u8);
    proof {
        vstd::seq_lib::lemma_concat_associative(start, acc, spec_emit_debug(0x42u8));
        acc = acc + spec_emit_debug(0x42u8);
    }
    assert(code@ == start + spec_emit_driver_setup());
}

/// Writes both sectors, notifies, reports "W", checks the completion, reports "O".
pub open spec fn spec_emit_write_phase() -> Seq<u8> {
    spec_emit_write_request_setup()
        + seq![0x66u8, 0xc7u8, 0x83u8, 0x00u8, 0x01u8, 0x00u8, 0x00u8, 0x00u8, 0x00u8]
        + spec_emit_debug(WRITE_NOTIFY_BARRIER) + spec_emit_first_completion_checks()
        + spec_emit_debug(0x4fu8)
}

fn emit_write_phase(code: &mut Vec<u8>)
    ensures final(code)@ == old(code)@ + spec_emit_write_phase(),
{
    let ghost start = code@;
    emit_write_request_setup(code);
    let ghost mut acc: Seq<u8> = spec_emit_write_request_setup();
    let bytes = [0x66u8, 0xc7u8, 0x83u8, 0x00u8, 0x01u8, 0x00u8, 0x00u8, 0x00u8, 0x00u8];
    assert(bytes@ =~= seq![0x66u8, 0xc7u8, 0x83u8, 0x00u8, 0x01u8, 0x00u8, 0x00u8, 0x00u8, 0x00u8]);
    push_all(code, bytes.as_slice());
    proof {
        vstd::seq_lib::lemma_concat_associative(start, acc, seq![0x66u8, 0xc7u8, 0x83u8, 0x00u8, 0x01u8, 0x00u8, 0x00u8, 0x00u8, 0x00u8]);
        acc = acc + seq![0x66u8, 0xc7u8, 0x83u8, 0x00u8, 0x01u8, 0x00u8, 0x00u8, 0x00u8, 0x00u8];
    }
    emit_debug(code, WRITE_NOTIFY_BARRIER);
    proof {
        vstd::seq_lib::lemma_concat_associative(start, acc, spec_emit_debug(WRITE_NOTIFY_BARRIER));
        acc = acc + spec_emit_debug(WRITE_NOTIFY_BARRIER);
    }
    emit_first_completion_checks(code);
    proof {
        vstd::seq_lib::lemma_concat_associative(start, acc, spec_emit_first_completion_checks());
        acc = acc + spec_emit_first_completion_checks();
    }
    emit_debug(code, 0x4fu8);
    proof {
        vstd::seq_lib::lemma_concat_associative(start, acc, spec_emit_debug(0x4fu8));
        acc = acc + spec_emit_debug(0x4fu8);
    }
    assert(code@ == start + spec_emit_write_phase());
}

/// Reads both sectors back, notifies, reports "N", checks the completion and the signatures, checks the
/// interrupt status, reports "R" and "D", and halts.
pub open spec fn spec_emit_read_phase() -> Seq<u8> {
    spec_emit_readback_request_setup()
        + seq![0x66u8, 0xc7u8, 0x83u8, 0x00u8, 0x01u8, 0x00u8, 0x00u8, 0x00u8, 0x00u8]
        + spec_emit_debug(READ_NOTIFY_BARRIER) + spec_emit_second_completion_checks()
        + seq![0x8au8, 0x83u8, 0x00u8, 0x02u8, 0x00u8, 0x00u8] + spec_emit_compare_al(1u8)
        + spec_emit_debug(0x52u8) + spec_emit_debug(0x44u8) + seq![0xf4u8]
}

fn emit_read_phase(code: &mut Vec<u8>)
    ensures final(code)@ == old(code)@ + spec_emit_read_phase(),
{
    let ghost start = code@;
    emit_readback_request_setup(code);
    let ghost mut acc: Seq<u8> = spec_emit_readback_request_setup();
    let bytes = [0x66u8, 0xc7u8, 0x83u8, 0x00u8, 0x01u8, 0x00u8, 0x00u8, 0x00u8, 0x00u8];
    assert(bytes@ =~= seq![0x66u8, 0xc7u8, 0x83u8, 0x00u8, 0x01u8, 0x00u8, 0x00u8, 0x00u8, 0x00u8]);
    push_all(code, bytes.as_slice());
    proof {
        vstd::seq_lib::lemma_concat_associative(start, acc, seq![0x66u8, 0xc7u8, 0x83u8, 0x00u8, 0x01u8, 0x00u8, 0x00u8, 0x00u8, 0x00u8]);
        acc = acc + seq![0x66u8, 0xc7u8, 0x83u8, 0x00u8, 0x01u8, 0x00u8, 0x00u8, 0x00u8, 0x00u8];
    }
    emit_debug(code, READ_NOTIFY_BARRIER);
    proof {
        vstd::seq_lib::lemma_concat_associative(start, acc, spec_emit_debug(READ_NOTIFY_BARRIER));
        acc = acc + spec_emit_debug(READ_NOTIFY_BARRIER);
    }
    emit_second_completion_checks(code);
    proof {
        vstd::seq_lib::lemma_concat_associative(start, acc, spec_emit_second_completion_checks());
        acc = acc + spec_emit_second_completion_checks();
    }
    let bytes = [0x8au8, 0x83u8, 0x00u8, 0x02u8, 0x00u8, 0x00u8];
    assert(bytes@ =~= seq![0x8au8, 0x83u8, 0x00u8, 0x02u8, 0x00u8, 0x00u8]);
    push_all(code, bytes.as_slice());
    proof {
        vstd::seq_lib::lemma_concat_associative(start, acc, seq![0x8au8, 0x83u8, 0x00u8, 0x02u8, 0x00u8, 0x00u8]);
        acc = acc + seq![0x8au8, 0x83u8, 0x00u8, 0x02u8, 0x00u8, 0x00u8];
    }
    emit_compare_al(code, 1u8);
    proof {
        vstd::seq_lib::lemma_concat_associative(start, acc, spec_emit_compare_al(1u8));
        acc = acc + spec_emit_compare_al(1u8);
    }
    emit_debug(code, 0x52u8);
    proof {
        vstd::seq_lib::lemma_concat_associative(start, acc, spec_emit_debug(0x52u8));
        acc = acc + spec_emit_debug(0x52u8);
    }
    emit_debug(code, 0x44u8);
    proof {
        vstd::seq_lib::lemma_concat_associative(start, acc, spec_emit_debug(0x44u8));
        acc = acc + spec_emit_debug(0x44u8);
    }
    let bytes = [0xf4u8];
    assert(bytes@ =~= seq![0xf4u8]);
    push_all(code, bytes.as_slice());
    proof {
        vstd::seq_lib::lemma_concat_associative(start, acc, seq![0xf4u8]);
        acc = acc + seq![0xf4u8];
    }
    assert(code@ == start + spec_emit_read_phase());
}

/// The whole program: PCI probe, driver setup, the write phase, the read phase.
pub open spec fn spec_multi_sector_guest() -> Seq<u8> {
    spec_emit_pci_probe() + spec_emit_driver_setup() + spec_emit_write_phase() + spec_emit_read_phase()
}

pub fn build_multi_sector_guest() -> (r: Vec<u8>)
    ensures r@ == spec_multi_sector_guest(),
{
    let mut code: Vec<u8> = Vec::new();
    emit_pci_probe(&mut code);
    emit_driver_setup(&mut code);
    emit_write_phase(&mut code);
    emit_read_phase(&mut code);
    assert(code@ =~= spec_multi_sector_guest());
    code
}

/// The program ends with `hlt`.
pub proof fn lemma_guest_ends_with_hlt()
    ensures
        spec_multi_sector_guest().len() > 0,
        spec_multi_sector_guest().last() == 0xf4u8,
{
    let rest = spec_emit_pci_probe() + spec_emit_driver_setup() + spec_emit_write_phase();
    let read = spec_emit_read_phase();
    assert(read.len() > 0);
    assert(read.last() == 0xf4u8);
    assert((rest + read).last() == read.last());
}

} // verus!
