//! A bounded ELF64 loader for identity-mapped x86-64 guests.
//!
//! `Elf64GuestImage::parse` accepts exactly the little-endian x86-64 `ET_EXEC` images whose
//! `PT_LOAD` segments are identity mapped (virtual == physical), fit the 2 MiB identity map, keep
//! clear of the bootstrap page tables and of each other, and whose entry point lies in the
//! file-backed part of an executable segment. `spec_parse` states the accepted language and the
//! first error of every rejected input.
use crate::codec::{le_u16_at, le_u32_at, le_u64_at, read_u16_le, read_u32_le, read_u64_le, slice_range};
use crate::error::Error;
use crate::long_mode::{LONG_MODE_IDENTITY_MAP_SIZE, LONG_MODE_PAGE_TABLE_END, LONG_MODE_PML4_ADDR};
use crate::memory::{region_access_ok, spec_write, splice, GuestMemory, GuestMemoryRegion, GuestPhysAddr};
use crate::text::{decimal_text, hex_text, push_decimal, push_hex};
use vstd::string::StringExecFns;
use vstd::prelude::*;

verus! {

pub const ELF64_HEADER_SIZE: usize = 64;
pub const ELF64_PROGRAM_HEADER_SIZE: usize = 56;
pub const ELFCLASS64: u8 = 2;
pub const ELFDATA2LSB: u8 = 1;
pub const EV_CURRENT: u8 = 1;
pub const ET_EXEC: u16 = 2;
pub const EM_X86_64: u16 = 62;
pub const PT_LOAD: u32 = 1;
pub const PF_X: u32 = 1;

#[derive(Debug, Clone, PartialEq, Eq)]
pub enum Elf64Error {
    FileTooSmall { length: usize },
    InvalidMagic,
    UnsupportedClass { actual: u8 },
    UnsupportedEndian { actual: u8 },
    UnsupportedIdentVersion { actual: u8 },
    UnsupportedType { actual: u16 },
    UnsupportedMachine { actual: u16 },
    UnsupportedVersion { actual: u32 },
    InvalidHeaderSize { actual: u16 },
    InvalidProgramHeaderSize { actual: u16 },
    ProgramHeaderTableOutOfBounds { offset: u64, count: u16, entry_size: u16, file_length: usize },
    NoLoadableSegments,
    EmptyLoadSegment { index: u16 },
    SegmentVirtualPhysicalMismatch { index: u16, virtual_address: u64, physical_address: u64 },
    SegmentFileSizeExceedsMemorySize { index: u16, file_size: u64, memory_size: u64 },
    SegmentFileRangeOutOfBounds { index: u16, offset: u64, file_size: u64, file_length: usize },
    SegmentAddressRangeOverflow { index: u16, address: u64, memory_size: u64 },
    SegmentOutsideIdentityMap { index: u16, address: u64, memory_size: u64, mapped_size: u64 },
    SegmentOverlapsBootstrapPageTables { index: u16, address: u64, memory_size: u64 },
    InvalidSegmentAlignment { index: u16, alignment: u64 },
    SegmentAlignmentMismatch { index: u16, offset: u64, virtual_address: u64, alignment: u64 },
    LoadSegmentsOverlap { first: u16, second: u16 },
    EntryNotInExecutableFileBackedSegment { entry: u64 },
}

/// One accepted `PT_LOAD` segment.
#[derive(Debug, Clone, Copy, PartialEq, Eq)]
pub struct Elf64LoadSegment {
    pub program_header_index: u16,
    pub file_offset: usize,
    pub file_size: usize,
    pub memory_size: usize,
    pub guest_address: GuestPhysAddr,
    pub flags: u32,
}

impl Elf64LoadSegment {
    pub fn program_header_index(&self) -> (r: u16)
        ensures r == self.program_header_index,
    {
        self.program_header_index
    }

    pub fn guest_address(&self) -> (r: GuestPhysAddr)
        ensures r == self.guest_address,
    {
        self.guest_address
    }

    pub fn file_size(&self) -> (r: usize)
        ensures r == self.file_size,
    {
        self.file_size
    }

    pub fn memory_size(&self) -> (r: usize)
        ensures r == self.memory_size,
    {
        self.memory_size
    }

    pub open spec fn spec_executable(self) -> bool {
        self.flags & PF_X != 0
    }

    pub fn executable(&self) -> (r: bool)
        ensures r == self.spec_executable(),
    {
        self.flags & PF_X != 0
    }
}

/// Whether the half-open ranges `[a_start, a_end)` and `[b_start, b_end)` intersect.
pub open spec fn spec_ranges_overlap(a_start: int, a_end: int, b_start: int, b_end: int) -> bool {
    a_start < b_end && b_start < a_end
}

fn ranges_overlap(a_start: u64, a_end: u64, b_start: u64, b_end: u64) -> (r: bool)
    ensures r == spec_ranges_overlap(a_start as int, a_end as int, b_start as int, b_end as int),
{
    a_start < b_end && b_start < a_end
}

/// A non-zero `u64` with exactly one bit set.
pub open spec fn spec_is_power_of_two(x: u64) -> bool {
    x != 0 && x & ((x - 1) as u64) == 0
}

fn is_power_of_two(x: u64) -> (r: bool)
    ensures r == spec_is_power_of_two(x),
{
    x != 0 && x & (x - 1) == 0
}

/// The program-header table's file offset, entry count and entry size.
pub open spec fn ph_offset(b: Seq<u8>) -> u64 { le_u64_at(b, 32) }
pub open spec fn ph_count(b: Seq<u8>) -> u16 { le_u16_at(b, 56) }
pub open spec fn ph_entry_size(b: Seq<u8>) -> u16 { le_u16_at(b, 54) }

/// The first error of the fixed ELF header, if any.
pub open spec fn header_error(b: Seq<u8>) -> Option<Elf64Error> {
    if b.len() < ELF64_HEADER_SIZE {
        Some(Elf64Error::FileTooSmall { length: b.len() as usize })
    } else if b.subrange(0, 4) != seq![0x7fu8, 0x45u8, 0x4cu8, 0x46u8] {
        Some(Elf64Error::InvalidMagic)
    } else if b[4] != ELFCLASS64 {
        Some(Elf64Error::UnsupportedClass { actual: b[4] })
    } else if b[5] != ELFDATA2LSB {
        Some(Elf64Error::UnsupportedEndian { actual: b[5] })
    } else if b[6] != EV_CURRENT {
        Some(Elf64Error::UnsupportedIdentVersion { actual: b[6] })
    } else if le_u16_at(b, 16) != ET_EXEC {
        Some(Elf64Error::UnsupportedType { actual: le_u16_at(b, 16) })
    } else if le_u16_at(b, 18) != EM_X86_64 {
        Some(Elf64Error::UnsupportedMachine { actual: le_u16_at(b, 18) })
    } else if le_u32_at(b, 20) != EV_CURRENT as u32 {
        Some(Elf64Error::UnsupportedVersion { actual: le_u32_at(b, 20) })
    } else if le_u16_at(b, 52) != ELF64_HEADER_SIZE as u16 {
        Some(Elf64Error::InvalidHeaderSize { actual: le_u16_at(b, 52) })
    } else if ph_entry_size(b) != ELF64_PROGRAM_HEADER_SIZE as u16 {
        Some(Elf64Error::InvalidProgramHeaderSize { actual: ph_entry_size(b) })
    } else if ph_offset(b) + ph_count(b) * ELF64_PROGRAM_HEADER_SIZE > b.len() {
        Some(Elf64Error::ProgramHeaderTableOutOfBounds {
            offset: ph_offset(b),
            count: ph_count(b),
            entry_size: ph_entry_size(b),
            file_length: b.len() as usize,
        })
    } else {
        None
    }
}

/// The program-header index of the first segment in `segments[k..]` whose guest range meets
/// `[start, end)`.
pub open spec fn first_overlap(segments: Seq<Elf64LoadSegment>, start: int, end: int, k: int) -> Option<u16>
    decreases segments.len() - k,
{
    if k < 0 || k >= segments.len() {
        None
    } else if spec_ranges_overlap(start, end, segments[k].guest_address.0 as int,
        segments[k].guest_address.0 + segments[k].memory_size) {
        Some(segments[k].program_header_index)
    } else {
        first_overlap(segments, start, end, k + 1)
    }
}

/// Validates the `PT_LOAD` header at file offset `o` (program header `index`) against the
/// segments accepted before it: the first failing check decides the error.
pub open spec fn load_segment(b: Seq<u8>, o: int, index: u16, earlier: Seq<Elf64LoadSegment>)
    -> Result<Elf64LoadSegment, Elf64Error>
{
    let flags = le_u32_at(b, o + 4);
    let offset = le_u64_at(b, o + 8);
    let vaddr = le_u64_at(b, o + 16);
    let paddr = le_u64_at(b, o + 24);
    let file_size = le_u64_at(b, o + 32);
    let memory_size = le_u64_at(b, o + 40);
    let alignment = le_u64_at(b, o + 48);
    if memory_size == 0 {
        Err(Elf64Error::EmptyLoadSegment { index })
    } else if vaddr != paddr {
        Err(Elf64Error::SegmentVirtualPhysicalMismatch { index, virtual_address: vaddr, physical_address: paddr })
    } else if file_size > memory_size {
        Err(Elf64Error::SegmentFileSizeExceedsMemorySize { index, file_size, memory_size })
    } else if alignment > 1 && !spec_is_power_of_two(alignment) {
        Err(Elf64Error::InvalidSegmentAlignment { index, alignment })
    } else if alignment > 1 && offset % alignment != vaddr % alignment {
        Err(Elf64Error::SegmentAlignmentMismatch { index, offset, virtual_address: vaddr, alignment })
    } else if offset + file_size > b.len() {
        Err(Elf64Error::SegmentFileRangeOutOfBounds { index, offset, file_size, file_length: b.len() as usize })
    } else if vaddr + memory_size > u64::MAX {
        Err(Elf64Error::SegmentAddressRangeOverflow { index, address: vaddr, memory_size })
    } else if vaddr + memory_size > LONG_MODE_IDENTITY_MAP_SIZE {
        Err(Elf64Error::SegmentOutsideIdentityMap {
            index,
            address: vaddr,
            memory_size,
            mapped_size: LONG_MODE_IDENTITY_MAP_SIZE,
        })
    } else if spec_ranges_overlap(vaddr as int, vaddr + memory_size, LONG_MODE_PML4_ADDR as int,
        LONG_MODE_PAGE_TABLE_END as int) {
        Err(Elf64Error::SegmentOverlapsBootstrapPageTables { index, address: vaddr, memory_size })
    } else if first_overlap(earlier, vaddr as int, vaddr + memory_size, 0) is Some {
        Err(Elf64Error::LoadSegmentsOverlap {
            first: first_overlap(earlier, vaddr as int, vaddr + memory_size, 0)->Some_0,
            second: index,
        })
    } else {
        Ok(Elf64LoadSegment {
            program_header_index: index,
            file_offset: offset as usize,
            file_size: file_size as usize,
            memory_size: memory_size as usize,
            guest_address: GuestPhysAddr(vaddr),
            flags,
        })
    }
}

/// Walks program headers `i..count` of the table at `table`, having accepted `acc` so far.
pub open spec fn scan_segments(b: Seq<u8>, table: int, count: int, i: int, acc: Seq<Elf64LoadSegment>)
    -> Result<Seq<Elf64LoadSegment>, Elf64Error>
    decreases count - i,
{
    if i >= count {
        Ok(acc)
    } else {
        let o = table + i * ELF64_PROGRAM_HEADER_SIZE;
        if le_u32_at(b, o) != PT_LOAD {
            scan_segments(b, table, count, i + 1, acc)
        } else {
            match load_segment(b, o, i as u16, acc) {
                Err(e) => Err(e),
                Ok(segment) => scan_segments(b, table, count, i + 1, acc.push(segment)),
            }
        }
    }
}

/// Whether `entry` lies in the file-backed part of an executable segment.
pub open spec fn entry_is_executable(segments: Seq<Elf64LoadSegment>, entry: u64) -> bool {
    exists|j: int| 0 <= j < segments.len() && #[trigger] segments[j].spec_executable()
        && segments[j].guest_address.0 <= entry < segments[j].guest_address.0 + segments[j].file_size
}

/// The entry point and accepted segments of an image, or the first error that rejects it.
pub open spec fn spec_parse(b: Seq<u8>) -> Result<(u64, Seq<Elf64LoadSegment>), Elf64Error> {
    match header_error(b) {
        Some(e) => Err(e),
        None => match scan_segments(b, ph_offset(b) as int, ph_count(b) as int, 0, seq![]) {
            Err(e) => Err(e),
            Ok(segments) => {
                let entry = le_u64_at(b, 24);
                if segments.len() == 0 {
                    Err(Elf64Error::NoLoadableSegments)
                } else if !entry_is_executable(segments, entry) {
                    Err(Elf64Error::EntryNotInExecutableFileBackedSegment { entry })
                } else {
                    Ok((entry, segments))
                }
            },
        },
    }
}

/// A parsed image: the file bytes, the entry point and the accepted `PT_LOAD` segments.
#[derive(Debug, Clone, PartialEq, Eq)]
pub struct Elf64GuestImage<'a> {
    pub bytes: &'a [u8],
    pub entry: GuestPhysAddr,
    pub segments: Vec<Elf64LoadSegment>,
}

/// Every segment fits the identity map and its file bytes lie inside the image.
pub open spec fn segments_fit(b: Seq<u8>, segments: Seq<Elf64LoadSegment>) -> bool {
    forall|j: int| 0 <= j < segments.len() ==> {
        &&& (#[trigger] segments[j]).guest_address.0 + segments[j].memory_size <= LONG_MODE_IDENTITY_MAP_SIZE
        &&& segments[j].file_size <= segments[j].memory_size
        &&& segments[j].file_offset + segments[j].file_size <= b.len()
    }
}

proof fn lemma_load_segment_fits(b: Seq<u8>, o: int, index: u16, earlier: Seq<Elf64LoadSegment>)
    requires
        b.len() <= usize::MAX,
        load_segment(b, o, index, earlier) is Ok,
    ensures
        segments_fit(b, seq![load_segment(b, o, index, earlier)->Ok_0]),
        load_segment(b, o, index, earlier)->Ok_0.program_header_index == index,
{
    let s = load_segment(b, o, index, earlier)->Ok_0;
    assert(seq![s][0] == s);
}

proof fn lemma_scan_fits(b: Seq<u8>, table: int, count: int, i: int, acc: Seq<Elf64LoadSegment>)
    requires
        b.len() <= usize::MAX,
        segments_fit(b, acc),
        scan_segments(b, table, count, i, acc) is Ok,
    ensures
        segments_fit(b, scan_segments(b, table, count, i, acc)->Ok_0),
    decreases count - i,
{
    if i < count {
        let o = table + i * ELF64_PROGRAM_HEADER_SIZE;
        if le_u32_at(b, o) != PT_LOAD {
            lemma_scan_fits(b, table, count, i + 1, acc);
        } else {
            lemma_load_segment_fits(b, o, i as u16, acc);
            let s = load_segment(b, o, i as u16, acc)->Ok_0;
            assert(seq![s][0] == s);
            assert forall|j: int| 0 <= j < acc.push(s).len() implies
                (#[trigger] acc.push(s)[j]).guest_address.0 + acc.push(s)[j].memory_size <= LONG_MODE_IDENTITY_MAP_SIZE
                && acc.push(s)[j].file_size <= acc.push(s)[j].memory_size
                && acc.push(s)[j].file_offset + acc.push(s)[j].file_size <= b.len() by {
                if j < acc.len() {
                    assert(acc.push(s)[j] == acc[j]);
                } else {
                    assert(acc.push(s)[j] == seq![s][0]);
                }
            }
            lemma_scan_fits(b, table, count, i + 1, acc.push(s));
        }
    }
}

/// Validates one `PT_LOAD` program header (see `load_segment`).
#[verifier::loop_isolation(false)]
fn check_load_segment(bytes: &[u8], offset: usize, index: u16, segments: &Vec<Elf64LoadSegment>)
    -> (r: Result<Elf64LoadSegment, Elf64Error>)
    requires
        offset + ELF64_PROGRAM_HEADER_SIZE <= bytes@.len(),
        segments_fit(bytes@, segments@),
    ensures
        r == load_segment(bytes@, offset as int, index, segments@),
{
    let ghost before = segments@;
    let length = bytes.len();
    let flags = read_u32_le(bytes, offset + 4);
    let file_offset = read_u64_le(bytes, offset + 8);
    let vaddr = read_u64_le(bytes, offset + 16);
    let paddr = read_u64_le(bytes, offset + 24);
    let file_size = read_u64_le(bytes, offset + 32);
    let memory_size = read_u64_le(bytes, offset + 40);
    let alignment = read_u64_le(bytes, offset + 48);
    if memory_size == 0 {
        return Err(Elf64Error::EmptyLoadSegment { index });
    }
    if vaddr != paddr {
        return Err(Elf64Error::SegmentVirtualPhysicalMismatch {
            index,
            virtual_address: vaddr,
            physical_address: paddr,
        });
    }
    if file_size > memory_size {
        return Err(Elf64Error::SegmentFileSizeExceedsMemorySize { index, file_size, memory_size });
    }
    if alignment > 1 && !is_power_of_two(alignment) {
        return Err(Elf64Error::InvalidSegmentAlignment { index, alignment });
    }
    if alignment > 1 && file_offset % alignment != vaddr % alignment {
        return Err(Elf64Error::SegmentAlignmentMismatch {
            index,
            offset: file_offset,
            virtual_address: vaddr,
            alignment,
        });
    }
    if file_offset > length as u64 || file_size > length as u64 - file_offset {
        return Err(Elf64Error::SegmentFileRangeOutOfBounds {
            index,
            offset: file_offset,
            file_size,
            file_length: length,
        });
    }
    if vaddr > u64::MAX - memory_size {
        return Err(Elf64Error::SegmentAddressRangeOverflow { index, address: vaddr, memory_size });
    }
    let guest_end = vaddr + memory_size;
    if guest_end > LONG_MODE_IDENTITY_MAP_SIZE {
        return Err(Elf64Error::SegmentOutsideIdentityMap {
            index,
            address: vaddr,
            memory_size,
            mapped_size: LONG_MODE_IDENTITY_MAP_SIZE,
        });
    }
    if ranges_overlap(vaddr, guest_end, LONG_MODE_PML4_ADDR, LONG_MODE_PAGE_TABLE_END) {
        return Err(Elf64Error::SegmentOverlapsBootstrapPageTables { index, address: vaddr, memory_size });
    }
    let mut k: usize = 0;
    while k < segments.len()
        invariant
            segments@ == before,
            segments_fit(bytes@, before),
            0 <= k <= before.len(),
            first_overlap(before, vaddr as int, guest_end as int, 0)
                == first_overlap(before, vaddr as int, guest_end as int, k as int),
        decreases before.len() - k,
    {
        let existing = segments[k];
        let existing_start = existing.guest_address.0;
        let existing_end = existing_start + existing.memory_size as u64;
        if ranges_overlap(vaddr, guest_end, existing_start, existing_end) {
            proof {
                assert(first_overlap(before, vaddr as int, guest_end as int, k as int)
                    == Some(existing.program_header_index));
            }
            return Err(Elf64Error::LoadSegmentsOverlap {
                first: existing.program_header_index,
                second: index,
            });
        }
        k = k + 1;
    }
    let segment = Elf64LoadSegment {
        program_header_index: index,
        file_offset: file_offset as usize,
        file_size: file_size as usize,
        memory_size: memory_size as usize,
        guest_address: GuestPhysAddr(vaddr),
        flags,
    };
    Ok(segment)
    }

/// RAM after placing one segment (its file bytes at its guest address, then zeros up to its
/// memory size), and the refusal that stopped it, if any. A refused write changes nothing, but a
/// file part already written stays written.
pub open spec fn place_segment(region: GuestMemoryRegion, ram: Seq<u8>, image: Seq<u8>, segment: Elf64LoadSegment)
    -> (Seq<u8>, Result<(), Error>)
{
    let file = image.subrange(segment.file_offset as int, segment.file_offset + segment.file_size);
    match spec_write(region, ram, segment.guest_address.0, file) {
        Err(e) => (ram, Err(e)),
        Ok(after_file) => if segment.memory_size > segment.file_size {
            match spec_write(region, after_file, (segment.guest_address.0 + segment.file_size) as u64,
                Seq::new((segment.memory_size - segment.file_size) as nat, |i: int| 0u8)) {
                Err(e) => (after_file, Err(e)),
                Ok(after_zeros) => (after_zeros, Ok(())),
            }
        } else {
            (after_file, Ok(()))
        },
    }
}

/// RAM after placing `segments[k..]` in order, and the first refusal if one stops the load.
pub open spec fn place_segments(region: GuestMemoryRegion, ram: Seq<u8>, image: Seq<u8>,
    segments: Seq<Elf64LoadSegment>, k: int) -> (Seq<u8>, Result<(), Error>)
    decreases segments.len() - k,
{
    if k < 0 || k >= segments.len() {
        (ram, Ok(()))
    } else {
        let (next, placed) = place_segment(region, ram, image, segments[k]);
        if placed is Err {
            (next, placed)
        } else {
            place_segments(region, next, image, segments, k + 1)
        }
    }
}

impl<'a> Elf64GuestImage<'a> {
    pub open spec fn wf(self) -> bool {
        &&& spec_parse(self.bytes@) == Ok::<(u64, Seq<Elf64LoadSegment>), Elf64Error>((self.entry.0, self.segments@))
        &&& segments_fit(self.bytes@, self.segments@)
    }

    /// Parses and validates an ELF64 image. The result is exactly `spec_parse(bytes@)`: on
    /// success the image keeps `bytes`, the entry point and the accepted segments in
    /// program-header order.
    pub fn parse(bytes: &'a [u8]) -> (r: Result<Self, Elf64Error>)
        ensures
            match spec_parse(bytes@) {
                Ok((entry, segments)) => r is Ok && r->Ok_0.bytes@ == bytes@ && r->Ok_0.entry.0 == entry
                    && r->Ok_0.segments@ == segments && r->Ok_0.wf(),
                Err(e) => r == Err::<Self, Elf64Error>(e),
            },
    {
        let length = bytes.len();
        if length < ELF64_HEADER_SIZE {
            return Err(Elf64Error::FileTooSmall { length });
        }
        let magic = slice_range(bytes, 0, 4);
        if !(magic[0] == 0x7f && magic[1] == 0x45 && magic[2] == 0x4c && magic[3] == 0x46) {
            proof {
                assert(magic@ == bytes@.subrange(0, 4));
            }
            return Err(Elf64Error::InvalidMagic);
        }
        assert(bytes@.subrange(0, 4) =~= seq![0x7fu8, 0x45u8, 0x4cu8, 0x46u8]);
        if bytes[4] != ELFCLASS64 {
            return Err(Elf64Error::UnsupportedClass { actual: bytes[4] });
        }
        if bytes[5] != ELFDATA2LSB {
            return Err(Elf64Error::UnsupportedEndian { actual: bytes[5] });
        }
        if bytes[6] != EV_CURRENT {
            return Err(Elf64Error::UnsupportedIdentVersion { actual: bytes[6] });
        }
        let elf_type = read_u16_le(bytes, 16);
        if elf_type != ET_EXEC {
            return Err(Elf64Error::UnsupportedType { actual: elf_type });
        }
        let machine = read_u16_le(bytes, 18);
        if machine != EM_X86_64 {
            return Err(Elf64Error::UnsupportedMachine { actual: machine });
        }
        let version = read_u32_le(bytes, 20);
        if version != EV_CURRENT as u32 {
            return Err(Elf64Error::UnsupportedVersion { actual: version });
        }
        let entry = read_u64_le(bytes, 24);
        let table_offset = read_u64_le(bytes, 32);
        let header_size = read_u16_le(bytes, 52);
        if header_size != ELF64_HEADER_SIZE as u16 {
            return Err(Elf64Error::InvalidHeaderSize { actual: header_size });
        }
        let entry_size = read_u16_le(bytes, 54);
        if entry_size != ELF64_PROGRAM_HEADER_SIZE as u16 {
            return Err(Elf64Error::InvalidProgramHeaderSize { actual: entry_size });
        }
        let count = read_u16_le(bytes, 56);
        let table_size = count as u64 * ELF64_PROGRAM_HEADER_SIZE as u64;
        if table_offset > length as u64 || table_size > length as u64 - table_offset {
            return Err(Elf64Error::ProgramHeaderTableOutOfBounds {
                offset: table_offset,
                count,
                entry_size,
                file_length: length,
            });
        }
        assert(header_error(bytes@) is None);
        let table = table_offset as usize;

        let mut segments: Vec<Elf64LoadSegment> = Vec::new();
        let mut index: u16 = 0;
        while index < count
            invariant
                length == bytes@.len(),
                length <= usize::MAX,
                header_error(bytes@) is None,
                entry == le_u64_at(bytes@, 24),
                table + count * ELF64_PROGRAM_HEADER_SIZE <= length,
                table == ph_offset(bytes@),
                count == ph_count(bytes@),
                0 <= index <= count,
                segments_fit(bytes@, segments@),
                forall|j: int| 0 <= j < segments@.len() ==> (#[trigger] segments@[j]).program_header_index < index,
                scan_segments(bytes@, table as int, count as int, 0, seq![])
                    == scan_segments(bytes@, table as int, count as int, index as int, segments@),
            decreases count - index,
        {
            let ghost before = segments@;
            let offset = table + index as usize * ELF64_PROGRAM_HEADER_SIZE;
            if read_u32_le(bytes, offset) != PT_LOAD {
                index = index + 1;
                continue;
            }
            proof {
                assert(scan_segments(bytes@, table as int, count as int, index as int, before) ==
                    match load_segment(bytes@, offset as int, index, before) {
                        Err(e) => Err(e),
                        Ok(segment) => scan_segments(bytes@, table as int, count as int, index + 1, before.push(segment)),
                    });
            }
            let segment = match check_load_segment(bytes, offset, index, &segments) {
                Ok(segment) => segment,
                Err(e) => return Err(e),
            };
            proof {
                lemma_load_segment_fits(bytes@, offset as int, index, before);
            }
            segments.push(segment);
            proof {
                assert forall|j: int| 0 <= j < segments@.len() implies
                    (#[trigger] segments@[j]).guest_address.0 + segments@[j].memory_size <= LONG_MODE_IDENTITY_MAP_SIZE
                    && segments@[j].file_size <= segments@[j].memory_size
                    && segments@[j].file_offset + segments@[j].file_size <= bytes@.len() by {
                    if j < before.len() {
                        assert(segments@[j] == before[j]);
                    }
                }
            }
            index = index + 1;
        }

        if segments.len() == 0 {
            return Err(Elf64Error::NoLoadableSegments);
        }
        let mut found = false;
        let mut k: usize = 0;
        while k < segments.len()
            invariant
                0 <= k <= segments@.len(),
                segments_fit(bytes@, segments@),
                found == exists|j: int| 0 <= j < k && #[trigger] segments@[j].spec_executable()
                    && segments@[j].guest_address.0 <= entry < segments@[j].guest_address.0 + segments@[j].file_size,
            decreases segments@.len() - k,
        {
            let segment = segments[k];
            let start = segment.guest_address.0;
            let end = start + segment.file_size as u64;
            if segment.executable() && entry >= start && entry < end {
                found = true;
            }
            k = k + 1;
        }
        if !found {
            return Err(Elf64Error::EntryNotInExecutableFileBackedSegment { entry });
        }
        Ok(Elf64GuestImage { bytes, entry: GuestPhysAddr(entry), segments })
    }

    pub fn entry(&self) -> (r: GuestPhysAddr)
        ensures r == self.entry,
    {
        self.entry
    }

    /// Copies every segment's file bytes into guest RAM and zero-fills the rest of its memory
    /// size, segment by segment in order. A refused write stops the load; segments placed before
    /// it stay placed.
    pub fn load(&self, memory: &mut GuestMemory) -> (r: Result<(), Error>)
        requires
            self.wf(),
            old(memory).wf(),
        ensures
            final(memory).wf(),
            final(memory).region == old(memory).region,
            (final(memory).bytes@, r) == place_segments(old(memory).region, old(memory).bytes@, self.bytes@,
                self.segments@, 0),
    {
        let n = self.segments.len();
        let mut k: usize = 0;
        while k < n
            invariant
                self.wf(),
                n == self.segments@.len(),
                0 <= k <= n,
                memory.wf(),
                memory.region == old(memory).region,
                place_segments(old(memory).region, old(memory).bytes@, self.bytes@, self.segments@, 0)
                    == place_segments(memory.region, memory.bytes@, self.bytes@, self.segments@, k as int),
            decreases n - k,
        {
            let segment = self.segments[k];
            let _image_length = self.bytes.len();
            assert(segments_fit(self.bytes@, self.segments@));
            assert(self.segments@[k as int] == segment);
            let file_end = segment.file_offset + segment.file_size;
            let file = slice_range(self.bytes, segment.file_offset, file_end);
            let written = memory.write(segment.guest_address, file);
            if let Err(e) = written {
                return Err(e);
            }
            if segment.memory_size > segment.file_size {
                let zero_length = segment.memory_size - segment.file_size;
                let zeros: Vec<u8> = vec![0u8; zero_length];
                assert(zeros@ =~= Seq::new((segment.memory_size - segment.file_size) as nat, |i: int| 0u8));
                let zero_address = GuestPhysAddr(segment.guest_address.0 + segment.file_size as u64);
                let filled = memory.write(zero_address, zeros.as_slice());
                if let Err(e) = filled {
                    return Err(e);
                }
            }
            k = k + 1;
        }
        Ok(())
    }

    pub fn segments(&self) -> (r: &[Elf64LoadSegment])
        ensures r@ == self.segments@,
    {
        self.segments.as_slice()
    }
}


/// Whether the guest ranges `[address, address + memory size)` of two segments share a byte.
pub open spec fn segment_range_overlaps(a: Elf64LoadSegment, b: Elf64LoadSegment) -> bool {
    spec_ranges_overlap(a.guest_address.0 as int, a.guest_address.0 + a.memory_size,
        b.guest_address.0 as int, b.guest_address.0 + b.memory_size)
}

/// No two segments share a guest byte, and none touches the bootstrap page tables.
pub open spec fn segments_disjoint(segments: Seq<Elf64LoadSegment>) -> bool {
    &&& forall|i: int, j: int| 0 <= i < j < segments.len() ==> !segment_range_overlaps(#[trigger] segments[i], #[trigger] segments[j])
    &&& forall|i: int| 0 <= i < segments.len() ==> !spec_ranges_overlap(
        (#[trigger] segments[i]).guest_address.0 as int, segments[i].guest_address.0 + segments[i].memory_size,
        LONG_MODE_PML4_ADDR as int, LONG_MODE_PAGE_TABLE_END as int)
}

proof fn lemma_no_first_overlap(segments: Seq<Elf64LoadSegment>, start: int, end: int, k: int)
    requires
        0 <= k,
        first_overlap(segments, start, end, k) is None,
    ensures
        forall|j: int| k <= j < segments.len() ==> !spec_ranges_overlap(start, end,
            (#[trigger] segments[j]).guest_address.0 as int, segments[j].guest_address.0 + segments[j].memory_size),
    decreases segments.len() - k,
{
    if k < segments.len() {
        lemma_no_first_overlap(segments, start, end, k + 1);
    }
}

proof fn lemma_scan_disjoint(b: Seq<u8>, table: int, count: int, i: int, acc: Seq<Elf64LoadSegment>)
    requires
        segments_disjoint(acc),
        scan_segments(b, table, count, i, acc) is Ok,
    ensures
        segments_disjoint(scan_segments(b, table, count, i, acc)->Ok_0),
    decreases count - i,
{
    if i < count {
        let o = table + i * ELF64_PROGRAM_HEADER_SIZE;
        if le_u32_at(b, o) != PT_LOAD {
            lemma_scan_disjoint(b, table, count, i + 1, acc);
        } else {
            let s = load_segment(b, o, i as u16, acc)->Ok_0;
            let start = s.guest_address.0 as int;
            let end = s.guest_address.0 + s.memory_size;
            lemma_no_first_overlap(acc, start, end, 0);
            let next = acc.push(s);
            assert forall|x: int, y: int| 0 <= x < y < next.len() implies
                !segment_range_overlaps(#[trigger] next[x], #[trigger] next[y]) by {
                if y < acc.len() {
                    assert(next[x] == acc[x] && next[y] == acc[y]);
                } else {
                    assert(next[y] == s && next[x] == acc[x]);
                    assert(!spec_ranges_overlap(start, end, acc[x].guest_address.0 as int,
                        acc[x].guest_address.0 + acc[x].memory_size));
                }
            }
            assert forall|x: int| 0 <= x < next.len() implies !spec_ranges_overlap(
                (#[trigger] next[x]).guest_address.0 as int, next[x].guest_address.0 + next[x].memory_size,
                LONG_MODE_PML4_ADDR as int, LONG_MODE_PAGE_TABLE_END as int) by {
                if x < acc.len() {
                    assert(next[x] == acc[x]);
                } else {
                    assert(next[x] == s);
                }
            }
            lemma_scan_disjoint(b, table, count, i + 1, next);
        }
    }
}

/// An accepted image's segments never share a guest byte, never touch the bootstrap page
/// tables, and the entry point lies in the file-backed part of an executable one.
pub proof fn lemma_accepted_image_is_well_placed(b: Seq<u8>)
    requires spec_parse(b) is Ok,
    ensures
        segments_disjoint(spec_parse(b)->Ok_0.1),
        entry_is_executable(spec_parse(b)->Ok_0.1, spec_parse(b)->Ok_0.0),
{
    lemma_scan_disjoint(b, ph_offset(b) as int, ph_count(b) as int, 0, seq![]);
}


/// Whether program header `i` of the table at `table` is a `PT_LOAD` header.
pub open spec fn is_load_header(b: Seq<u8>, table: int, i: int) -> bool {
    le_u32_at(b, table + i * ELF64_PROGRAM_HEADER_SIZE) == PT_LOAD
}

/// The segments are exactly the `PT_LOAD` headers among the first `upto` program headers, in
/// table order, each with a non-zero memory size.
pub open spec fn segments_cover_load_headers(b: Seq<u8>, table: int, upto: int, segments: Seq<Elf64LoadSegment>) -> bool {
    &&& forall|j: int| 0 <= j < segments.len() ==> {
        &&& 0 < (#[trigger] segments[j]).memory_size
        &&& segments[j].program_header_index < upto
        &&& is_load_header(b, table, segments[j].program_header_index as int)
    }
    &&& forall|j: int, k: int| 0 <= j < k < segments.len()
        ==> (#[trigger] segments[j]).program_header_index < (#[trigger] segments[k]).program_header_index
    &&& forall|i: int| 0 <= i < upto && #[trigger] is_load_header(b, table, i)
        ==> exists|j: int| 0 <= j < segments.len() && (#[trigger] segments[j]).program_header_index == i
}

proof fn lemma_scan_covers(b: Seq<u8>, table: int, count: int, i: int, acc: Seq<Elf64LoadSegment>)
    requires
        0 <= i <= count <= u16::MAX + 1,
        b.len() <= usize::MAX,
        segments_cover_load_headers(b, table, i, acc),
        scan_segments(b, table, count, i, acc) is Ok,
    ensures
        segments_cover_load_headers(b, table, count, scan_segments(b, table, count, i, acc)->Ok_0),
    decreases count - i,
{
    if i < count {
        let o = table + i * ELF64_PROGRAM_HEADER_SIZE;
        if le_u32_at(b, o) != PT_LOAD {
            assert forall|x: int| 0 <= x < i + 1 && #[trigger] is_load_header(b, table, x)
                implies exists|j: int| 0 <= j < acc.len() && (#[trigger] acc[j]).program_header_index == x by {
                assert(x != i);
            }
            lemma_scan_covers(b, table, count, i + 1, acc);
        } else {
            lemma_load_segment_fits(b, o, i as u16, acc);
            let s = load_segment(b, o, i as u16, acc)->Ok_0;
            let next = acc.push(s);
            assert(s.program_header_index == i);
            assert(0 < s.memory_size);
            assert forall|j: int| 0 <= j < next.len() implies {
                &&& 0 < (#[trigger] next[j]).memory_size
                &&& next[j].program_header_index < i + 1
                &&& is_load_header(b, table, next[j].program_header_index as int)
            } by {
                if j < acc.len() {
                    assert(next[j] == acc[j]);
                }
            }
            assert forall|j: int, k: int| 0 <= j < k < next.len() implies
                (#[trigger] next[j]).program_header_index < (#[trigger] next[k]).program_header_index by {
                assert(next[j] == acc[j]);
                if k < acc.len() {
                    assert(next[k] == acc[k]);
                }
            }
            assert forall|x: int| 0 <= x < i + 1 && #[trigger] is_load_header(b, table, x)
                implies exists|j: int| 0 <= j < next.len() && (#[trigger] next[j]).program_header_index == x by {
                if x == i {
                    assert(next[acc.len() as int].program_header_index == x);
                } else {
                    let j = choose|j: int| 0 <= j < acc.len() && (#[trigger] acc[j]).program_header_index == x;
                    assert(next[j] == acc[j]);
                }
            }
            lemma_scan_covers(b, table, count, i + 1, next);
        }
    }
}

/// An accepted image holds every `PT_LOAD` header of its program-header table exactly once, in
/// table order, and no segment with an empty memory image.
pub proof fn lemma_accepted_image_holds_each_load_header_once(b: Seq<u8>)
    requires
        b.len() <= usize::MAX,
        spec_parse(b) is Ok,
    ensures
        segments_cover_load_headers(b, ph_offset(b) as int, ph_count(b) as int, spec_parse(b)->Ok_0.1),
{
    lemma_scan_covers(b, ph_offset(b) as int, ph_count(b) as int, 0, seq![]);
}


/// The region holds every segment's guest range.
pub open spec fn region_holds_segments(region: GuestMemoryRegion, segments: Seq<Elf64LoadSegment>) -> bool {
    forall|j: int| 0 <= j < segments.len() ==> region.base.0 <= (#[trigger] segments[j]).guest_address.0
        && segments[j].guest_address.0 + segments[j].memory_size <= region.base.0 + region.size
}

/// The RAM byte at offset `t` of the segment's guest range.
pub open spec fn segment_byte(region: GuestMemoryRegion, ram: Seq<u8>, segment: Elf64LoadSegment, t: int) -> u8 {
    ram[segment.guest_address.0 - region.base.0 + t]
}

/// Whether RAM offset `x` lies in the segment's guest range.
pub open spec fn segment_covers(region: GuestMemoryRegion, segment: Elf64LoadSegment, x: int) -> bool {
    segment.guest_address.0 - region.base.0 <= x < segment.guest_address.0 - region.base.0 + segment.memory_size
}

/// RAM after the first `k` segments were placed over `before`: each placed segment holds its
/// file bytes followed by zeros, and every byte no placed segment covers is as it was.
pub open spec fn segments_placed(region: GuestMemoryRegion, before: Seq<u8>, ram: Seq<u8>, image: Seq<u8>,
    segments: Seq<Elf64LoadSegment>, k: int) -> bool
{
    &&& ram.len() == before.len()
    &&& forall|j: int, t: int| 0 <= j < k && 0 <= t < segments[j].file_size
        ==> #[trigger] segment_byte(region, ram, segments[j], t) == image[segments[j].file_offset + t]
    &&& forall|j: int, t: int| 0 <= j < k && segments[j].file_size <= t < segments[j].memory_size
        ==> #[trigger] segment_byte(region, ram, segments[j], t) == 0
    &&& forall|x: int| 0 <= x < ram.len() && (forall|j: int| 0 <= j < k ==> !#[trigger] segment_covers(region, segments[j], x))
        ==> ram[x] == before[x]
}

proof fn lemma_splice_at(s: Seq<u8>, offset: int, data: Seq<u8>)
    requires
        0 <= offset,
        offset + data.len() <= s.len(),
    ensures
        splice(s, offset, data).len() == s.len(),
        forall|x: int| 0 <= x < s.len() ==> #[trigger] splice(s, offset, data)[x] == if offset <= x < offset + data.len() {
            data[x - offset]
        } else {
            s[x]
        },
{
}

proof fn lemma_place_from(region: GuestMemoryRegion, before: Seq<u8>, ram: Seq<u8>, image: Seq<u8>,
    segments: Seq<Elf64LoadSegment>, k: int)
    requires
        0 <= k <= segments.len(),
        before.len() == region.size,
        segments_disjoint(segments),
        segments_fit(image, segments),
        region_holds_segments(region, segments),
        segments_placed(region, before, ram, image, segments, k),
    ensures
        place_segments(region, ram, image, segments, k).1 is Ok,
        segments_placed(region, before, place_segments(region, ram, image, segments, k).0, image, segments,
            segments.len() as int),
    decreases segments.len() - k,
{
    if k < segments.len() {
        let s = segments[k];
        let base = region.base.0 as int;
        let start = s.guest_address.0 - base;
        let file = image.subrange(s.file_offset as int, s.file_offset + s.file_size);
        assert(segments_fit(image, segments));
        assert(region_holds_segments(region, segments));
        assert(region.base.0 <= s.guest_address.0 && s.guest_address.0 + s.memory_size <= region.base.0 + region.size);
        assert(s.file_size <= s.memory_size && s.file_offset + s.file_size <= image.len());
        assert(region_access_ok(region, s.guest_address.0, file.len() as int));
        let after_file = splice(ram, start, file);
        lemma_splice_at(ram, start, file);
        let zeros = Seq::new((s.memory_size - s.file_size) as nat, |i: int| 0u8);
        let next = if s.memory_size > s.file_size {
            assert(region_access_ok(region, (s.guest_address.0 + s.file_size) as u64, zeros.len() as int));
            lemma_splice_at(after_file, start + s.file_size, zeros);
            splice(after_file, start + s.file_size, zeros)
        } else {
            after_file
        };
        assert(place_segment(region, ram, image, s) == (next, Ok::<(), Error>(())));
        assert forall|x: int| 0 <= x < ram.len() && !segment_covers(region, s, x) implies #[trigger] next[x] == ram[x] by {
        }
        assert forall|t: int| 0 <= t < s.file_size implies #[trigger] segment_byte(region, next, s, t)
            == image[s.file_offset + t] by {
            assert(file[t] == image[s.file_offset + t]);
        }
        assert forall|t: int| s.file_size <= t < s.memory_size implies #[trigger] segment_byte(region, next, s, t)
            == 0 by {
        }
        assert forall|j: int, t: int| 0 <= j < k + 1 && 0 <= t < segments[j].file_size
            implies #[trigger] segment_byte(region, next, segments[j], t) == image[segments[j].file_offset + t] by {
            if j < k {
                assert(!segment_range_overlaps(segments[j], segments[k]));
                assert(!segment_covers(region, s, segments[j].guest_address.0 - base + t));
                assert(segment_byte(region, ram, segments[j], t) == image[segments[j].file_offset + t]);
            }
        }
        assert forall|j: int, t: int| 0 <= j < k + 1 && segments[j].file_size <= t < segments[j].memory_size
            implies #[trigger] segment_byte(region, next, segments[j], t) == 0 by {
            if j < k {
                assert(!segment_range_overlaps(segments[j], segments[k]));
                assert(!segment_covers(region, s, segments[j].guest_address.0 - base + t));
                assert(segment_byte(region, ram, segments[j], t) == 0);
            }
        }
        assert forall|x: int| 0 <= x < next.len() && (forall|j: int| 0 <= j < k + 1 ==> !#[trigger] segment_covers(
            region, segments[j], x)) implies next[x] == before[x] by {
            assert(!segment_covers(region, segments[k], x));
            assert forall|j: int| 0 <= j < k implies !#[trigger] segment_covers(region, segments[j], x) by {
                assert(!segment_covers(region, segments[j], x));
            }
        }
        assert(segments_placed(region, before, next, image, segments, k + 1));
        lemma_place_from(region, before, next, image, segments, k + 1);
    }
}

/// Loading an accepted image into RAM whose region holds all its segments succeeds; afterwards
/// each segment's guest range holds its file bytes followed by zeros up to its memory size, and
/// every byte outside all segment ranges is as it was.
pub proof fn lemma_load_places_every_segment(b: Seq<u8>, region: GuestMemoryRegion, ram: Seq<u8>)
    requires
        b.len() <= usize::MAX,
        spec_parse(b) is Ok,
        ram.len() == region.size,
        region_holds_segments(region, spec_parse(b)->Ok_0.1),
    ensures
        place_segments(region, ram, b, spec_parse(b)->Ok_0.1, 0).1 is Ok,
        segments_placed(region, ram, place_segments(region, ram, b, spec_parse(b)->Ok_0.1, 0).0, b,
            spec_parse(b)->Ok_0.1, spec_parse(b)->Ok_0.1.len() as int),
{
    let segments = spec_parse(b)->Ok_0.1;
    lemma_accepted_image_is_well_placed(b);
    lemma_scan_fits(b, ph_offset(b) as int, ph_count(b) as int, 0, seq![]);
    lemma_place_from(region, ram, ram, b, segments, 0);
}


impl Elf64Error {
    /// The text that describes the refusal.
    pub open spec fn spec_message(self) -> Seq<char> {
        match self {
            Elf64Error::FileTooSmall { length } => Seq::<char>::empty() + "ELF64 image is too small for its fixed header: "@ + decimal_text(length as nat) + " bytes"@,
            Elf64Error::InvalidMagic => Seq::<char>::empty() + "ELF64 image has an invalid ELF magic"@,
            Elf64Error::UnsupportedClass { actual } => Seq::<char>::empty() + "unsupported ELF class "@ + decimal_text(actual as nat) + "; expected ELFCLASS64"@,
            Elf64Error::UnsupportedEndian { actual } => Seq::<char>::empty() + "unsupported ELF data encoding "@ + decimal_text(actual as nat) + "; expected little-endian"@,
            Elf64Error::UnsupportedIdentVersion { actual } => Seq::<char>::empty() + "unsupported ELF identification version "@ + decimal_text(actual as nat),
            Elf64Error::UnsupportedType { actual } => Seq::<char>::empty() + "unsupported ELF type "@ + decimal_text(actual as nat) + "; this milestone accepts ET_EXEC only"@,
            Elf64Error::UnsupportedMachine { actual } => Seq::<char>::empty() + "unsupported ELF machine "@ + decimal_text(actual as nat) + "; expected x86-64"@,
            Elf64Error::UnsupportedVersion { actual } => Seq::<char>::empty() + "unsupported ELF version "@ + decimal_text(actual as nat),
            Elf64Error::InvalidHeaderSize { actual } => Seq::<char>::empty() + "invalid ELF64 header size "@ + decimal_text(actual as nat) + "; expected "@ + decimal_text(ELF64_HEADER_SIZE as nat),
            Elf64Error::InvalidProgramHeaderSize { actual } => Seq::<char>::empty() + "invalid ELF64 program-header size "@ + decimal_text(actual as nat) + "; expected "@ + decimal_text(ELF64_PROGRAM_HEADER_SIZE as nat),
            Elf64Error::ProgramHeaderTableOutOfBounds { offset, count, entry_size, file_length } => Seq::<char>::empty() + "ELF64 program-header table is outside the file: offset="@ + hex_text(offset as nat) + ", count="@ + decimal_text(count as nat) + ", entry_size="@ + decimal_text(entry_size as nat) + ", file_length="@ + decimal_text(file_length as nat),
            Elf64Error::NoLoadableSegments => Seq::<char>::empty() + "ELF64 image has no PT_LOAD segment"@,
            Elf64Error::EmptyLoadSegment { index } => Seq::<char>::empty() + "ELF64 PT_LOAD segment "@ + decimal_text(index as nat) + " has zero memory size"@,
            Elf64Error::SegmentVirtualPhysicalMismatch { index, virtual_address, physical_address } => Seq::<char>::empty() + "ELF64 PT_LOAD segment "@ + decimal_text(index as nat) + " requires virtual==physical under the current identity-map contract: vaddr="@ + hex_text(virtual_address as nat) + ", paddr="@ + hex_text(physical_address as nat),
            Elf64Error::SegmentFileSizeExceedsMemorySize { index, file_size, memory_size } => Seq::<char>::empty() + "ELF64 PT_LOAD segment "@ + decimal_text(index as nat) + " has filesz "@ + hex_text(file_size as nat) + " greater than memsz "@ + hex_text(memory_size as nat),
            Elf64Error::SegmentFileRangeOutOfBounds { index, offset, file_size, file_length } => Seq::<char>::empty() + "ELF64 PT_LOAD segment "@ + decimal_text(index as nat) + " file range is outside the image: offset="@ + hex_text(offset as nat) + ", filesz="@ + hex_text(file_size as nat) + ", file_length="@ + decimal_text(file_length as nat),
            Elf64Error::SegmentAddressRangeOverflow { index, address, memory_size } => Seq::<char>::empty() + "ELF64 PT_LOAD segment "@ + decimal_text(index as nat) + " guest range overflows: address="@ + hex_text(address as nat) + ", memsz="@ + hex_text(memory_size as nat),
            Elf64Error::SegmentOutsideIdentityMap { index, address, memory_size, mapped_size } => Seq::<char>::empty() + "ELF64 PT_LOAD segment "@ + decimal_text(index as nat) + " is outside the current identity map: address="@ + hex_text(address as nat) + ", memsz="@ + hex_text(memory_size as nat) + ", mapped_size="@ + hex_text(mapped_size as nat),
            Elf64Error::SegmentOverlapsBootstrapPageTables { index, address, memory_size } => Seq::<char>::empty() + "ELF64 PT_LOAD segment "@ + decimal_text(index as nat) + " overlaps reserved bootstrap page tables: address="@ + hex_text(address as nat) + ", memsz="@ + hex_text(memory_size as nat),
            Elf64Error::InvalidSegmentAlignment { index, alignment } => Seq::<char>::empty() + "ELF64 PT_LOAD segment "@ + decimal_text(index as nat) + " has invalid alignment "@ + hex_text(alignment as nat) + "; expected 0, 1, or a power of two"@,
            Elf64Error::SegmentAlignmentMismatch { index, offset, virtual_address, alignment } => Seq::<char>::empty() + "ELF64 PT_LOAD segment "@ + decimal_text(index as nat) + " violates offset/vaddr alignment congruence: offset="@ + hex_text(offset as nat) + ", vaddr="@ + hex_text(virtual_address as nat) + ", align="@ + hex_text(alignment as nat),
            Elf64Error::LoadSegmentsOverlap { first, second } => Seq::<char>::empty() + "ELF64 PT_LOAD segments "@ + decimal_text(first as nat) + " and "@ + decimal_text(second as nat) + " overlap in guest memory"@,
            Elf64Error::EntryNotInExecutableFileBackedSegment { entry } => Seq::<char>::empty() + "ELF64 entry "@ + hex_text(entry as nat) + " is not inside an executable file-backed PT_LOAD range"@,
        }
    }

    pub fn message(&self) -> (r: String)
        ensures r@ == self.spec_message(),
    {
        match self {
            Elf64Error::FileTooSmall { length } => {
                let mut s = String::new();
                s.append("ELF64 image is too small for its fixed header: ");
                push_decimal(&mut s, *length as u64);
                s.append(" bytes");
                s
            },
            Elf64Error::InvalidMagic => {
                let mut s = String::new();
                s.append("ELF64 image has an invalid ELF magic");
                s
            },
            Elf64Error::UnsupportedClass { actual } => {
                let mut s = String::new();
                s.append("unsupported ELF class ");
                push_decimal(&mut s, *actual as u64);
                s.append("; expected ELFCLASS64");
                s
            },
            Elf64Error::UnsupportedEndian { actual } => {
                let mut s = String::new();
                s.append("unsupported ELF data encoding ");
                push_decimal(&mut s, *actual as u64);
                s.append("; expected little-endian");
                s
            },
            Elf64Error::UnsupportedIdentVersion { actual } => {
                let mut s = String::new();
                s.append("unsupported ELF identification version ");
                push_decimal(&mut s, *actual as u64);
                s
            },
            Elf64Error::UnsupportedType { actual } => {
                let mut s = String::new();
                s.append("unsupported ELF type ");
                push_decimal(&mut s, *actual as u64);
                s.append("; this milestone accepts ET_EXEC only");
                s
            },
            Elf64Error::UnsupportedMachine { actual } => {
                let mut s = String::new();
                s.append("unsupported ELF machine ");
                push_decimal(&mut s, *actual as u64);
                s.append("; expected x86-64");
                s
            },
            Elf64Error::UnsupportedVersion { actual } => {
                let mut s = String::new();
                s.append("unsupported ELF version ");
                push_decimal(&mut s, *actual as u64);
                s
            },
            Elf64Error::InvalidHeaderSize { actual } => {
                let mut s = String::new();
                s.append("invalid ELF64 header size ");
                push_decimal(&mut s, *actual as u64);
                s.append("; expected ");
                push_decimal(&mut s, ELF64_HEADER_SIZE as u64);
                s
            },
            Elf64Error::InvalidProgramHeaderSize { actual } => {
                let mut s = String::new();
                s.append("invalid ELF64 program-header size ");
                push_decimal(&mut s, *actual as u64);
                s.append("; expected ");
                push_decimal(&mut s, ELF64_PROGRAM_HEADER_SIZE as u64);
                s
            },
            Elf64Error::ProgramHeaderTableOutOfBounds { offset, count, entry_size, file_length } => {
                let mut s = String::new();
                s.append("ELF64 program-header table is outside the file: offset=");
                push_hex(&mut s, *offset as u64);
                s.append(", count=");
                push_decimal(&mut s, *count as u64);
                s.append(", entry_size=");
                push_decimal(&mut s, *entry_size as u64);
                s.append(", file_length=");
                push_decimal(&mut s, *file_length as u64);
                s
            },
            Elf64Error::NoLoadableSegments => {
                let mut s = String::new();
                s.append("ELF64 image has no PT_LOAD segment");
                s
            },
            Elf64Error::EmptyLoadSegment { index } => {
                let mut s = String::new();
                s.append("ELF64 PT_LOAD segment ");
                push_decimal(&mut s, *index as u64);
                s.append(" has zero memory size");
                s
            },
            Elf64Error::SegmentVirtualPhysicalMismatch { index, virtual_address, physical_address } => {
                let mut s = String::new();
                s.append("ELF64 PT_LOAD segment ");
                push_decimal(&mut s, *index as u64);
                s.append(" requires virtual==physical under the current identity-map contract: vaddr=");
                push_hex(&mut s, *virtual_address as u64);
                s.append(", paddr=");
                push_hex(&mut s, *physical_address as u64);
                s
            },
            Elf64Error::SegmentFileSizeExceedsMemorySize { index, file_size, memory_size } => {
                let mut s = String::new();
                s.append("ELF64 PT_LOAD segment ");
                push_decimal(&mut s, *index as u64);
                s.append(" has filesz ");
                push_hex(&mut s, *file_size as u64);
                s.append(" greater than memsz ");
                push_hex(&mut s, *memory_size as u64);
                s
            },
            Elf64Error::SegmentFileRangeOutOfBounds { index, offset, file_size, file_length } => {
                let mut s = String::new();
                s.append("ELF64 PT_LOAD segment ");
                push_decimal(&mut s, *index as u64);
                s.append(" file range is outside the image: offset=");
                push_hex(&mut s, *offset as u64);
                s.append(", filesz=");
                push_hex(&mut s, *file_size as u64);
                s.append(", file_length=");
                push_decimal(&mut s, *file_length as u64);
                s
            },
            Elf64Error::SegmentAddressRangeOverflow { index, address, memory_size } => {
                let mut s = String::new();
                s.append("ELF64 PT_LOAD segment ");
                push_decimal(&mut s, *index as u64);
                s.append(" guest range overflows: address=");
                push_hex(&mut s, *address as u64);
                s.append(", memsz=");
                push_hex(&mut s, *memory_size as u64);
                s
            },
            Elf64Error::SegmentOutsideIdentityMap { index, address, memory_size, mapped_size } => {
                let mut s = String::new();
                s.append("ELF64 PT_LOAD segment ");
                push_decimal(&mut s, *index as u64);
                s.append(" is outside the current identity map: address=");
                push_hex(&mut s, *address as u64);
                s.append(", memsz=");
                push_hex(&mut s, *memory_size as u64);
                s.append(", mapped_size=");
                push_hex(&mut s, *mapped_size as u64);
                s
            },
            Elf64Error::SegmentOverlapsBootstrapPageTables { index, address, memory_size } => {
                let mut s = String::new();
                s.append("ELF64 PT_LOAD segment ");
                push_decimal(&mut s, *index as u64);
                s.append(" overlaps reserved bootstrap page tables: address=");
                push_hex(&mut s, *address as u64);
                s.append(", memsz=");
                push_hex(&mut s, *memory_size as u64);
                s
            },
            Elf64Error::InvalidSegmentAlignment { index, alignment } => {
                let mut s = String::new();
                s.append("ELF64 PT_LOAD segment ");
                push_decimal(&mut s, *index as u64);
                s.append(" has invalid alignment ");
                push_hex(&mut s, *alignment as u64);
                s.append("; expected 0, 1, or a power of two");
                s
            },
            Elf64Error::SegmentAlignmentMismatch { index, offset, virtual_address, alignment } => {
                let mut s = String::new();
                s.append("ELF64 PT_LOAD segment ");
                push_decimal(&mut s, *index as u64);
                s.append(" violates offset/vaddr alignment congruence: offset=");
                push_hex(&mut s, *offset as u64);
                s.append(", vaddr=");
                push_hex(&mut s, *virtual_address as u64);
                s.append(", align=");
                push_hex(&mut s, *alignment as u64);
                s
            },
            Elf64Error::LoadSegmentsOverlap { first, second } => {
                let mut s = String::new();
                s.append("ELF64 PT_LOAD segments ");
                push_decimal(&mut s, *first as u64);
                s.append(" and ");
                push_decimal(&mut s, *second as u64);
                s.append(" overlap in guest memory");
                s
            },
            Elf64Error::EntryNotInExecutableFileBackedSegment { entry } => {
                let mut s = String::new();
                s.append("ELF64 entry ");
                push_hex(&mut s, *entry as u64);
                s.append(" is not inside an executable file-backed PT_LOAD range");
                s
            },
        }
    }
}

/// Segment `s` holds exactly what its program header in the table at `table` says: the file
/// offset (`p_offset`, bytes 8..16), the guest address (`p_vaddr`, bytes 16..24), the file size
/// (`p_filesz`, bytes 32..40), the memory size (`p_memsz`, bytes 40..48) and the flags
/// (`p_flags`, bytes 4..8).
pub open spec fn segment_reads_header(b: Seq<u8>, table: int, s: Elf64LoadSegment) -> bool {
    let o = table + s.program_header_index * ELF64_PROGRAM_HEADER_SIZE;
    &&& s.file_offset == le_u64_at(b, o + 8)
    &&& s.guest_address.0 == le_u64_at(b, o + 16)
    &&& s.file_size == le_u64_at(b, o + 32)
    &&& s.memory_size == le_u64_at(b, o + 40)
    &&& s.flags == le_u32_at(b, o + 4)
}

/// A program header accepted as a load segment keeps its own index and every field it read.
pub proof fn lemma_load_segment_reads_its_header(b: Seq<u8>, table: int, index: u16, earlier: Seq<Elf64LoadSegment>)
    requires
        b.len() <= usize::MAX,
        load_segment(b, table + index * ELF64_PROGRAM_HEADER_SIZE, index, earlier) is Ok,
    ensures
        ({
            let s = load_segment(b, table + index * ELF64_PROGRAM_HEADER_SIZE, index, earlier)->Ok_0;
            &&& s.program_header_index == index
            &&& segment_reads_header(b, table, s)
        }),
{
}

proof fn lemma_scan_reads_headers(b: Seq<u8>, table: int, count: int, i: int, acc: Seq<Elf64LoadSegment>)
    requires
        0 <= i <= count <= u16::MAX + 1,
        b.len() <= usize::MAX,
        forall|j: int| 0 <= j < acc.len() ==> segment_reads_header(b, table, #[trigger] acc[j]),
        scan_segments(b, table, count, i, acc) is Ok,
    ensures
        forall|j: int| 0 <= j < scan_segments(b, table, count, i, acc)->Ok_0.len()
            ==> segment_reads_header(b, table, #[trigger] scan_segments(b, table, count, i, acc)->Ok_0[j]),
    decreases count - i,
{
    if i < count {
        let o = table + i * ELF64_PROGRAM_HEADER_SIZE;
        if le_u32_at(b, o) != PT_LOAD {
            lemma_scan_reads_headers(b, table, count, i + 1, acc);
        } else {
            lemma_load_segment_reads_its_header(b, table, i as u16, acc);
            let s = load_segment(b, o, i as u16, acc)->Ok_0;
            let next = acc.push(s);
            assert forall|j: int| 0 <= j < next.len() implies segment_reads_header(b, table, #[trigger] next[j]) by {
                if j < acc.len() {
                    assert(next[j] == acc[j]);
                }
            }
            lemma_scan_reads_headers(b, table, count, i + 1, next);
        }
    }
}

/// Every segment of an accepted image is read from its own program header: its file offset is
/// that header's `p_offset`, so loading copies `image[p_offset .. p_offset + p_filesz]` to
/// `p_vaddr`; likewise its address, sizes and flags are the header's.
pub proof fn lemma_accepted_segments_read_their_headers(b: Seq<u8>)
    requires
        b.len() <= usize::MAX,
        spec_parse(b) is Ok,
    ensures
        forall|j: int| 0 <= j < spec_parse(b)->Ok_0.1.len()
            ==> segment_reads_header(b, ph_offset(b) as int, #[trigger] spec_parse(b)->Ok_0.1[j]),
{
    lemma_scan_reads_headers(b, ph_offset(b) as int, ph_count(b) as int, 0, seq![]);
}

} // verus!
