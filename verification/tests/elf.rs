use mini_hypervisor::elf::{
    Elf64Error, Elf64GuestImage, ELF64_HEADER_SIZE, ELF64_PROGRAM_HEADER_SIZE, ELFCLASS64,
    ELFDATA2LSB, EM_X86_64, ET_EXEC, EV_CURRENT, PF_X, PT_LOAD,
};
use mini_hypervisor::long_mode::LONG_MODE_IDENTITY_MAP_SIZE;
use mini_hypervisor::memory::{GuestMemory, GuestPhysAddr};

const SEGMENT_ADDRESS: u64 = 0x1_0000;
const CODE_OFFSET: usize = 0x100;
const CODE: [u8; 2] = [0x90, 0xf4];

fn write_u16(bytes: &mut [u8], offset: usize, value: u16) {
    bytes[offset..offset + 2].copy_from_slice(&value.to_le_bytes());
}

fn write_u32(bytes: &mut [u8], offset: usize, value: u32) {
    bytes[offset..offset + 4].copy_from_slice(&value.to_le_bytes());
}

fn write_u64(bytes: &mut [u8], offset: usize, value: u64) {
    bytes[offset..offset + 8].copy_from_slice(&value.to_le_bytes());
}

fn fixture() -> Vec<u8> {
    let file_size = CODE_OFFSET + CODE.len();
    let mut bytes = vec![0_u8; file_size];
    bytes[0..4].copy_from_slice(&[0x7f, b'E', b'L', b'F']);
    bytes[4] = ELFCLASS64;
    bytes[5] = ELFDATA2LSB;
    bytes[6] = EV_CURRENT;
    write_u16(&mut bytes, 16, ET_EXEC);
    write_u16(&mut bytes, 18, EM_X86_64);
    write_u32(&mut bytes, 20, u32::from(EV_CURRENT));
    write_u64(&mut bytes, 24, SEGMENT_ADDRESS + CODE_OFFSET as u64);
    write_u64(&mut bytes, 32, ELF64_HEADER_SIZE as u64);
    write_u16(&mut bytes, 52, ELF64_HEADER_SIZE as u16);
    write_u16(&mut bytes, 54, ELF64_PROGRAM_HEADER_SIZE as u16);
    write_u16(&mut bytes, 56, 1);

    let ph = ELF64_HEADER_SIZE;
    write_u32(&mut bytes, ph, PT_LOAD);
    write_u32(&mut bytes, ph + 4, PF_X | 4);
    write_u64(&mut bytes, ph + 8, 0);
    write_u64(&mut bytes, ph + 16, SEGMENT_ADDRESS);
    write_u64(&mut bytes, ph + 24, SEGMENT_ADDRESS);
    write_u64(&mut bytes, ph + 32, file_size as u64);
    write_u64(&mut bytes, ph + 40, 0x180);
    write_u64(&mut bytes, ph + 48, 0x1000);
    bytes[CODE_OFFSET..CODE_OFFSET + CODE.len()].copy_from_slice(&CODE);
    bytes
}

#[test]
fn parses_bounded_identity_mapped_x86_64_executable() {
    let bytes = fixture();
    let image = Elf64GuestImage::parse(&bytes).unwrap();

    assert_eq!(image.entry().get(), SEGMENT_ADDRESS + CODE_OFFSET as u64);
    assert_eq!(image.segments().len(), 1);
    let segment = image.segments()[0];
    assert_eq!(segment.program_header_index(), 0);
    assert_eq!(segment.guest_address().get(), SEGMENT_ADDRESS);
    assert_eq!(segment.file_size(), bytes.len());
    assert_eq!(segment.memory_size(), 0x180);
    assert!(segment.executable());
}

#[test]
fn load_copies_file_bytes_and_explicitly_zeroes_bss() {
    let bytes = fixture();
    let image = Elf64GuestImage::parse(&bytes).unwrap();
    let mut memory = GuestMemory::new(GuestPhysAddr::new(0), LONG_MODE_IDENTITY_MAP_SIZE).unwrap();
    let dirty = vec![0xaa; 0x180];
    memory.write(GuestPhysAddr::new(SEGMENT_ADDRESS), &dirty).unwrap();

    image.load(&mut memory).unwrap();

    let mut observed_file = vec![0_u8; bytes.len()];
    memory.read(GuestPhysAddr::new(SEGMENT_ADDRESS), &mut observed_file).unwrap();
    assert_eq!(observed_file, bytes);
    let mut observed_bss = vec![0xff; 0x180 - bytes.len()];
    memory
        .read(GuestPhysAddr::new(SEGMENT_ADDRESS + bytes.len() as u64), &mut observed_bss)
        .unwrap();
    assert!(observed_bss.iter().all(|byte| *byte == 0));
}

#[test]
fn rejects_non_elf_and_non_x86_64_inputs() {
    let mut bytes = fixture();
    bytes[0] = 0;
    assert_eq!(Elf64GuestImage::parse(&bytes), Err(Elf64Error::InvalidMagic));

    let mut bytes = fixture();
    write_u16(&mut bytes, 18, 3);
    assert_eq!(
        Elf64GuestImage::parse(&bytes),
        Err(Elf64Error::UnsupportedMachine { actual: 3 })
    );
}

#[test]
fn rejects_filesz_larger_than_memsz_and_file_range_overrun() {
    let mut bytes = fixture();
    let ph = ELF64_HEADER_SIZE;
    write_u64(&mut bytes, ph + 40, 1);
    assert!(matches!(
        Elf64GuestImage::parse(&bytes),
        Err(Elf64Error::SegmentFileSizeExceedsMemorySize { .. })
    ));

    let mut bytes = fixture();
    let length = bytes.len() as u64;
    write_u64(&mut bytes, ph + 32, length + 1);
    write_u64(&mut bytes, ph + 40, length + 1);
    assert!(matches!(
        Elf64GuestImage::parse(&bytes),
        Err(Elf64Error::SegmentFileRangeOutOfBounds { .. })
    ));
}

#[test]
fn rejects_non_identity_mapped_or_bootstrap_overlapping_segments() {
    let mut bytes = fixture();
    let ph = ELF64_HEADER_SIZE;
    write_u64(&mut bytes, ph + 24, SEGMENT_ADDRESS + 0x1000);
    assert!(matches!(
        Elf64GuestImage::parse(&bytes),
        Err(Elf64Error::SegmentVirtualPhysicalMismatch { .. })
    ));

    let mut bytes = fixture();
    write_u64(&mut bytes, ph + 16, 0x1000);
    write_u64(&mut bytes, ph + 24, 0x1000);
    assert!(matches!(
        Elf64GuestImage::parse(&bytes),
        Err(Elf64Error::SegmentOverlapsBootstrapPageTables { .. })
    ));
}

#[test]
fn rejects_entry_outside_executable_file_backed_range() {
    let mut bytes = fixture();
    write_u64(&mut bytes, 24, SEGMENT_ADDRESS + 0x170);
    assert_eq!(
        Elf64GuestImage::parse(&bytes),
        Err(Elf64Error::EntryNotInExecutableFileBackedSegment {
            entry: SEGMENT_ADDRESS + 0x170,
        })
    );
}

#[test]
fn rejects_invalid_or_incongruent_segment_alignment() {
    let ph = ELF64_HEADER_SIZE;
    let mut bytes = fixture();
    write_u64(&mut bytes, ph + 48, 3);
    assert!(matches!(
        Elf64GuestImage::parse(&bytes),
        Err(Elf64Error::InvalidSegmentAlignment { .. })
    ));

    let mut bytes = fixture();
    write_u64(&mut bytes, ph + 8, 1);
    assert!(matches!(
        Elf64GuestImage::parse(&bytes),
        Err(Elf64Error::SegmentAlignmentMismatch { .. })
    ));
}

#[test]
fn elf_rejects_truncated_header_and_table_outside_file() {
    assert_eq!(
        Elf64GuestImage::parse(&[0_u8; 10]),
        Err(Elf64Error::FileTooSmall { length: 10 })
    );
    let mut bytes = fixture();
    write_u64(&mut bytes, 32, 0x1_0000);
    assert_eq!(
        Elf64GuestImage::parse(&bytes),
        Err(Elf64Error::ProgramHeaderTableOutOfBounds {
            offset: 0x1_0000,
            count: 1,
            entry_size: ELF64_PROGRAM_HEADER_SIZE as u16,
            file_length: bytes.len(),
        })
    );
}

#[test]
fn elf_rejects_overlapping_segments_and_images_without_loads() {
    let mut bytes = fixture();
    write_u32(&mut bytes, ELF64_HEADER_SIZE, 0);
    assert_eq!(Elf64GuestImage::parse(&bytes), Err(Elf64Error::NoLoadableSegments));

    // Two identical PT_LOAD headers overlap each other.
    let mut bytes = fixture();
    let first = bytes[ELF64_HEADER_SIZE..ELF64_HEADER_SIZE + ELF64_PROGRAM_HEADER_SIZE].to_vec();
    bytes[ELF64_HEADER_SIZE + ELF64_PROGRAM_HEADER_SIZE..ELF64_HEADER_SIZE + 2 * ELF64_PROGRAM_HEADER_SIZE]
        .copy_from_slice(&first);
    write_u16(&mut bytes, 56, 2);
    assert_eq!(
        Elf64GuestImage::parse(&bytes),
        Err(Elf64Error::LoadSegmentsOverlap { first: 0, second: 1 })
    );
}
