use mini_hypervisor::error::{Error, GuestMemoryError};
use mini_hypervisor::memory::{GuestMemory, GuestMemoryRegion, GuestPhysAddr, KVM_MEMORY_ALIGNMENT};

#[test]
fn region_validation_rejects_empty_misaligned_and_wrapping_regions() {
    assert_eq!(
        GuestMemoryRegion::new(GuestPhysAddr::new(0), 0),
        Err(Error::GuestMemory(GuestMemoryError::ZeroSizedRegion))
    );
    assert_eq!(
        GuestMemoryRegion::new(GuestPhysAddr::new(0x10), KVM_MEMORY_ALIGNMENT),
        Err(Error::GuestMemory(GuestMemoryError::MisalignedRegion {
            field: "base",
            value: 0x10,
            alignment: KVM_MEMORY_ALIGNMENT,
        }))
    );
    assert_eq!(
        GuestMemoryRegion::new(GuestPhysAddr::new(0), 0x10),
        Err(Error::GuestMemory(GuestMemoryError::MisalignedRegion {
            field: "size",
            value: 0x10,
            alignment: KVM_MEMORY_ALIGNMENT,
        }))
    );
    assert_eq!(
        GuestMemoryRegion::new(GuestPhysAddr::new(u64::MAX - 0xfff), 0x1000),
        Err(Error::GuestMemory(GuestMemoryError::AddressSpaceOverflow {
            base: u64::MAX - 0xfff,
            size: 0x1000,
        }))
    );
    let region = GuestMemoryRegion::new(GuestPhysAddr::new(0x2000), 0x3000).unwrap();
    assert_eq!(region.end().get(), 0x5000);
}

#[test]
fn regions_overlap_only_when_they_share_an_address() {
    let a = GuestMemoryRegion::new(GuestPhysAddr::new(0x1000), 0x2000).unwrap();
    let b = GuestMemoryRegion::new(GuestPhysAddr::new(0x2000), 0x1000).unwrap();
    let c = GuestMemoryRegion::new(GuestPhysAddr::new(0x3000), 0x1000).unwrap();
    assert!(a.overlaps(b));
    assert!(b.overlaps(a));
    assert!(!a.overlaps(c));
    assert!(!c.overlaps(a));
}

#[test]
fn read_after_write_returns_the_written_bytes() {
    let mut memory = GuestMemory::new(GuestPhysAddr::new(0x1000), 0x2000).unwrap();
    memory.write(GuestPhysAddr::new(0x1ffe), &[1, 2, 3, 4]).unwrap();
    let mut buffer = [0_u8; 6];
    memory.read(GuestPhysAddr::new(0x1ffd), &mut buffer).unwrap();
    assert_eq!(buffer, [0, 1, 2, 3, 4, 0]);
    assert_eq!(memory.read_vec(GuestPhysAddr::new(0x1fff), 2).unwrap(), vec![2, 3]);
    memory.write_u64(GuestPhysAddr::new(0x1008), 0x1122_3344_5566_7788).unwrap();
    assert_eq!(
        memory.read_vec(GuestPhysAddr::new(0x1008), 8).unwrap(),
        vec![0x88, 0x77, 0x66, 0x55, 0x44, 0x33, 0x22, 0x11]
    );
}

#[test]
fn refused_accesses_change_nothing() {
    let mut memory = GuestMemory::new(GuestPhysAddr::new(0x1000), 0x1000).unwrap();
    let before = memory.clone();
    assert_eq!(
        memory.write(GuestPhysAddr::new(0x1ffe), &[1, 2, 3]),
        Err(Error::GuestMemory(GuestMemoryError::AccessOutOfBounds {
            address: 0x1ffe,
            length: 3,
            region_base: 0x1000,
            region_size: 0x1000,
        }))
    );
    assert_eq!(memory, before);
    let mut buffer = [9_u8; 2];
    assert_eq!(
        memory.read(GuestPhysAddr::new(u64::MAX), &mut buffer),
        Err(Error::GuestMemory(GuestMemoryError::AccessOverflow { address: u64::MAX, length: 2 }))
    );
    assert_eq!(buffer, [9, 9]);
    assert!(memory.read(GuestPhysAddr::new(0xfff), &mut buffer).is_err());
}
