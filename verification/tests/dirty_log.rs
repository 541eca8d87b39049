use mini_hypervisor::error::{Error, HostEnvironmentError, HostIoCause, KvmCapabilityError};
use mini_hypervisor::execution::VmExecutionResult;
use mini_hypervisor::kvm::dirty_log::{
    check_clean_baseline, check_dirty_values, check_first_harvest, check_second_harvest, mask_unused_bitmap_bits,
    validate_dirty_log_execution, ActiveDirtyLogSlot0, DirtyLogSlot0, KvmDirtyLog, Slot0DirtyTracker,
    DIRTY_LOG_EXPECTED_BITMAP, DIRTY_LOG_FIRST_WRITE, DIRTY_LOG_GUEST_BYTES, DIRTY_LOG_GUEST_ENTRY,
    DIRTY_LOG_PROOF, DIRTY_LOG_RAM_SIZE, DIRTY_LOG_SECOND_WRITE, DIRTY_LOG_TERMINAL_RIP, KVM_GET_DIRTY_LOG,
    KVM_MEM_LOG_DIRTY_PAGES,
};
use mini_hypervisor::kvm::irqchip::{
    require_irqchip_capability, require_io_exit, validate_debug_output, KvmIrqLevel, IRQCHIP_GSI,
    IRQCHIP_GUEST_BYTES, IRQCHIP_HANDLER_BYTES, IRQCHIP_PROOF, IRQCHIP_TERMINAL_RIP, IRQCHIP_VECTOR,
    KVM_CAP_IRQCHIP, KVM_CREATE_IRQCHIP, KVM_IRQ_LINE,
};
use mini_hypervisor::memory::{GuestMemoryRegion, GuestPhysAddr, KVM_MEMORY_ALIGNMENT};
use mini_hypervisor::vcpu::{PortIoDirection, PortIoExit, VcpuExit, VmExitReport};

#[test]
fn dirty_log_uapi_matches_linux_x86_64() {
    assert_eq!(KVM_GET_DIRTY_LOG, 0x4010_AE42);
    assert_eq!(KVM_MEM_LOG_DIRTY_PAGES, 1);
    assert_eq!(std::mem::size_of::<KvmDirtyLog>(), 16);
    let mut bitmap = [0_u64; 1];
    let request = KvmDirtyLog::slot0(bitmap.as_mut_ptr() as u64);
    assert_eq!(request.slot, 0);
    assert_eq!(request.padding, 0);
    assert_ne!(request.dirty_bitmap, 0);
}

#[test]
fn four_page_slot_uses_one_word_and_exact_page_bits() {
    let region = GuestMemoryRegion::new(GuestPhysAddr::new(0), DIRTY_LOG_RAM_SIZE).unwrap();
    let slot = DirtyLogSlot0::for_region(region);
    assert_eq!(slot.page_count, 4);
    assert_eq!(slot.bitmap_words, 1);
    assert_eq!(DIRTY_LOG_EXPECTED_BITMAP, 0b1010);
}

#[test]
fn unused_bitmap_bits_are_masked_without_touching_valid_pages() {
    let mut words = [u64::MAX];
    mask_unused_bitmap_bits(&mut words, 4);
    assert_eq!(words, [0xf]);
}

#[test]
fn real_mode_fixture_executes_from_page_one_and_only_explicitly_writes_pages_one_and_three() {
    assert_eq!(DIRTY_LOG_GUEST_BYTES.len(), 19);
    assert_eq!(DIRTY_LOG_GUEST_ENTRY / KVM_MEMORY_ALIGNMENT, 1);
    assert_eq!(DIRTY_LOG_FIRST_WRITE / KVM_MEMORY_ALIGNMENT, 1);
    assert_eq!(DIRTY_LOG_SECOND_WRITE / KVM_MEMORY_ALIGNMENT, 3);
    assert_eq!(DIRTY_LOG_GUEST_ENTRY + DIRTY_LOG_GUEST_BYTES.len() as u64, DIRTY_LOG_TERMINAL_RIP);
    assert_eq!(&DIRTY_LOG_GUEST_BYTES[..5], &[0xc6, 0x06, 0x00, 0x10, b'A']);
    assert_eq!(&DIRTY_LOG_GUEST_BYTES[5..10], &[0xc6, 0x06, 0x00, 0x30, b'B']);
    assert_eq!(&DIRTY_LOG_GUEST_BYTES[10..18], &[0xb0, b'D', 0xe6, 0xe9, 0xb0, b'G', 0xe6, 0xe9]);
    assert_eq!(DIRTY_LOG_GUEST_BYTES[18], 0xf4);
    assert_eq!(&DIRTY_LOG_PROOF, b"DG");
}

#[test]
fn bitmap_masking_keeps_whole_words_and_empty_bitmaps() {
    let mut words = [u64::MAX, u64::MAX];
    mask_unused_bitmap_bits(&mut words, 128);
    assert_eq!(words, [u64::MAX, u64::MAX]);
    mask_unused_bitmap_bits(&mut words, 65);
    assert_eq!(words, [u64::MAX, 1]);
    let mut empty: [u64; 0] = [];
    mask_unused_bitmap_bits(&mut empty, 3);
}

fn debug_exit(byte: u8) -> PortIoExit {
    PortIoExit::new(PortIoDirection::Out, 1, 0xe9, 1, vec![byte])
}

#[test]
fn dirty_log_run_checks_follow_the_scenario() {
    let good = VmExecutionResult::new(
        VmExitReport::new(VcpuExit::Hlt, DIRTY_LOG_TERMINAL_RIP, 0x2),
        vec![debug_exit(b'D'), debug_exit(b'G')],
        3,
    );
    assert_eq!(validate_dirty_log_execution(&good, b"DG"), Ok(()));
    let refused = |operation| Err(Error::HostEnvironment(HostEnvironmentError::VmOperation {
        operation,
        source: HostIoCause::InvalidData,
    }));
    assert_eq!(validate_dirty_log_execution(&good, b"GD"), refused("dirty-log debug proof"));
    let wrong_port = VmExecutionResult::new(
        VmExitReport::new(VcpuExit::Hlt, DIRTY_LOG_TERMINAL_RIP, 0x2),
        vec![debug_exit(b'D'), PortIoExit::new(PortIoDirection::Out, 1, 0x80, 1, vec![b'G'])],
        3,
    );
    assert_eq!(validate_dirty_log_execution(&wrong_port, b"DG"), refused("dirty-log debug-port exit"));
    let early = VmExecutionResult::new(
        VmExitReport::new(VcpuExit::Hlt, DIRTY_LOG_TERMINAL_RIP - 1, 0x2),
        vec![debug_exit(b'D'), debug_exit(b'G')],
        3,
    );
    assert_eq!(validate_dirty_log_execution(&early, b"DG"), refused("dirty-log terminal exit"));

    assert_eq!(check_clean_baseline(&[0, 0]), Ok(()));
    assert_eq!(check_clean_baseline(&[0, 4]), refused("pre-execution dirty-log baseline"));
    assert_eq!(check_first_harvest(&[0b1010]), Ok(()));
    assert_eq!(check_first_harvest(&[0b1110]), refused("first dirty-log harvest"));
    assert_eq!(check_dirty_values([b'A', b'B']), Ok(()));
    assert_eq!(check_dirty_values([b'A', 0]), refused("dirty guest memory contents"));
    assert_eq!(check_second_harvest(&[0]), Ok(()));
    assert_eq!(check_second_harvest(&[1]), refused("second dirty-log harvest"));
}

#[test]
fn tracker_maps_guest_pages_to_bitmap_bits() {
    let region = GuestMemoryRegion::new(GuestPhysAddr::new(0), 128 * KVM_MEMORY_ALIGNMENT).unwrap();
    let tracker = Slot0DirtyTracker { slot: DirtyLogSlot0::for_region(region), region };
    let bitmap = [1_u64 << 48, 1_u64 << 3];
    assert_eq!(tracker.page_count(), 128);
    assert_eq!(tracker.page_index(GuestPhysAddr::new(0x30000)).unwrap(), 48);
    assert!(tracker.bitmap_contains_page(&bitmap, GuestPhysAddr::new(0x30000)).unwrap());
    assert!(tracker.bitmap_contains_page(&bitmap, GuestPhysAddr::new(0x43000)).unwrap());
    assert!(!tracker.bitmap_contains_page(&bitmap, GuestPhysAddr::new(0x44000)).unwrap());
}

#[test]
fn tracker_rejects_addresses_outside_slot0() {
    let region = GuestMemoryRegion::new(GuestPhysAddr::new(0x1000), 2 * KVM_MEMORY_ALIGNMENT).unwrap();
    let tracker = Slot0DirtyTracker { slot: DirtyLogSlot0::for_region(region), region };
    assert!(tracker.page_index(GuestPhysAddr::new(0)).is_err());
    assert!(tracker.page_index(GuestPhysAddr::new(0x3000)).is_err());
}

#[test]
fn tracker_refuses_a_bitmap_too_short_for_the_page() {
    let region = GuestMemoryRegion::new(GuestPhysAddr::new(0), 128 * KVM_MEMORY_ALIGNMENT).unwrap();
    let tracker = Slot0DirtyTracker::for_region(region);
    assert!(tracker.bitmap_contains_page(&[0], GuestPhysAddr::new(0x40000)).is_err());
}

#[test]
fn active_slot_token_retains_region_page_count() {
    let region = GuestMemoryRegion::new(GuestPhysAddr::new(0), 8 * KVM_MEMORY_ALIGNMENT).unwrap();
    let active = ActiveDirtyLogSlot0 { slot: DirtyLogSlot0::for_region(region) };
    assert_eq!(active.page_count(), 8);
}

#[test]
fn irqchip_uapi_contract_matches_x86_kvm() {
    assert_eq!(KVM_CAP_IRQCHIP, 0);
    assert_eq!(KVM_CREATE_IRQCHIP, 0xAE60);
    assert_eq!(KVM_IRQ_LINE, 0x4008_AE61);
    assert_eq!(std::mem::size_of::<KvmIrqLevel>(), 8);
}

#[test]
fn irq_line_edge_requests_preserve_gsi_and_binary_levels() {
    assert_eq!(KvmIrqLevel::new(7, true), KvmIrqLevel { irq: 7, level: 1 });
    assert_eq!(KvmIrqLevel::new(7, false), KvmIrqLevel { irq: 7, level: 0 });
}

#[test]
fn deterministic_irqchip_guest_and_handler_bytes_are_stable() {
    assert_eq!(IRQCHIP_GUEST_BYTES.len(), 52);
    assert_eq!(&IRQCHIP_GUEST_BYTES[39..43], &[0xb0, b'R', 0xe6, 0xe9]);
    assert_eq!(&IRQCHIP_GUEST_BYTES[43..47], &[0xb0, b'A', 0xe6, 0xe9]);
    assert_eq!(IRQCHIP_HANDLER_BYTES.len(), 10);
    assert_eq!(IRQCHIP_TERMINAL_RIP, 0x1_0034);
    assert_eq!(&IRQCHIP_PROOF, b"RAIM");
    assert_eq!(IRQCHIP_GSI, 0);
    assert_eq!(IRQCHIP_VECTOR, 0x40);
}

#[test]
fn irqchip_stage_checks_name_the_failed_stage() {
    assert_eq!(require_irqchip_capability(1), Ok(()));
    assert_eq!(
        require_irqchip_capability(0),
        Err(Error::KvmCapability(KvmCapabilityError::MissingExtension { name: "KVM_CAP_IRQCHIP", id: 0 }))
    );
    assert_eq!(validate_debug_output(&debug_exit(b'R'), b'R', "ready"), Ok(()));
    assert_eq!(
        validate_debug_output(&debug_exit(b'X'), b'R', "ready"),
        Err(Error::HostEnvironment(HostEnvironmentError::VcpuOperation {
            id: 0,
            operation: "ready",
            source: HostIoCause::InvalidData,
        }))
    );
    assert_eq!(require_io_exit(VcpuExit::Io, "armed"), Ok(()));
    assert!(require_io_exit(VcpuExit::Hlt, "armed").is_err());
}
