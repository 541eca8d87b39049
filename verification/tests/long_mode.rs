use mini_hypervisor::vcpu::VcpuExit;
use mini_hypervisor::{long_mode_proof_is_valid, LONG_MODE_EXPECTED_TERMINAL_RIP, X86_RFLAGS_RESERVED_BIT};
use mini_hypervisor::long_mode::{
    LongModeBootLayout, LongModeConfigurationError, LARGE_PAGE_ENTRY_FLAGS,
    LONG_MODE_IDENTITY_MAP_SIZE, LONG_MODE_PAGE_TABLE_END, LONG_MODE_PDPT_ADDR,
    LONG_MODE_PD_ADDR, LONG_MODE_PML4_ADDR, PAGE_TABLE_ENTRY_FLAGS,
};
use mini_hypervisor::memory::{GuestMemory, GuestMemoryRegion, GuestPhysAddr, KVM_MEMORY_ALIGNMENT};

const ENTRY: GuestPhysAddr = GuestPhysAddr(0x1_0000);
const STACK: u64 = 0x1f_f000;

fn memory_region() -> GuestMemoryRegion {
    GuestMemoryRegion::new(GuestPhysAddr::new(0), LONG_MODE_IDENTITY_MAP_SIZE).unwrap()
}

fn layout() -> LongModeBootLayout {
    LongModeBootLayout::new(memory_region(), ENTRY, STACK).unwrap()
}

fn read_u64(memory: &GuestMemory, address: u64) -> u64 {
    let mut bytes = [0_u8; 8];
    memory.read(GuestPhysAddr::new(address), &mut bytes).unwrap();
    u64::from_le_bytes(bytes)
}

#[test]
fn layout_contract_is_fixed_and_identity_mapped() {
    let layout = layout();
    assert_eq!(layout.memory(), memory_region());
    assert_eq!(layout.entry(), ENTRY);
    assert_eq!(layout.stack_pointer(), STACK);
    assert_eq!(layout.pml4_address().get(), LONG_MODE_PML4_ADDR);
    assert_eq!(layout.pdpt_address().get(), LONG_MODE_PDPT_ADDR);
    assert_eq!(layout.pd_address().get(), LONG_MODE_PD_ADDR);
    assert_eq!(layout.identity_map_size(), 0x20_0000);
    assert_eq!(LONG_MODE_PML4_ADDR % KVM_MEMORY_ALIGNMENT, 0);
    assert_eq!(LONG_MODE_PDPT_ADDR % KVM_MEMORY_ALIGNMENT, 0);
    assert_eq!(LONG_MODE_PD_ADDR % KVM_MEMORY_ALIGNMENT, 0);
}

#[test]
fn installs_minimal_four_level_page_table_chain_with_one_two_mib_page() {
    let layout = layout();
    let mut memory = GuestMemory::new(GuestPhysAddr::new(0), LONG_MODE_IDENTITY_MAP_SIZE).unwrap();
    layout.install_page_tables(&mut memory).unwrap();

    assert_eq!(read_u64(&memory, LONG_MODE_PML4_ADDR), LONG_MODE_PDPT_ADDR | PAGE_TABLE_ENTRY_FLAGS);
    assert_eq!(read_u64(&memory, LONG_MODE_PDPT_ADDR), LONG_MODE_PD_ADDR | PAGE_TABLE_ENTRY_FLAGS);
    assert_eq!(read_u64(&memory, LONG_MODE_PD_ADDR), LARGE_PAGE_ENTRY_FLAGS);
    assert_eq!(read_u64(&memory, LONG_MODE_PML4_ADDR + 8), 0);
    assert_eq!(read_u64(&memory, LONG_MODE_PDPT_ADDR + 8), 0);
    assert_eq!(read_u64(&memory, LONG_MODE_PD_ADDR + 8), 0);
}

#[test]
fn rejects_ram_that_does_not_start_at_zero() {
    let region =
        GuestMemoryRegion::new(GuestPhysAddr::new(KVM_MEMORY_ALIGNMENT), LONG_MODE_IDENTITY_MAP_SIZE)
            .unwrap();
    assert!(matches!(
        LongModeBootLayout::new(region, ENTRY, STACK),
        Err(LongModeConfigurationError::RamMustStartAtZero { .. })
    ));
}

#[test]
fn rejects_ram_smaller_than_identity_map() {
    let region = GuestMemoryRegion::new(
        GuestPhysAddr::new(0),
        LONG_MODE_IDENTITY_MAP_SIZE - KVM_MEMORY_ALIGNMENT,
    )
    .unwrap();
    assert!(matches!(
        LongModeBootLayout::new(region, ENTRY, STACK),
        Err(LongModeConfigurationError::RamTooSmall { .. })
    ));
}

#[test]
fn rejects_entry_outside_identity_map_or_inside_page_tables() {
    assert!(matches!(
        LongModeBootLayout::new(memory_region(), GuestPhysAddr::new(LONG_MODE_IDENTITY_MAP_SIZE), STACK),
        Err(LongModeConfigurationError::EntryOutsideIdentityMap { .. })
    ));
    assert!(matches!(
        LongModeBootLayout::new(memory_region(), GuestPhysAddr::new(LONG_MODE_PDPT_ADDR), STACK),
        Err(LongModeConfigurationError::EntryOverlapsPageTables { .. })
    ));
}

#[test]
fn rejects_stack_outside_identity_map_or_inside_page_tables() {
    assert!(matches!(
        LongModeBootLayout::new(memory_region(), ENTRY, 0),
        Err(LongModeConfigurationError::StackPointerOutsideIdentityMap { .. })
    ));
    assert!(matches!(
        LongModeBootLayout::new(memory_region(), ENTRY, LONG_MODE_IDENTITY_MAP_SIZE + 1),
        Err(LongModeConfigurationError::StackPointerOutsideIdentityMap { .. })
    ));
    assert!(matches!(
        LongModeBootLayout::new(memory_region(), ENTRY, LONG_MODE_PAGE_TABLE_END),
        Err(LongModeConfigurationError::StackPointerOverlapsPageTables { .. })
    ));
}

#[test]
fn long_mode_cli_proof_contract_requires_exact_proof_hlt_rip_and_rflags() {
    assert!(long_mode_proof_is_valid(b"LM64", VcpuExit::Hlt, LONG_MODE_EXPECTED_TERMINAL_RIP, X86_RFLAGS_RESERVED_BIT,));
    assert!(!long_mode_proof_is_valid(b"LM6?", VcpuExit::Hlt, LONG_MODE_EXPECTED_TERMINAL_RIP, X86_RFLAGS_RESERVED_BIT,));
    assert!(!long_mode_proof_is_valid(b"LM64", VcpuExit::Shutdown, LONG_MODE_EXPECTED_TERMINAL_RIP, X86_RFLAGS_RESERVED_BIT,));
    assert!(!long_mode_proof_is_valid(b"LM64", VcpuExit::Hlt, LONG_MODE_EXPECTED_TERMINAL_RIP - 1, X86_RFLAGS_RESERVED_BIT,));
    assert!(!long_mode_proof_is_valid(b"LM64", VcpuExit::Hlt, LONG_MODE_EXPECTED_TERMINAL_RIP, 0,));
}
