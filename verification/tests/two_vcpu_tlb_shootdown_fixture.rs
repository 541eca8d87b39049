use mini_hypervisor::portio::two_vcpu_tlb_shootdown_fixture::{AP_GUEST_BYTES, AP_HANDLER_BYTES, AP_TLB_IDTR_BYTES, AP_TLB_PROOF, BSP_TLB_PROOF, PAGE_TABLE_ENTRY_ACCESSED, PAGE_TABLE_ENTRY_DIRTY, PAGE_TABLE_ENTRY_FLAGS, TLB_FINAL_PTE, TLB_PAGE_A, TLB_PAGE_B, TLB_SHOOTDOWN_IDT_LIMIT, TLB_SHOOTDOWN_VECTOR, TLB_TARGET_PTE, TLB_TARGET_VIRTUAL_PAGE};
use mini_hypervisor::long_mode::LONG_MODE_ALIAS_PT_ADDR;
use mini_hypervisor::portio::two_vcpu_init_sipi_fixture::LAPIC_VIRTUAL_PAGE;
#[test]
fn target_alias_uses_shared_page_table_entry_outside_lapic_slot() {
    let pte_index = (TLB_TARGET_VIRTUAL_PAGE - 0x40_0000) / 0x1000;
    assert_eq!(
        TLB_TARGET_PTE,
        LONG_MODE_ALIAS_PT_ADDR + pte_index * 8
    );
    assert_eq!(TLB_TARGET_PTE, 0x4808);
    assert_ne!(TLB_TARGET_VIRTUAL_PAGE, LAPIC_VIRTUAL_PAGE);
    assert_eq!(TLB_PAGE_A | PAGE_TABLE_ENTRY_FLAGS, 0x1_8003);
    assert_eq!(TLB_PAGE_B | PAGE_TABLE_ENTRY_FLAGS, 0x1_9003);
    assert_eq!(
        TLB_PAGE_B | PAGE_TABLE_ENTRY_FLAGS | PAGE_TABLE_ENTRY_ACCESSED,
        TLB_FINAL_PTE
    );
    assert_eq!(TLB_FINAL_PTE, 0x1_9023);
    assert_eq!(TLB_FINAL_PTE & PAGE_TABLE_ENTRY_DIRTY, 0);
}

#[test]
fn ap_preserves_integrated_sipi_transition_and_executes_invlpg_before_ack() {
    const INTEGRATED_PREFIX_LEN: usize = 73;
    assert_eq!(
        &AP_GUEST_BYTES[..INTEGRATED_PREFIX_LEN],
        &[
            0xfa, 0x31, 0xc0, 0x8e, 0xd8, 0x8e, 0xc0, 0x8e, 0xd0, 0xb0, 0x41, 0xe6, 0xe9, 0x0f,
            0x01, 0x16, 0x20, 0x70, 0x0f, 0x20, 0xe0, 0x66, 0x83, 0xc8, 0x20, 0x0f, 0x22, 0xe0,
            0x66, 0xb8, 0x00, 0x10, 0x00, 0x00, 0x0f, 0x22, 0xd8, 0x66, 0xb9, 0x80, 0x00, 0x00,
            0xc0, 0x0f, 0x32, 0x66, 0x0d, 0x00, 0x01, 0x00, 0x00, 0x0f, 0x30, 0x0f, 0x20, 0xc0,
            0x66, 0x0d, 0x01, 0x00, 0x00, 0x80, 0x0f, 0x22, 0xc0, 0x66, 0xea, 0x49, 0x80, 0x00,
            0x00, 0x08, 0x00,
        ]
    );
    assert_eq!(&AP_HANDLER_BYTES[..3], &[0x0f, 0x01, 0x3e]);
    assert!(AP_HANDLER_BYTES
        .windows(4)
        .any(|w| w == [0xb0, b'I', 0xe6, 0xe9]));
}

#[test]
fn proofs_and_idt_contract_are_fixed() {
    assert_eq!(&BSP_TLB_PROOF, b"0IDSPXAD");
    assert_eq!(&AP_TLB_PROOF, b"ALRIBD");
    assert_eq!(TLB_SHOOTDOWN_VECTOR, 0x54);
    assert_eq!(TLB_SHOOTDOWN_IDT_LIMIT, 0x054f);
    assert_eq!(AP_TLB_IDTR_BYTES[..2], [0x4f, 0x05]);
}

