use mini_hypervisor::portio::two_vcpu_init_sipi_fixture::{AP_LONG_MODE_GDTR_BYTES, AP_LONG_MODE_GDT_BYTES, AP_LONG_MODE_IPI_BSP_PROOF, AP_LONG_MODE_IPI_HANDLER_BYTES, AP_LONG_MODE_IPI_IDTR_BYTES, AP_LONG_MODE_IPI_IDT_LIMIT, AP_LONG_MODE_IPI_PROOF, AP_LONG_MODE_IPI_TRAMPOLINE_BYTES, AP_LONG_MODE_IPI_VECTOR, AP_LONG_MODE_PROOF, AP_LONG_MODE_STACK, AP_LONG_MODE_TRAMPOLINE_BYTES, AP_TRAMPOLINE, AP_TRAMPOLINE_BYTES, FIRST_GUEST_BYTES, FIRST_GUEST_IPI_BYTES, FIRST_PROOF, FIRST_STACK, ICR_HIGH_VALUE, INIT_ASSERT_VALUE, INIT_DEASSERT_VALUE, KVM_MP_STATE_RUNNABLE, KVM_MP_STATE_UNINITIALIZED, SECOND_PROOF, SECOND_VCPU_INDEX, SHARED_MARKER, SHARED_MARKER_VALUE, SIPI_CS_BASE, SIPI_CS_SELECTOR, SIPI_VALUE, SIPI_VECTOR, TARGET_APIC_ID};
#[test]
fn init_sipi_constants_match_xapic_startup_encoding() {
    assert_eq!(TARGET_APIC_ID, SECOND_VCPU_INDEX as u8);
    assert_eq!(SIPI_VECTOR, 0x08);
    assert_eq!(AP_TRAMPOLINE, u64::from(SIPI_VECTOR) << 12);
    assert_eq!(SIPI_CS_SELECTOR, 0x0800);
    assert_eq!(SIPI_CS_BASE, AP_TRAMPOLINE);
    assert_eq!(ICR_HIGH_VALUE, 0x0100_0000);
    assert_eq!(INIT_ASSERT_VALUE, 0x0000_c500);
    assert_eq!(INIT_DEASSERT_VALUE, 0x0000_8500);
    assert_eq!(SIPI_VALUE, 0x0000_0608);
    assert_eq!(KVM_MP_STATE_UNINITIALIZED, 1);
    assert_eq!(KVM_MP_STATE_RUNNABLE, 0);
    assert_eq!(
        &FIRST_GUEST_BYTES[15..25],
        &[0xc7, 0x83, 0x10, 0x03, 0, 0, 0, 0, 0, 1]
    );
    assert_eq!(
        &FIRST_GUEST_BYTES[25..35],
        &[0xc7, 0x83, 0, 0x03, 0, 0, 0, 0xc5, 0, 0]
    );
    assert_eq!(
        &FIRST_GUEST_BYTES[39..49],
        &[0xc7, 0x83, 0, 0x03, 0, 0, 0, 0x85, 0, 0]
    );
    assert_eq!(
        &FIRST_GUEST_BYTES[53..63],
        &[0xc7, 0x83, 0, 0x03, 0, 0, 0x08, 0x06, 0, 0]
    );
}

#[test]
fn real_mode_ap_trampoline_preserves_historical_proof() {
    assert_eq!(AP_TRAMPOLINE, 0x8000);
    assert_eq!(SHARED_MARKER, 0x9000);
    assert_eq!(
        &AP_TRAMPOLINE_BYTES[..9],
        &[0xfa, 0x31, 0xc0, 0x8e, 0xd8, 0x8e, 0xc0, 0x8e, 0xd0]
    );
    assert_eq!(
        &AP_TRAMPOLINE_BYTES[13..18],
        &[0xb0, SHARED_MARKER_VALUE, 0xa2, 0x00, 0x90]
    );
    assert_eq!(&SECOND_PROOF, b"APD");
}

#[test]
fn ap_long_mode_tables_and_machine_code_match_transition_contract() {
    assert_eq!(
        AP_LONG_MODE_GDT_BYTES[8..16],
        [0xff, 0xff, 0, 0, 0, 0x9a, 0xaf, 0]
    );
    assert_eq!(
        AP_LONG_MODE_GDT_BYTES[16..24],
        [0xff, 0xff, 0, 0, 0, 0x92, 0xcf, 0]
    );
    assert_eq!(AP_LONG_MODE_GDTR_BYTES, [0x17, 0, 0, 0x70, 0, 0]);
    assert_eq!(
        &AP_LONG_MODE_TRAMPOLINE_BYTES[..13],
        &[0xfa, 0x31, 0xc0, 0x8e, 0xd8, 0x8e, 0xc0, 0x8e, 0xd0, 0xb0, b'A', 0xe6, 0xe9]
    );
    assert_eq!(
        &AP_LONG_MODE_TRAMPOLINE_BYTES[66..74],
        &[0x66, 0xea, 0x4a, 0x80, 0, 0, 0x08, 0]
    );
    assert_eq!(&AP_LONG_MODE_PROOF, b"ALPD");
    assert_ne!(AP_LONG_MODE_STACK, FIRST_STACK);
}

#[test]
fn ap_long_mode_ipi_machine_code_owns_idt_and_guest_icr_route() {
    assert_eq!(
        AP_LONG_MODE_IPI_IDTR_BYTES,
        [0x2f, 0x05, 0x00, 0x60, 0, 0, 0, 0, 0, 0]
    );
    assert_eq!(AP_LONG_MODE_IPI_VECTOR, 0x52);
    assert_eq!(AP_LONG_MODE_IPI_IDT_LIMIT, 0x52f);
    assert_eq!(AP_LONG_MODE_IPI_HANDLER_BYTES.len(), 16);
    assert!(AP_LONG_MODE_IPI_TRAMPOLINE_BYTES
        .windows(2)
        .any(|window| window == [0xfb, 0xf4]));
    assert!(AP_LONG_MODE_IPI_TRAMPOLINE_BYTES
        .windows(8)
        .any(|window| window == [0x0f, 0x01, 0x1c, 0x25, 0x40, 0x70, 0x00, 0x00]));
    assert_eq!(
        &FIRST_GUEST_IPI_BYTES[67..77],
        &[0xc7, 0x83, 0x10, 0x03, 0, 0, 0, 0, 0, 1]
    );
    assert_eq!(
        &FIRST_GUEST_IPI_BYTES[77..87],
        &[0xc7, 0x83, 0, 0x03, 0, 0, AP_LONG_MODE_IPI_VECTOR, 0, 0, 0]
    );
    assert_eq!(&AP_LONG_MODE_IPI_BSP_PROOF, b"0IDSXMD");
    assert_eq!(&AP_LONG_MODE_IPI_PROOF, b"ALRIMD");
}

#[test]
fn bsp_proof_covers_init_deassert_sipi_and_shared_handoff() {
    assert_eq!(&FIRST_PROOF, b"0IDSMD");
    assert_eq!(&FIRST_GUEST_BYTES[81..83], &[0x75, 0x09]);
    assert_eq!(
        &FIRST_GUEST_BYTES[83..91],
        &[0xb0, b'M', 0xe6, 0xe9, 0xb0, b'D', 0xe6, 0xe9]
    );
    assert_eq!(&FIRST_GUEST_BYTES[92..96], &[0xb0, b'F', 0xe6, 0xe9]);
}

