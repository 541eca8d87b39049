use mini_hypervisor::portio::two_vcpu_guest_ipi_fixture::{FIRST_GUEST_BYTES, FIRST_PROOF, HANDLER_BYTES, ICR_HIGH_VALUE, ICR_LOW_VALUE, LAPIC_GPA, LAPIC_VIRTUAL_PAGE, SECOND_GUEST_BYTES, SECOND_PROOF, SECOND_VCPU_INDEX, TARGET_APIC_ID, TARGET_VECTOR};
#[test]
fn guest_icr_program_targets_apic_one_with_fixed_vector_52() {
    assert_eq!(LAPIC_VIRTUAL_PAGE, 0x50_0000);
    assert_eq!(LAPIC_GPA, 0xfee0_0000);
    assert_eq!(TARGET_APIC_ID, SECOND_VCPU_INDEX as u8);
    assert_eq!(TARGET_VECTOR, 0x52);
    assert_eq!(ICR_HIGH_VALUE, 0x0100_0000);
    assert_eq!(ICR_LOW_VALUE, 0x52);
    assert_eq!(
        &FIRST_GUEST_BYTES[16..26],
        &[0xc7, 0x83, 0x10, 0x03, 0x00, 0x00, 0x00, 0x00, 0x00, 0x01]
    );
    assert_eq!(
        &FIRST_GUEST_BYTES[26..36],
        &[0xc7, 0x83, 0x00, 0x03, 0x00, 0x00, 0x52, 0x00, 0x00, 0x00]
    );
}

#[test]
fn handler_acknowledges_local_apic_before_iretq() {
    assert_eq!(
        &HANDLER_BYTES[4..14],
        &[0xc7, 0x83, 0xb0, 0x00, 0x00, 0x00, 0x00, 0x00, 0x00, 0x00]
    );
    assert_eq!(&HANDLER_BYTES[14..], &[0x48, 0xcf]);
}

#[test]
fn proofs_make_target_isolation_and_handler_order_observable() {
    assert_eq!(&FIRST_PROOF, b"0SMD");
    assert_eq!(&SECOND_PROOF, b"RI1D");
    assert_eq!(&SECOND_GUEST_BYTES[11..15], &[0xb0, b'R', 0xe6, 0xe9]);
    assert_eq!(&SECOND_GUEST_BYTES[15..17], &[0xfb, 0x90]);
}

