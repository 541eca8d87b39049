use mini_hypervisor::portio::two_vcpu_targeted_msi_fixture::{FIRST_GUEST_BYTES, FIRST_PROOF, HANDLER_BYTES, SECOND_GUEST_BYTES, SECOND_PROOF, SECOND_VCPU_INDEX, TARGET_MSI_ADDRESS, TARGET_MSI_DATA, TARGET_VECTOR};


#[test]
fn fixed_target_is_apic_id_one_and_vector_51() {
    assert_eq!(SECOND_VCPU_INDEX, 1);
    assert_eq!(TARGET_MSI_ADDRESS, 0xfee0_1000);
    assert_eq!(TARGET_MSI_DATA, 0x51);
    assert_eq!(TARGET_VECTOR, 0x51);
}

#[test]
fn fixed_guest_programs_make_wrong_target_and_missing_target_observable() {
    assert_eq!(&FIRST_GUEST_BYTES[..2], &[0xfb, 0x90]);
    assert_eq!(&FIRST_GUEST_BYTES[2..6], &[0xb0, b'0', 0xe6, 0xe9]);
    assert_eq!(&SECOND_GUEST_BYTES[..5], &[0xfa, 0xb0, b'R', 0xe6, 0xe9]);
    assert_eq!(&SECOND_GUEST_BYTES[5..7], &[0xfb, 0x90]);
    assert_eq!(HANDLER_BYTES, [0xb0, b'I', 0xe6, 0xe9, 0x48, 0xcf]);
    assert_eq!(&FIRST_PROOF, b"0MD");
    assert_eq!(&SECOND_PROOF, b"RI1D");
}

