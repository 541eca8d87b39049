use mini_hypervisor::portio::two_vcpu_ap_local_timer_fixture::{APIC_LVT_MASKED, APIC_LVT_TIMER_MODE_MASK, APIC_SPIV_SOFTWARE_ENABLE, AP_LOCAL_TIMER_DIVIDE_CONFIGURATION, AP_LOCAL_TIMER_IDT_LIMIT, AP_LOCAL_TIMER_INITIAL_COUNT, AP_LOCAL_TIMER_VECTOR, AP_TIMER_GUEST_BYTES, AP_TIMER_HANDLER_BYTES, AP_TIMER_PROOF, BSP_TIMER_PROOF, SHARED_MARKER, SHARED_MARKER_VALUE};
#[test]
fn timer_machine_code_preserves_startup_and_programs_one_shot_lapic() {
    assert_eq!(AP_TIMER_GUEST_BYTES.len(), 178);
    assert_eq!(&AP_TIMER_GUEST_BYTES[..73], &[
        0xfa, 0x31, 0xc0, 0x8e, 0xd8, 0x8e, 0xc0, 0x8e, 0xd0, 0xb0, 0x41, 0xe6,
        0xe9, 0x0f, 0x01, 0x16, 0x20, 0x70, 0x0f, 0x20, 0xe0, 0x66, 0x83, 0xc8,
        0x20, 0x0f, 0x22, 0xe0, 0x66, 0xb8, 0x00, 0x10, 0x00, 0x00, 0x0f, 0x22,
        0xd8, 0x66, 0xb9, 0x80, 0x00, 0x00, 0xc0, 0x0f, 0x32, 0x66, 0x0d, 0x00,
        0x01, 0x00, 0x00, 0x0f, 0x30, 0x0f, 0x20, 0xc0, 0x66, 0x0d, 0x01, 0x00,
        0x00, 0x80, 0x0f, 0x22, 0xc0, 0x66, 0xea, 0x49, 0x80, 0x00, 0x00, 0x08,
        0x00,
    ]);
    assert!(AP_TIMER_GUEST_BYTES.windows(10).any(|window| window == [
        0xc7, 0x83, 0xe0, 0x03, 0, 0,
        AP_LOCAL_TIMER_DIVIDE_CONFIGURATION as u8, 0, 0, 0,
    ]));
    assert!(AP_TIMER_GUEST_BYTES.windows(10).any(|window| window == [
        0xc7, 0x83, 0x20, 0x03, 0, 0, AP_LOCAL_TIMER_VECTOR, 0, 0, 0,
    ]));
    assert!(AP_TIMER_GUEST_BYTES.windows(10).any(|window| window == [
        0xc7, 0x83, 0x80, 0x03, 0, 0, 0, 0, 0x10, 0,
    ]));
    assert!(AP_TIMER_GUEST_BYTES.windows(2).any(|window| window == [0xfb, 0xf4]));
    assert_eq!(AP_TIMER_HANDLER_BYTES[..4], [0xb0, b'T', 0xe6, 0xe9]);
    assert_eq!(AP_LOCAL_TIMER_VECTOR, 0x53);
    assert_eq!(AP_LOCAL_TIMER_IDT_LIMIT, 0x53f);
    assert_eq!(AP_LOCAL_TIMER_DIVIDE_CONFIGURATION & 0x0b, 0x0b);
    assert_ne!(AP_LOCAL_TIMER_INITIAL_COUNT, 0);
    assert_eq!(AP_LOCAL_TIMER_VECTOR as u32 & APIC_LVT_MASKED, 0);
    assert_eq!(AP_LOCAL_TIMER_VECTOR as u32 & APIC_LVT_TIMER_MODE_MASK, 0);
    assert_eq!(0x1ff & APIC_SPIV_SOFTWARE_ENABLE, APIC_SPIV_SOFTWARE_ENABLE);
}

#[test]
fn fixed_proofs_keep_bsp_startup_separate_from_ap_timer_ownership() {
    assert_eq!(&BSP_TIMER_PROOF, b"0IDSMD");
    assert_eq!(&AP_TIMER_PROOF, b"ALRATWD");
    assert_eq!(SHARED_MARKER, 0x9000);
    assert_eq!(SHARED_MARKER_VALUE, b'K');
}

