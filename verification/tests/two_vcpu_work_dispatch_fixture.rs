use mini_hypervisor::portio::two_vcpu_work_dispatch_fixture::{AP_ENTRY, AP_GUEST_BYTES, AP_TERMINAL_RIP, AP_WORK_PROOF, BSP_ENTRY, BSP_GUEST_BYTES, BSP_TERMINAL_RIP, BSP_WORK_PROOF, WORK_ACK_OFFSET, WORK_COMMAND_OFFSET, WORK_MAILBOX, WORK_RESULT_OFFSET};
#[test]
fn guest_programs_use_locked_mailbox_transitions_and_bounded_failure_paths() {
    assert_eq!(WORK_MAILBOX, 0x9000);
    assert_eq!(WORK_COMMAND_OFFSET, 0x08);
    assert_eq!(WORK_RESULT_OFFSET, 0x10);
    assert_eq!(WORK_ACK_OFFSET, 0x18);
    assert_eq!(BSP_GUEST_BYTES.len(), 72);
    assert_eq!(AP_GUEST_BYTES.len(), 65);
    assert_eq!(BSP_TERMINAL_RIP, BSP_ENTRY + 0x43);
    assert_eq!(AP_TERMINAL_RIP, AP_ENTRY + 0x3c);
    assert!(BSP_GUEST_BYTES
        .windows(3)
        .any(|window| window == [0x86, 0x43, 0x08]));
    assert!(BSP_GUEST_BYTES
        .windows(3)
        .any(|window| window == [0x86, 0x43, 0x18]));
    assert!(AP_GUEST_BYTES
        .windows(3)
        .any(|window| window == [0x86, 0x43, 0x08]));
    assert!(AP_GUEST_BYTES
        .windows(3)
        .any(|window| window == [0x86, 0x43, 0x18]));
    assert_eq!(&BSP_GUEST_BYTES[67..72], &[0xb0, b'F', 0xe6, 0xe9, 0xf4]);
    assert_eq!(&AP_GUEST_BYTES[60..65], &[0xb0, b'F', 0xe6, 0xe9, 0xf4]);
    assert_eq!(&BSP_WORK_PROOF, b"BCVD");
    assert_eq!(&AP_WORK_PROOF, b"RPD");
}

