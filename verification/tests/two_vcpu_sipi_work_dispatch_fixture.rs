use mini_hypervisor::portio::two_vcpu_sipi_work_dispatch_fixture::{AP_COMPOSED_PROOF, AP_GUEST_BYTES, AP_HANDLER_BYTES, AP_LONG_MODE_GDTR_BYTES, AP_LONG_MODE_GDT_BYTES, AP_LONG_MODE_IPI_IDTR_BYTES, AP_TERMINAL_RIP, AP_TRAMPOLINE, BSP_COMPOSED_PROOF, BSP_ENTRY, BSP_GUEST_BYTES, BSP_TERMINAL_RIP};
use mini_hypervisor::portio::two_vcpu_init_sipi_fixture::{AP_LONG_MODE_IPI_IDT_LIMIT, AP_LONG_MODE_IPI_VECTOR, ICR_HIGH_VALUE, INIT_ASSERT_VALUE, INIT_DEASSERT_VALUE, SIPI_VALUE};
use mini_hypervisor::portio::two_vcpu_work_dispatch_fixture::{WORK_ACK_OFFSET, WORK_COMMAND_OFFSET};
#[test]
fn composed_guest_bytes_preserve_sipi_ipi_and_locked_mailbox_contracts() {
    assert_eq!(BSP_GUEST_BYTES.len(), 160);
    assert_eq!(AP_GUEST_BYTES.len(), 171);
    assert_eq!(&BSP_COMPOSED_PROOF, b"0IDSCXVD");
    assert_eq!(&AP_COMPOSED_PROOF, b"ALRIPD");
    assert_eq!(BSP_TERMINAL_RIP, BSP_ENTRY + 0x9b);
    assert_eq!(AP_TERMINAL_RIP, AP_TRAMPOLINE + 0xa6);
    assert!(BSP_GUEST_BYTES
        .windows(3)
        .any(|window| window == [0x86, 0x41, WORK_COMMAND_OFFSET as u8]));
    assert!(BSP_GUEST_BYTES
        .windows(3)
        .any(|window| window == [0x86, 0x41, WORK_ACK_OFFSET as u8]));
    assert!(AP_GUEST_BYTES
        .windows(3)
        .any(|window| window == [0x86, 0x41, WORK_COMMAND_OFFSET as u8]));
    assert!(AP_GUEST_BYTES
        .windows(3)
        .any(|window| window == [0x86, 0x41, WORK_ACK_OFFSET as u8]));
    assert!(AP_GUEST_BYTES
        .windows(2)
        .any(|window| window == [0xfb, 0xf4]));
    assert!(BSP_GUEST_BYTES.windows(10).any(|window| {
        window
            == [
                0xc7,
                0x83,
                0x00,
                0x03,
                0x00,
                0x00,
                AP_LONG_MODE_IPI_VECTOR,
                0,
                0,
                0,
            ]
    }));
    assert_eq!(&AP_HANDLER_BYTES[..4], &[0xb0, b'I', 0xe6, 0xe9]);
}

#[test]
fn composed_tables_match_integrated_ap_startup_contract() {
    assert_eq!(
        AP_LONG_MODE_GDT_BYTES[8..16],
        [0xff, 0xff, 0, 0, 0, 0x9a, 0xaf, 0]
    );
    assert_eq!(AP_LONG_MODE_GDTR_BYTES, [0x17, 0, 0, 0x70, 0, 0]);
    assert_eq!(
        AP_LONG_MODE_IPI_IDTR_BYTES,
        [0x2f, 0x05, 0, 0x60, 0, 0, 0, 0, 0, 0]
    );
    assert_eq!(AP_LONG_MODE_IPI_VECTOR, 0x52);
    assert_eq!(AP_LONG_MODE_IPI_IDT_LIMIT, 0x52f);
    assert_eq!(ICR_HIGH_VALUE, 0x0100_0000);
    assert_eq!(INIT_ASSERT_VALUE, 0x0000_c500);
    assert_eq!(INIT_DEASSERT_VALUE, 0x0000_8500);
    assert_eq!(SIPI_VALUE, 0x0000_0608);
}

