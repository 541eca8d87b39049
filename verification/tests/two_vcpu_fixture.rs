use mini_hypervisor::portio::two_vcpu_fixture::{FIRST_ENTRY, FIRST_GUEST_BYTES, FIRST_TERMINAL_RIP, SECOND_ENTRY, SECOND_GUEST_BYTES, SECOND_TERMINAL_RIP};
#[test]
fn fixed_guest_programs_use_distinct_entries_and_shared_marker() {
    assert_ne!(FIRST_ENTRY, SECOND_ENTRY);
    assert_eq!(&FIRST_GUEST_BYTES[2..5], &[0xa2, 0x00, 0x30]);
    assert_eq!(&SECOND_GUEST_BYTES[0..3], &[0xa0, 0x00, 0x30]);
    assert_eq!(&FIRST_GUEST_BYTES[7..9], &[0xe6, 0xe9]);
    assert_eq!(&SECOND_GUEST_BYTES[9..11], &[0xe6, 0xe9]);
    assert_eq!(FIRST_TERMINAL_RIP, 0x100a);
    assert_eq!(SECOND_TERMINAL_RIP, 0x200c);
}

#[test]
fn second_guest_failure_branch_cannot_alias_success_terminal() {
    assert_eq!(&SECOND_GUEST_BYTES[5..7], &[0x75, 0x05]);
    assert_eq!(&SECOND_GUEST_BYTES[12..14], &[0xb0, b'F']);
    assert_eq!(SECOND_GUEST_BYTES[16], 0xf4);
}

