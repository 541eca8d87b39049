use mini_hypervisor::error::{Error, HostEnvironmentError, HostIoCause, KvmCapabilityError};
use mini_hypervisor::kvm::ioeventfd_doorbell::{
    check_doorbell_event_count, require_ioeventfd_capability, validate_doorbell_roundtrip,
    IoeventfdDoorbellGuestResult, IOEVENTFD_DOORBELL_GPA, IOEVENTFD_DOORBELL_PROOF, IOEVENTFD_DOORBELL_VALUE,
    IOEVENTFD_GUEST_BYTES, IOEVENTFD_HANDLER_BYTES,
};

#[test]
fn deterministic_ioeventfd_guest_has_doorbell_barrier_and_sti_hlt_handoff() {
    assert_eq!(IOEVENTFD_GUEST_BYTES.len(), 69);
    assert_eq!(&IOEVENTFD_GUEST_BYTES[37..41], &[0xb0, b'R', 0xe6, 0xe9]);
    assert_eq!(&IOEVENTFD_GUEST_BYTES[51..54], &[0xc6, 0x03, b'W']);
    assert_eq!(&IOEVENTFD_GUEST_BYTES[54..58], &[0xb0, b'B', 0xe6, 0xe9]);
    assert_eq!(&IOEVENTFD_GUEST_BYTES[58..60], &[0xfb, 0xf4]);
    assert_eq!(&IOEVENTFD_GUEST_BYTES[60..64], &[0xb0, b'M', 0xe6, 0xe9]);
    assert_eq!(&IOEVENTFD_GUEST_BYTES[64..68], &[0xb0, b'D', 0xe6, 0xe9]);
    assert_eq!(IOEVENTFD_GUEST_BYTES[68], 0xf4);
    assert_eq!(IOEVENTFD_HANDLER_BYTES[1], b'I');
    assert_eq!(&IOEVENTFD_DOORBELL_PROOF, b"RBIMD");
}

#[test]
fn doorbell_store_targets_the_doorbell_address() {
    let address = u64::from_le_bytes(IOEVENTFD_GUEST_BYTES[43..51].try_into().unwrap());
    assert_eq!(address, IOEVENTFD_DOORBELL_GPA);
    assert_eq!(IOEVENTFD_GUEST_BYTES[53], IOEVENTFD_DOORBELL_VALUE);
}

fn vm_error(operation: &'static str) -> Error {
    Error::HostEnvironment(HostEnvironmentError::VmOperation { operation, source: HostIoCause::InvalidData })
}

#[test]
fn doorbell_checks_accept_only_one_signal_and_the_exact_proof() {
    assert_eq!(require_ioeventfd_capability(1), Ok(()));
    assert_eq!(
        require_ioeventfd_capability(0),
        Err(Error::KvmCapability(KvmCapabilityError::MissingExtension { name: "KVM_CAP_IOEVENTFD", id: 36 }))
    );
    assert_eq!(check_doorbell_event_count(1), Ok(1));
    assert_eq!(check_doorbell_event_count(2), Err(vm_error("ioeventfd doorbell worker")));
    assert_eq!(validate_doorbell_roundtrip(false, b"RBIMD", 5), Ok(()));
    assert_eq!(validate_doorbell_roundtrip(true, b"RBIMD", 5), Err(vm_error("ioeventfd doorbell watchdog")));
    assert_eq!(
        validate_doorbell_roundtrip(false, b"RBIM", 4),
        Err(vm_error("ioeventfd doorbell roundtrip proof"))
    );
    assert_eq!(
        validate_doorbell_roundtrip(false, b"RBIMD", 6),
        Err(vm_error("ioeventfd doorbell roundtrip proof"))
    );
}

#[test]
fn doorbell_report_carries_the_fixed_doorbell_and_the_observed_values() {
    let result = IoeventfdDoorbellGuestResult::from_run(1, 0x1ff, 0x700, 0x2, 0x202, Vec::new(), b"RBIMD".to_vec());
    assert_eq!(result.doorbell_gpa(), 0x50_0000);
    assert_eq!(result.doorbell_value(), b'W');
    assert_eq!(result.doorbell_event_count(), 1);
    assert_eq!(result.userspace_mmio_exit_count(), 0);
    assert_eq!(result.gsi(), 0);
    assert_eq!(result.vector(), 0x40);
    assert_eq!(result.lapic_spiv(), 0x1ff);
    assert_eq!(result.lapic_lint0(), 0x700);
    assert_eq!(result.doorbell_rflags(), 0x2);
    assert_eq!(result.completion_rflags(), 0x202);
    assert!(result.io_exits().is_empty());
    assert_eq!(result.proof_bytes(), b"RBIMD");
}
