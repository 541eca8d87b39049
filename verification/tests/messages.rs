use mini_hypervisor::elf::Elf64Error;
use mini_hypervisor::kvm::host_registration_pair_schema_v1::VersionedHostRegistrationPairError;
use mini_hypervisor::kvm::host_registration_schema_v1::VersionedHostRegistrationSpecError;
use mini_hypervisor::kvm::msr::value_set::GuestMsrValueSetError;
use mini_hypervisor::kvm::msr::MsrIndex;
use mini_hypervisor::long_mode::LongModeConfigurationError;
use mini_hypervisor::pci::virtio_blk_checkpoint::VirtioBlkCheckpointStateError;
use mini_hypervisor::error::{
    ConfigurationError, Error, GuestMemoryError, HostEnvironmentError, HostIoCause, KvmCapabilityError, VmExitError,
};

#[test]
fn vcpu_operation_message_names_the_vcpu_and_operation() {
    let error = Error::HostEnvironment(HostEnvironmentError::VcpuOperation {
        id: 1,
        operation: "guest IPI second-vCPU readiness",
        source: HostIoCause::InvalidData,
    });
    assert_eq!(error.message(), "KVM vCPU 1 operation guest IPI second-vCPU readiness failed");
}

#[test]
fn hexadecimal_fields_use_the_alternate_form() {
    let error = Error::GuestMemory(GuestMemoryError::AccessOutOfBounds {
        address: 0x20_0000,
        length: 4,
        region_base: 0,
        region_size: 0x20_0000,
    });
    assert_eq!(
        error.message(),
        "guest-memory access is outside RAM: address=0x200000, length=4, region=0x0+0x200000"
    );
    let error = Error::Configuration(ConfigurationError::RealModeEntryOutOfRange { entry: 0x1_0000, maximum: 0xffff });
    assert_eq!(error.message(), "real-mode entry 0x10000 exceeds the current CS=0 RIP limit 0xffff");
}

#[test]
fn signed_and_optional_fields() {
    let error = Error::KvmCapability(KvmCapabilityError::UnsupportedApiVersion { expected: 12, actual: -1 });
    assert_eq!(error.message(), "unsupported KVM API version: expected 12, got -1");
    let error = Error::VmExit(VmExitError::ExitBudgetExhausted {
        vcpu_id: 0,
        budget: 2,
        completed: 2,
        last_exit_reason: Some(2),
    });
    assert_eq!(error.message(), "vCPU 0 exhausted its exit budget of 2 after 2 exits (last reason Some(2))");
    let error = Error::VmExit(VmExitError::ExitBudgetExhausted {
        vcpu_id: 0,
        budget: 0,
        completed: 0,
        last_exit_reason: None,
    });
    assert_eq!(error.message(), "vCPU 0 exhausted its exit budget of 0 after 0 exits (last reason None)");
}

#[test]
fn elf_messages_match_their_refusals() {
    assert_eq!(
        Elf64Error::FileTooSmall { length: 12 }.message(),
        "ELF64 image is too small for its fixed header: 12 bytes"
    );
    assert_eq!(Elf64Error::InvalidHeaderSize { actual: 3 }.message(), "invalid ELF64 header size 3; expected 64");
    assert_eq!(
        Elf64Error::InvalidProgramHeaderSize { actual: 0 }.message(),
        "invalid ELF64 program-header size 0; expected 56"
    );
    assert_eq!(
        Elf64Error::LoadSegmentsOverlap { first: 0, second: 1 }.message(),
        "ELF64 PT_LOAD segments 0 and 1 overlap in guest memory"
    );
    assert_eq!(
        Elf64Error::EntryNotInExecutableFileBackedSegment { entry: 0x40_1000 }.message(),
        "ELF64 entry 0x401000 is not inside an executable file-backed PT_LOAD range"
    );
    assert_eq!(
        Elf64Error::SegmentFileRangeOutOfBounds { index: 2, offset: 0x1000, file_size: 0xff, file_length: 4096 }
            .message(),
        "ELF64 PT_LOAD segment 2 file range is outside the image: offset=0x1000, filesz=0xff, file_length=4096"
    );
}

#[test]
fn refusal_messages_of_the_byte_formats_and_layouts() {
    assert_eq!(
        VersionedHostRegistrationSpecError::UnsupportedVersion(3).message(),
        "versioned host-registration spec version 3 is unsupported"
    );
    assert_eq!(
        VersionedHostRegistrationPairError::Registration {
            index: 1,
            error: VersionedHostRegistrationSpecError::Truncated { actual: 5 },
        }
        .message(),
        "versioned host-registration pair member 1 is invalid: versioned host-registration spec is truncated: 5 bytes, expected 48"
    );
    assert_eq!(
        VersionedHostRegistrationPairError::NonZeroFlags(0x80).message(),
        "versioned host-registration pair flags must be zero, got 0x80"
    );
    assert_eq!(
        GuestMsrValueSetError::DuplicateIndex { index: MsrIndex(0x10), first_position: 0, duplicate_position: 2 }.message(),
        "guest MSR value index 0x10 is duplicated at positions 0 and 2"
    );
    assert_eq!(
        LongModeConfigurationError::RamTooSmall { size: 0x1000, minimum: 0x20_0000 }.message(),
        "long-mode bootstrap requires at least 0x200000 bytes of guest RAM, got 0x1000"
    );
    assert_eq!(
        VirtioBlkCheckpointStateError::MisalignedBar { bar0: 0x10 }.message(),
        "virtio-blk BAR 0x10 is not 0x1000-aligned"
    );
}
