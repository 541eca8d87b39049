use mini_hypervisor::error::{Error, GuestMemoryError, HostEnvironmentError, KvmCapabilityError};
use mini_hypervisor::kvm::cpu::{
    CpuidEntry, GuestCpuPolicy, HostCpuid, CPUID_FEATURES, CPUID_FEATURE_TSC_DEADLINE, CPUID_FEATURE_X2APIC,
    KVM_CPUID_FEATURES, KVM_FEATURE_PV_UNHALT,
};
use mini_hypervisor::kvm::sys::KvmCpuidEntry2;
use mini_hypervisor::kvm::{
    cpuid_entry_from_kvm, cpuid_entry_to_kvm, require_mp_state_capability, required_extensions,
    validate_guest_memory_registration, validate_supported_cpuid_count, Capability, HostCapabilities,
    EXPECTED_KVM_API_VERSION, KVM_CAP_EXT_CPUID, KVM_CAP_MP_STATE, KVM_CAP_SET_IDENTITY_MAP_ADDR,
    KVM_CAP_SET_TSS_ADDR, KVM_IDENTITY_MAP_ADDR,
};
use mini_hypervisor::kvm::msr::{HostMsrFeatureValues, HostMsrModelCandidate, MsrFeatureValue, MsrIndex, MSR_IA32_UCODE_REV};
use mini_hypervisor::memory::{GuestMemoryRegion, GuestPhysAddr, KVM_MEMORY_ALIGNMENT};
use mini_hypervisor::model::CpuModelCandidate;

fn valid_capabilities() -> HostCapabilities {
    HostCapabilities {
        api_version: EXPECTED_KVM_API_VERSION,
        vcpu_mmap_size: 4096,
        extensions: required_extensions()
            .into_iter()
            .map(|(name, id)| Capability { name, id, value: 1 })
            .collect(),
    }
}

#[test]
fn accepts_expected_capabilities() {
    assert!(valid_capabilities().validate().is_ok());
}

#[test]
fn rejects_wrong_api_version() {
    let mut capabilities = valid_capabilities();
    capabilities.api_version = 11;
    assert!(matches!(
        capabilities.validate(),
        Err(Error::KvmCapability(KvmCapabilityError::UnsupportedApiVersion { actual: 11, .. }))
    ));
}

#[test]
fn rejects_missing_required_extension() {
    let mut capabilities = valid_capabilities();
    capabilities.extensions.retain(|capability| capability.id != KVM_CAP_SET_TSS_ADDR);
    assert!(matches!(
        capabilities.validate(),
        Err(Error::KvmCapability(KvmCapabilityError::MissingExtension {
            name: "KVM_CAP_SET_TSS_ADDR",
            id: KVM_CAP_SET_TSS_ADDR,
        }))
    ));
}

#[test]
fn rejects_missing_extended_cpuid_support() {
    let mut capabilities = valid_capabilities();
    capabilities.extensions.retain(|capability| capability.id != KVM_CAP_EXT_CPUID);
    assert!(matches!(
        capabilities.validate(),
        Err(Error::KvmCapability(KvmCapabilityError::MissingExtension {
            name: "KVM_CAP_EXT_CPUID",
            id: KVM_CAP_EXT_CPUID,
        }))
    ));
}

#[test]
fn rejects_disabled_required_extension() {
    let mut capabilities = valid_capabilities();
    capabilities
        .extensions
        .iter_mut()
        .find(|capability| capability.id == KVM_CAP_SET_IDENTITY_MAP_ADDR)
        .unwrap()
        .value = 0;
    assert!(matches!(
        capabilities.validate(),
        Err(Error::KvmCapability(KvmCapabilityError::MissingExtension {
            name: "KVM_CAP_SET_IDENTITY_MAP_ADDR",
            id: KVM_CAP_SET_IDENTITY_MAP_ADDR,
        }))
    ));
}

#[test]
fn rejects_non_positive_vcpu_mmap_size() {
    let mut capabilities = valid_capabilities();
    capabilities.vcpu_mmap_size = 0;
    assert!(matches!(
        capabilities.validate(),
        Err(Error::KvmCapability(KvmCapabilityError::InvalidVcpuMmapSize { size: 0 }))
    ));
}

#[test]
fn validates_supported_cpuid_count_against_fixed_capacity() {
    assert_eq!(validate_supported_cpuid_count(1, 256).unwrap(), 1);
    assert_eq!(validate_supported_cpuid_count(256, 256).unwrap(), 256);
    assert!(matches!(
        validate_supported_cpuid_count(0, 256),
        Err(Error::HostEnvironment(HostEnvironmentError::Io {
            operation: "validate KVM_GET_SUPPORTED_CPUID response",
            ..
        }))
    ));
    assert!(matches!(
        validate_supported_cpuid_count(257, 256),
        Err(Error::HostEnvironment(HostEnvironmentError::Io {
            operation: "validate KVM_GET_SUPPORTED_CPUID response",
            ..
        }))
    ));
}

#[test]
fn cpuid_uapi_conversion_drops_reserved_padding_and_round_trips_fields() {
    let raw = KvmCpuidEntry2 {
        function: 0x8000_0001,
        index: 7,
        flags: 0xa5a5_5a5a,
        eax: 0x1111_1111,
        ebx: 0x2222_2222,
        ecx: 0x3333_3333,
        edx: 0x4444_4444,
        padding: [1, 2, 3],
    };

    let typed = cpuid_entry_from_kvm(raw);
    assert_eq!(typed.function, raw.function);
    assert_eq!(typed.index, raw.index);
    assert_eq!(typed.flags, raw.flags);
    assert_eq!(typed.eax, raw.eax);
    assert_eq!(typed.ebx, raw.ebx);
    assert_eq!(typed.ecx, raw.ecx);
    assert_eq!(typed.edx, raw.edx);

    let round_trip = cpuid_entry_to_kvm(typed);
    assert_eq!(round_trip.padding, [0; 3]);
    assert_eq!(round_trip.function, raw.function);
    assert_eq!(round_trip.index, raw.index);
    assert_eq!(round_trip.flags, raw.flags);
    assert_eq!(round_trip.eax, raw.eax);
    assert_eq!(round_trip.ebx, raw.ebx);
    assert_eq!(round_trip.ecx, raw.ecx);
    assert_eq!(round_trip.edx, raw.edx);
}

#[test]
fn rejects_ram_overlapping_kvm_x86_reserved_pages() {
    let region = GuestMemoryRegion::new(GuestPhysAddr::new(KVM_IDENTITY_MAP_ADDR), KVM_MEMORY_ALIGNMENT).unwrap();
    assert!(matches!(
        validate_guest_memory_registration(region),
        Err(Error::GuestMemory(GuestMemoryError::ReservedRangeOverlap { .. }))
    ));
}

#[test]
fn accepts_ram_adjacent_to_kvm_x86_reserved_pages() {
    let region = GuestMemoryRegion::new(
        GuestPhysAddr::new(KVM_IDENTITY_MAP_ADDR - KVM_MEMORY_ALIGNMENT),
        KVM_MEMORY_ALIGNMENT,
    )
    .unwrap();
    assert!(validate_guest_memory_registration(region).is_ok());
}

#[test]
fn mp_state_capability_id_matches_linux_kvm() {
    assert_eq!(KVM_CAP_MP_STATE, 14);
}

#[test]
fn mp_state_capability_must_be_enabled() {
    assert_eq!(require_mp_state_capability(1), Ok(()));
    assert_eq!(
        require_mp_state_capability(0),
        Err(Error::KvmCapability(KvmCapabilityError::MissingExtension { name: "KVM_CAP_MP_STATE", id: 14 }))
    );
}

fn host_fixture() -> HostCpuid {
    HostCpuid::from_entries(vec![
        CpuidEntry {
            function: CPUID_FEATURES,
            index: 3,
            flags: 0xa5a5_5a5a,
            eax: 0x1111_1111,
            ebx: 0x2222_2222,
            ecx: CPUID_FEATURE_X2APIC | CPUID_FEATURE_TSC_DEADLINE | 0x1,
            edx: 0x3333_3333,
        },
        CpuidEntry {
            function: KVM_CPUID_FEATURES,
            index: 7,
            flags: 0x55aa_aa55,
            eax: KVM_FEATURE_PV_UNHALT | 0x1,
            ebx: 0x4444_4444,
            ecx: 0x5555_5555,
            edx: 0x6666_6666,
        },
        CpuidEntry {
            function: 0x8000_0001,
            index: 9,
            flags: 0xdead_beef,
            eax: 0x7777_7777,
            ebx: 0x8888_8888,
            ecx: 0x9999_9999,
            edx: 0xaaaa_aaaa,
        },
    ])
}

#[test]
fn policy_masks_only_lapic_dependent_features_without_mutating_host() {
    let host = host_fixture();
    let original = host.clone();

    let policy = GuestCpuPolicy::from_host(&host);

    assert_eq!(host, original);
    assert_eq!(policy.entries()[0].ecx, 0x1);
    assert_eq!(policy.entries()[1].eax, 0x1);
    assert_eq!(policy.entries()[2], host.entries()[2]);
}

#[test]
fn policy_preserves_unrelated_metadata_and_registers() {
    let host = host_fixture();
    let policy = GuestCpuPolicy::from_host(&host);

    assert_eq!(policy.entries().len(), host.entries().len());
    assert_eq!(policy.entries()[0].function, host.entries()[0].function);
    assert_eq!(policy.entries()[0].index, host.entries()[0].index);
    assert_eq!(policy.entries()[0].flags, host.entries()[0].flags);
    assert_eq!(policy.entries()[0].eax, host.entries()[0].eax);
    assert_eq!(policy.entries()[0].ebx, host.entries()[0].ebx);
    assert_eq!(policy.entries()[0].edx, host.entries()[0].edx);
    assert_eq!(policy.entries()[1].index, host.entries()[1].index);
    assert_eq!(policy.entries()[1].flags, host.entries()[1].flags);
    assert_eq!(policy.entries()[1].ebx, host.entries()[1].ebx);
    assert_eq!(policy.entries()[1].ecx, host.entries()[1].ecx);
    assert_eq!(policy.entries()[1].edx, host.entries()[1].edx);
}

#[test]
fn policy_masks_every_matching_leaf_entry() {
    let host = HostCpuid::from_entries(vec![
        CpuidEntry { function: CPUID_FEATURES, index: 0, ecx: CPUID_FEATURE_X2APIC | 0x2, ..CpuidEntry::default() },
        CpuidEntry {
            function: CPUID_FEATURES,
            index: 1,
            ecx: CPUID_FEATURE_TSC_DEADLINE | 0x4,
            ..CpuidEntry::default()
        },
        CpuidEntry { function: KVM_CPUID_FEATURES, index: 0, eax: KVM_FEATURE_PV_UNHALT | 0x8, ..CpuidEntry::default() },
    ]);

    let policy = GuestCpuPolicy::from_host(&host);

    assert_eq!(policy.entries()[0].ecx, 0x2);
    assert_eq!(policy.entries()[1].ecx, 0x4);
    assert_eq!(policy.entries()[2].eax, 0x8);
}

fn guest_policy(entries: Vec<CpuidEntry>) -> GuestCpuPolicy {
    GuestCpuPolicy::from_host(&HostCpuid::from_entries(entries))
}

fn msr_candidate(values: Vec<MsrFeatureValue>) -> HostMsrModelCandidate {
    HostMsrFeatureValues::from_values(values).model_candidate()
}

#[test]
fn composition_retains_complete_msr_source_provenance() {
    let guest_cpu_policy = guest_policy(Vec::new());
    let host_msr_model_candidate = msr_candidate(vec![
        MsrFeatureValue::new(MsrIndex::new(0x3a), 1),
        MsrFeatureValue::new(MsrIndex::new(MSR_IA32_UCODE_REV), 2),
    ]);
    let source_observation = host_msr_model_candidate.source_observation().clone();

    let candidate = CpuModelCandidate::new(&guest_cpu_policy, &host_msr_model_candidate);

    assert_eq!(candidate.host_msr_model_candidate().source_observation(), &source_observation);
    assert_eq!(
        candidate.host_msr_model_candidate().source_observation().host_mutable_values().len(),
        1
    );
    assert_eq!(candidate.host_msr_model_candidate().values().len(), 1);
}

#[test]
fn composition_accepts_empty_cpuid_and_empty_msr_components() {
    let guest_cpu_policy = guest_policy(Vec::new());
    let host_msr_model_candidate = msr_candidate(Vec::new());

    let candidate = CpuModelCandidate::new(&guest_cpu_policy, &host_msr_model_candidate);

    assert!(candidate.guest_cpu_policy().entries().is_empty());
    assert!(candidate.host_msr_model_candidate().values().is_empty());
    assert!(candidate.host_msr_model_candidate().source_observation().values().is_empty());
}

#[test]
fn cloning_composition_preserves_both_owned_contracts() {
    let guest_cpu_policy =
        guest_policy(vec![CpuidEntry { function: 7, index: 2, flags: 1, eax: 2, ebx: 3, ecx: 4, edx: 5 }]);
    let host_msr_model_candidate =
        msr_candidate(vec![MsrFeatureValue::new(MsrIndex::new(0x10a), 0x1234_5678_9abc_def0)]);
    let candidate = CpuModelCandidate::new(&guest_cpu_policy, &host_msr_model_candidate);

    assert_eq!(candidate.clone(), candidate);
}

#[test]
fn composition_owns_and_round_trips_existing_components() {
    let guest_cpu_policy = guest_policy(vec![CpuidEntry {
        function: 0x8000_0001,
        index: 9,
        flags: 0xdead_beef,
        eax: 0x1111_1111,
        ebx: 0x2222_2222,
        ecx: 0x3333_3333,
        edx: 0x4444_4444,
    }]);
    let host_msr_model_candidate = msr_candidate(vec![
        MsrFeatureValue::new(MsrIndex::new(0x3a), 0x1111_2222_3333_4444),
        MsrFeatureValue::new(MsrIndex::new(MSR_IA32_UCODE_REV), 0xaaaa_bbbb_cccc_dddd),
    ]);
    let expected_policy = guest_cpu_policy.clone();
    let expected_msr_candidate = host_msr_model_candidate.clone();

    let candidate = CpuModelCandidate::new(&guest_cpu_policy, &host_msr_model_candidate);
    drop(guest_cpu_policy);
    drop(host_msr_model_candidate);

    assert_eq!(candidate.guest_cpu_policy(), &expected_policy);
    assert_eq!(candidate.host_msr_model_candidate(), &expected_msr_candidate);
}

#[test]
fn open_errors_are_classified_by_errno() {
    assert_eq!(
        mini_hypervisor::kvm::classify_open_error(2),
        mini_hypervisor::error::Error::HostEnvironment(mini_hypervisor::error::HostEnvironmentError::KvmUnavailable { source: mini_hypervisor::error::HostIoCause::Os { errno: 2 } })
    );
    assert_eq!(
        mini_hypervisor::kvm::classify_open_error(13),
        mini_hypervisor::error::Error::HostEnvironment(mini_hypervisor::error::HostEnvironmentError::PermissionDenied { source: mini_hypervisor::error::HostIoCause::Os { errno: 13 } })
    );
    assert_eq!(
        mini_hypervisor::kvm::classify_open_error(1),
        mini_hypervisor::error::Error::HostEnvironment(mini_hypervisor::error::HostEnvironmentError::PermissionDenied { source: mini_hypervisor::error::HostIoCause::Os { errno: 1 } })
    );
    assert_eq!(
        mini_hypervisor::kvm::classify_open_error(16),
        mini_hypervisor::error::Error::HostEnvironment(mini_hypervisor::error::HostEnvironmentError::Io { operation: "open /dev/kvm", source: mini_hypervisor::error::HostIoCause::Os { errno: 16 } })
    );
}

fn raw_entry(function: u32, ecx: u32) -> mini_hypervisor::kvm::sys::KvmCpuidEntry2 {
    mini_hypervisor::kvm::sys::KvmCpuidEntry2 {
        function,
        index: 0,
        flags: 0,
        eax: 1,
        ebx: 2,
        ecx,
        edx: 4,
        padding: [0; 3],
    }
}

#[test]
fn supported_cpuid_answer_keeps_the_reported_prefix_and_the_policy_round_trips() {
    let buffer = [raw_entry(0, 0), raw_entry(1, 0xffff_ffff), raw_entry(7, 0)];
    let host = mini_hypervisor::kvm::host_cpuid_from_kvm(&buffer, 2).unwrap();
    assert_eq!(host.entries().len(), 2);
    assert_eq!(host.entries()[1].function, 1);
    assert_eq!(host.entries()[1].ecx, 0xffff_ffff);
    assert!(mini_hypervisor::kvm::host_cpuid_from_kvm(&buffer, 0).is_err());
    assert!(mini_hypervisor::kvm::host_cpuid_from_kvm(&buffer, 4).is_err());

    let policy = mini_hypervisor::kvm::cpu::GuestCpuPolicy::from_host(&host);
    let raw = mini_hypervisor::kvm::policy_to_kvm(&policy);
    assert_eq!(raw.len(), 2);
    assert_eq!(raw[1].function, 1);
    assert_eq!(raw[1].ecx, policy.entries()[1].ecx);
    assert_ne!(raw[1].ecx, 0xffff_ffff);
}

#[test]
fn a_vm_takes_one_ram_region_outside_the_reserved_pages() {
    use_registration_checks();
}

fn use_registration_checks() {
    let region = mini_hypervisor::memory::GuestMemoryRegion::new(mini_hypervisor::memory::GuestPhysAddr::new(0), 0x20_0000).unwrap();
    assert_eq!(mini_hypervisor::kvm::check_guest_memory_registration(false, region), Ok(()));
    assert_eq!(
        mini_hypervisor::kvm::check_guest_memory_registration(true, region),
        Err(mini_hypervisor::error::Error::GuestMemory(mini_hypervisor::error::GuestMemoryError::AlreadyRegistered))
    );
    let high = mini_hypervisor::memory::GuestMemoryRegion::new(mini_hypervisor::memory::GuestPhysAddr::new(0xfeff_c000), 0x1000).unwrap();
    assert!(mini_hypervisor::kvm::check_guest_memory_registration(false, high).is_err());
}
