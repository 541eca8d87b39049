use mini_hypervisor::kvm::host_registration::{
    HostRegistrationCheckpoint, HostRegistrationSpec, KvmIoEventFd, KVM_CAP_IOEVENTFD,
    KVM_IOEVENTFD, KVM_IOEVENTFD_FLAG_DATAMATCH, KVM_IOEVENTFD_FLAG_DEASSIGN,
};
use mini_hypervisor::kvm::host_registration_pair::{
    build_two_host_registration_guest, two_host_registration_proof, HostRegistrationPairCheckpoint,
    HostRegistrationSpecPair, TWO_HOST_REGISTRATION_FIRST_BAR, TWO_HOST_REGISTRATION_FIRST_DOORBELL,
    TWO_HOST_REGISTRATION_FIRST_VECTOR, TWO_HOST_REGISTRATION_SECOND_BAR,
    TWO_HOST_REGISTRATION_SECOND_DOORBELL, TWO_HOST_REGISTRATION_SECOND_VECTOR,
};
use mini_hypervisor::kvm::host_registration_pair_schema_v1::{
    VersionedHostRegistrationPairError, VersionedHostRegistrationPairV1,
    VERSIONED_HOST_REGISTRATION_PAIR_LEN,
};
use mini_hypervisor::kvm::host_registration_schema_v1::{
    VersionedHostRegistrationSpecError, VersionedHostRegistrationSpecV1,
    VERSIONED_HOST_REGISTRATION_SPEC_LEN,
};

#[test]
fn descriptor_owns_semantics_without_a_raw_fd() {
    let spec = HostRegistrationSpec::new(0x1000_0100, 2, 0, 0).unwrap();
    assert_eq!(spec.doorbell_address(), 0x1000_0100);
    assert_eq!(spec.doorbell_length(), 2);
    assert_eq!(spec.doorbell_datamatch(), 0);
    assert_eq!(spec.gsi(), 0);
    assert_eq!(std::mem::size_of::<HostRegistrationSpec>(), 24);
    let checkpoint = HostRegistrationCheckpoint::capture(spec);
    assert_eq!(checkpoint.spec, spec);
    assert_eq!(std::mem::size_of::<HostRegistrationCheckpoint>(), 24);
}

#[test]
fn descriptor_rejects_invalid_lengths_overflow_and_datamatch_width() {
    assert!(HostRegistrationSpec::new(0x1000, 3, 0, 0).is_err());
    assert!(HostRegistrationSpec::new(u64::MAX, 2, 0, 0).is_err());
    assert!(HostRegistrationSpec::new(0x1000, 1, 0x100, 0).is_err());
    assert!(HostRegistrationSpec::new(0x1000, 2, 0x1_0000, 0).is_err());
    assert!(HostRegistrationSpec::new(0x1000, 8, u64::MAX, 0).is_ok());
}

#[test]
fn reconstructed_ioeventfd_requests_preserve_descriptor_semantics() {
    let spec = HostRegistrationSpec::new(0x1000_0100, 2, 0, 4).unwrap();
    let assign = KvmIoEventFd {
        datamatch: spec.doorbell_datamatch(),
        addr: spec.doorbell_address(),
        len: spec.doorbell_length(),
        fd: 17,
        flags: KVM_IOEVENTFD_FLAG_DATAMATCH,
        pad: [0; 36],
    };
    assert_eq!(assign.addr, 0x1000_0100);
    assert_eq!(assign.len, 2);
    assert_eq!(assign.datamatch, 0);
    assert_eq!(assign.fd, 17);
    assert_eq!(assign.flags, KVM_IOEVENTFD_FLAG_DATAMATCH);
    assert_eq!(spec.ioeventfd_assign(17), assign);
    assert_eq!(
        spec.ioeventfd_deassign(17).flags,
        KVM_IOEVENTFD_FLAG_DATAMATCH | KVM_IOEVENTFD_FLAG_DEASSIGN
    );
}

#[test]
fn ioeventfd_uapi_contract_matches_linux_kvm() {
    assert_eq!(KVM_CAP_IOEVENTFD, 36);
    assert_eq!(KVM_IOEVENTFD, 0x4040_AE79);
    assert_eq!(KVM_IOEVENTFD_FLAG_DATAMATCH, 1);
    assert_eq!(KVM_IOEVENTFD_FLAG_DEASSIGN, 4);
    assert_eq!(std::mem::size_of::<KvmIoEventFd>(), 64);
}

#[test]
fn ioeventfd_assign_and_deassign_preserve_match_contract() {
    let assign = KvmIoEventFd::assign(17, 0x1000_0000, 1, u64::from(b'W'));
    assert_eq!(assign.datamatch, u64::from(b'W'));
    assert_eq!(assign.addr, 0x1000_0000);
    assert_eq!(assign.len, 1);
    assert_eq!(assign.fd, 17);
    assert_eq!(assign.flags, KVM_IOEVENTFD_FLAG_DATAMATCH);
    assert_eq!(assign.pad, [0; 36]);

    let deassign = KvmIoEventFd::deassign(17, 0x1000_0000, 1, u64::from(b'W'));
    assert_eq!(deassign.datamatch, assign.datamatch);
    assert_eq!(deassign.addr, assign.addr);
    assert_eq!(deassign.len, assign.len);
    assert_eq!(deassign.fd, assign.fd);
    assert_eq!(deassign.flags, KVM_IOEVENTFD_FLAG_DATAMATCH | KVM_IOEVENTFD_FLAG_DEASSIGN);
    assert_eq!(deassign.pad, [0; 36]);
}

fn spec(address: u64, length: u32, gsi: u32) -> HostRegistrationSpec {
    HostRegistrationSpec::new(address, length, 0, gsi).unwrap()
}

#[test]
fn pair_is_canonical_non_overlapping_and_gsi_unique() {
    let first = spec(0x1000_0100, 2, 0);
    let second = spec(0x1000_1100, 2, 1);
    let pair = HostRegistrationSpecPair::new([second, first]).unwrap();
    assert_eq!(pair.specs(), [first, second]);

    assert!(HostRegistrationSpecPair::new([spec(0x1000, 8, 0), spec(0x1004, 4, 1)]).is_err());
    assert!(HostRegistrationSpecPair::new([spec(0x1000, 2, 0), spec(0x2000, 2, 0)]).is_err());
}

#[test]
fn pair_checkpoint_contains_only_two_fd_free_semantic_specs() {
    let pair = HostRegistrationSpecPair::new([
        spec(TWO_HOST_REGISTRATION_FIRST_DOORBELL, 2, 0),
        spec(TWO_HOST_REGISTRATION_SECOND_DOORBELL, 2, 1),
    ])
    .unwrap();
    let checkpoint = HostRegistrationPairCheckpoint::capture(pair);
    assert_eq!(checkpoint.pair, pair);
    assert_eq!(
        std::mem::size_of::<HostRegistrationPairCheckpoint>(),
        2 * std::mem::size_of::<HostRegistrationSpec>()
    );
}

#[test]
fn deterministic_two_generation_guest_contract_is_stable() {
    let guest = build_two_host_registration_guest();
    assert!(!guest.is_empty());
    assert_eq!(&two_host_registration_proof(), b"RA0MB1NCE0PF1QD");
    assert_eq!(TWO_HOST_REGISTRATION_SECOND_BAR - TWO_HOST_REGISTRATION_FIRST_BAR, 0x1000);
    assert_eq!(
        [TWO_HOST_REGISTRATION_FIRST_VECTOR, TWO_HOST_REGISTRATION_SECOND_VECTOR],
        [0x40, 0x41]
    );
}

#[test]
fn two_generation_guest_rings_each_doorbell_once_per_generation() {
    let guest = build_two_host_registration_guest();
    let first_ring = [0x66, 0xc7, 0x83, 0x00, 0x01, 0x00, 0x00, 0x00, 0x00];
    let second_ring = [0x66, 0xc7, 0x81, 0x00, 0x01, 0x00, 0x00, 0x00, 0x00];
    let count = |needle: &[u8]| guest.windows(needle.len()).filter(|w| *w == needle).count();
    assert_eq!(count(&first_ring), 2);
    assert_eq!(count(&second_ring), 2);
    assert_eq!(&guest[37..41], &[0xb0, b'R', 0xe6, 0xe9]);
    assert_eq!(*guest.last().unwrap(), 0xf4);
}

fn fixture_spec() -> HostRegistrationSpec {
    HostRegistrationSpec::new(0x1000_0100, 2, 0, 0).unwrap()
}

#[test]
fn fd_free_registration_spec_round_trips_canonically() {
    let schema = VersionedHostRegistrationSpecV1::from_spec(fixture_spec());
    let bytes = schema.encode();
    assert_eq!(bytes.len(), VERSIONED_HOST_REGISTRATION_SPEC_LEN);
    let decoded = VersionedHostRegistrationSpecV1::decode(&bytes).unwrap();
    assert_eq!(decoded.spec(), fixture_spec());
    assert_eq!(decoded.encode(), bytes);
}

#[test]
fn registration_envelope_and_semantics_fail_closed() {
    let base = VersionedHostRegistrationSpecV1::from_spec(fixture_spec()).encode();

    let mut bad_magic = base;
    bad_magic[0] ^= 0xff;
    assert_eq!(
        VersionedHostRegistrationSpecV1::decode(&bad_magic),
        Err(VersionedHostRegistrationSpecError::InvalidMagic)
    );

    let mut bad_version = base;
    bad_version[8..10].copy_from_slice(&2_u16.to_le_bytes());
    assert_eq!(
        VersionedHostRegistrationSpecV1::decode(&bad_version),
        Err(VersionedHostRegistrationSpecError::UnsupportedVersion(2))
    );

    let mut bad_header = base;
    bad_header[10..12].copy_from_slice(&0_u16.to_le_bytes());
    assert_eq!(
        VersionedHostRegistrationSpecV1::decode(&bad_header),
        Err(VersionedHostRegistrationSpecError::InvalidHeaderLength(0))
    );

    let mut bad_total = base;
    bad_total[12..16].copy_from_slice(&0_u32.to_le_bytes());
    assert_eq!(
        VersionedHostRegistrationSpecV1::decode(&bad_total),
        Err(VersionedHostRegistrationSpecError::InvalidTotalLength(0))
    );

    let mut bad_flags = base;
    bad_flags[40..44].copy_from_slice(&1_u32.to_le_bytes());
    assert_eq!(
        VersionedHostRegistrationSpecV1::decode(&bad_flags),
        Err(VersionedHostRegistrationSpecError::NonZeroFlags(1))
    );

    let mut bad_reserved = base;
    bad_reserved[44..48].copy_from_slice(&1_u32.to_le_bytes());
    assert_eq!(
        VersionedHostRegistrationSpecV1::decode(&bad_reserved),
        Err(VersionedHostRegistrationSpecError::NonZeroReserved(1))
    );

    let mut bad_length = base;
    bad_length[24..28].copy_from_slice(&3_u32.to_le_bytes());
    assert!(matches!(
        VersionedHostRegistrationSpecV1::decode(&bad_length),
        Err(VersionedHostRegistrationSpecError::InvalidSpec(_))
    ));

    assert_eq!(
        VersionedHostRegistrationSpecV1::decode(&base[..47]),
        Err(VersionedHostRegistrationSpecError::Truncated { actual: 47 })
    );
}

fn fixture_pair() -> HostRegistrationSpecPair {
    HostRegistrationSpecPair::new([
        HostRegistrationSpec::new(0x1000_1100, 2, 0, 1).unwrap(),
        HostRegistrationSpec::new(0x1000_0100, 2, 0, 0).unwrap(),
    ])
    .unwrap()
}

#[test]
fn pair_schema_round_trips_canonically() {
    let schema = VersionedHostRegistrationPairV1::from_pair(fixture_pair());
    let encoded = schema.encode();
    assert_eq!(encoded.len(), VERSIONED_HOST_REGISTRATION_PAIR_LEN);
    let decoded = VersionedHostRegistrationPairV1::decode(&encoded).unwrap();
    assert_eq!(decoded.encode(), encoded);
    assert_eq!(decoded.registration_versions(), [1, 1]);
    let materialized = decoded.materialize().unwrap();
    let specs = materialized.specs();
    assert_eq!(
        [specs[0].doorbell_address(), specs[1].doorbell_address()],
        [0x1000_0100, 0x1000_1100]
    );
    assert_eq!([specs[0].gsi(), specs[1].gsi()], [0, 1]);
    assert_eq!(materialized, fixture_pair());
}

#[test]
fn pair_envelope_fails_closed_on_header_and_nested_corruption() {
    let base = VersionedHostRegistrationPairV1::from_pair(fixture_pair()).encode();

    let mut bad_magic = base;
    bad_magic[0] ^= 0xff;
    assert_eq!(
        VersionedHostRegistrationPairV1::decode(&bad_magic),
        Err(VersionedHostRegistrationPairError::InvalidMagic)
    );

    let mut bad_version = base;
    bad_version[8..10].copy_from_slice(&2_u16.to_le_bytes());
    assert_eq!(
        VersionedHostRegistrationPairV1::decode(&bad_version),
        Err(VersionedHostRegistrationPairError::UnsupportedVersion(2))
    );

    let mut bad_header = base;
    bad_header[10..12].copy_from_slice(&0_u16.to_le_bytes());
    assert_eq!(
        VersionedHostRegistrationPairV1::decode(&bad_header),
        Err(VersionedHostRegistrationPairError::InvalidHeaderLength(0))
    );

    let mut bad_total = base;
    bad_total[12..16].copy_from_slice(&0_u32.to_le_bytes());
    assert_eq!(
        VersionedHostRegistrationPairV1::decode(&bad_total),
        Err(VersionedHostRegistrationPairError::InvalidTotalLength(0))
    );

    let mut bad_count = base;
    bad_count[16..18].copy_from_slice(&1_u16.to_le_bytes());
    assert_eq!(
        VersionedHostRegistrationPairV1::decode(&bad_count),
        Err(VersionedHostRegistrationPairError::InvalidRegistrationCount(1))
    );

    let mut bad_flags = base;
    bad_flags[18..20].copy_from_slice(&1_u16.to_le_bytes());
    assert_eq!(
        VersionedHostRegistrationPairV1::decode(&bad_flags),
        Err(VersionedHostRegistrationPairError::NonZeroFlags(1))
    );

    let mut bad_reserved = base;
    bad_reserved[20..24].copy_from_slice(&1_u32.to_le_bytes());
    assert_eq!(
        VersionedHostRegistrationPairV1::decode(&bad_reserved),
        Err(VersionedHostRegistrationPairError::NonZeroReserved(1))
    );

    let mut bad_first_len = base;
    bad_first_len[24..28].copy_from_slice(&0_u32.to_le_bytes());
    assert_eq!(
        VersionedHostRegistrationPairV1::decode(&bad_first_len),
        Err(VersionedHostRegistrationPairError::InvalidRegistrationLength { index: 0, length: 0 })
    );

    let mut bad_nested_version = base;
    bad_nested_version[40..42].copy_from_slice(&2_u16.to_le_bytes());
    assert!(matches!(
        VersionedHostRegistrationPairV1::decode(&bad_nested_version),
        Err(VersionedHostRegistrationPairError::Registration {
            index: 0,
            error: VersionedHostRegistrationSpecError::UnsupportedVersion(2),
        })
    ));

    assert_eq!(
        VersionedHostRegistrationPairV1::decode(&base[..base.len() - 1]),
        Err(VersionedHostRegistrationPairError::Truncated { actual: base.len() - 1 })
    );
}

#[test]
fn pair_decode_rejects_noncanonical_overlap_and_duplicate_gsi() {
    let base = VersionedHostRegistrationPairV1::from_pair(fixture_pair()).encode();
    let first_range = 32..32 + VERSIONED_HOST_REGISTRATION_SPEC_LEN;
    let second_range =
        32 + VERSIONED_HOST_REGISTRATION_SPEC_LEN..32 + 2 * VERSIONED_HOST_REGISTRATION_SPEC_LEN;
    let first_bytes = base[first_range.clone()].to_vec();
    let second_bytes = base[second_range.clone()].to_vec();

    let mut swapped = base;
    swapped[first_range.clone()].copy_from_slice(&second_bytes);
    swapped[second_range.clone()].copy_from_slice(&first_bytes);
    assert_eq!(
        VersionedHostRegistrationPairV1::decode(&swapped),
        Err(VersionedHostRegistrationPairError::NonCanonicalOrder)
    );

    let mut overlap = base;
    overlap[96..104].copy_from_slice(&0x1000_0101_u64.to_le_bytes());
    assert!(matches!(
        VersionedHostRegistrationPairV1::decode(&overlap),
        Err(VersionedHostRegistrationPairError::InvalidPair(_))
    ));

    let mut duplicate_gsi = base;
    duplicate_gsi[108..112].copy_from_slice(&0_u32.to_le_bytes());
    assert!(matches!(
        VersionedHostRegistrationPairV1::decode(&duplicate_gsi),
        Err(VersionedHostRegistrationPairError::InvalidPair(_))
    ));
}
