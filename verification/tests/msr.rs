use mini_hypervisor::kvm::msr::value_set::{
    GuestMsrAccessPolicy, GuestMsrAccessPolicyEntry, GuestMsrValueSet, GuestMsrValueSetError, MsrAccessAuthority,
};
use mini_hypervisor::kvm::msr::{
    HostMsrFeatureIndexList, HostMsrFeatureValues, HostMsrIndexList, MsrFeatureStability, MsrFeatureValue, MsrIndex,
    MsrModelValueMismatch, MSR_IA32_UCODE_REV,
};

fn ucode_rev() -> MsrIndex {
    MsrIndex::new(MSR_IA32_UCODE_REV)
}

#[test]
fn unique_kernel_indices_preserve_reported_order() {
    let snapshot = HostMsrIndexList::from_validated_raw(&[0x10, 0x1b, 0xc000_0080]);
    assert_eq!(
        snapshot.indices(),
        &[MsrIndex::new(0x10), MsrIndex::new(0x1b), MsrIndex::new(0xc000_0080)]
    );
}

#[test]
fn duplicate_kernel_indices_keep_first_occurrence_order() {
    let snapshot = HostMsrIndexList::from_validated_raw(&[0x10, 0x1b, 0x10, 0xc000_0080, 0x1b]);
    assert_eq!(
        snapshot.indices(),
        &[MsrIndex::new(0x10), MsrIndex::new(0x1b), MsrIndex::new(0xc000_0080)]
    );
}

#[test]
fn feature_indices_reuse_typed_values_and_preserve_order() {
    let snapshot = HostMsrFeatureIndexList::from_validated_raw(&[0x3a, 0x10a, 0x3a, 0x48, 0x10a]);
    assert_eq!(
        snapshot.indices(),
        &[MsrIndex::new(0x3a), MsrIndex::new(0x10a), MsrIndex::new(0x48)]
    );
}

#[test]
fn empty_feature_index_list_is_valid() {
    let snapshot = HostMsrFeatureIndexList::from_validated_raw(&[]);
    assert!(snapshot.indices().is_empty());
}

#[test]
fn feature_values_preserve_index_order_data_and_stability() {
    let snapshot = HostMsrFeatureValues::from_values(vec![
        MsrFeatureValue::new(MsrIndex::new(0x3a), 0x1111_2222_3333_4444),
        MsrFeatureValue::new(ucode_rev(), 0xaaaa_bbbb_cccc_dddd),
    ]);
    assert_eq!(
        snapshot.values(),
        &[
            MsrFeatureValue::new(MsrIndex::new(0x3a), 0x1111_2222_3333_4444),
            MsrFeatureValue::new(ucode_rev(), 0xaaaa_bbbb_cccc_dddd),
        ]
    );
    assert_eq!(snapshot.values()[0].index(), MsrIndex::new(0x3a));
    assert_eq!(snapshot.values()[0].stability(), MsrFeatureStability::ModelImmutable);
    assert_eq!(snapshot.values()[1].value(), 0xaaaa_bbbb_cccc_dddd);
    assert_eq!(snapshot.values()[1].stability(), MsrFeatureStability::HostMutable);
}

#[test]
fn ucode_revision_index_matches_x86_architecture() {
    assert_eq!(ucode_rev().get(), 0x8b);
}

#[test]
fn only_ucode_revision_is_classified_host_mutable() {
    assert_eq!(MsrFeatureValue::new(ucode_rev(), 1).stability(), MsrFeatureStability::HostMutable);
    assert_eq!(
        MsrFeatureValue::new(MsrIndex::new(0x3a), 1).stability(),
        MsrFeatureStability::ModelImmutable
    );
    assert_eq!(
        MsrFeatureValue::new(MsrIndex::new(0x10a), 1).stability(),
        MsrFeatureStability::ModelImmutable
    );
}

#[test]
fn stability_partitions_preserve_order_and_exclude_the_other_class() {
    let immutable_a = MsrFeatureValue::new(MsrIndex::new(0x3a), 1);
    let mutable = MsrFeatureValue::new(ucode_rev(), 2);
    let immutable_b = MsrFeatureValue::new(MsrIndex::new(0x10a), 3);
    let snapshot = HostMsrFeatureValues::from_values(vec![immutable_a, mutable, immutable_b]);

    assert_eq!(snapshot.model_immutable_values(), vec![immutable_a, immutable_b]);
    assert_eq!(snapshot.host_mutable_values(), vec![mutable]);
}

#[test]
fn empty_feature_value_snapshot_has_empty_stability_partitions() {
    let snapshot = HostMsrFeatureValues::from_values(Vec::new());
    assert!(snapshot.values().is_empty());
    assert_eq!(snapshot.model_immutable_values().len(), 0);
    assert_eq!(snapshot.host_mutable_values().len(), 0);
}

#[test]
fn model_candidate_excludes_mutable_values_and_preserves_immutable_order() {
    let immutable_a = MsrFeatureValue::new(MsrIndex::new(0x3a), 0x1111);
    let mutable = MsrFeatureValue::new(ucode_rev(), 0x2222);
    let immutable_b = MsrFeatureValue::new(MsrIndex::new(0x10a), 0x3333);
    let observation = HostMsrFeatureValues::from_values(vec![immutable_a, mutable, immutable_b]);
    let candidate = observation.model_candidate();

    assert_eq!(candidate.values(), &[immutable_a, immutable_b]);
    assert!(candidate
        .values()
        .iter()
        .all(|value| value.stability() == MsrFeatureStability::ModelImmutable));
}

#[test]
fn model_candidate_keeps_complete_owned_source_provenance() {
    let observation = HostMsrFeatureValues::from_values(vec![
        MsrFeatureValue::new(MsrIndex::new(0x3a), 0x1111),
        MsrFeatureValue::new(ucode_rev(), 0x2222),
    ]);
    let candidate = observation.model_candidate();

    assert_eq!(candidate.source_observation(), &observation);
    assert_eq!(candidate.source_observation().host_mutable_values().len(), 1);
}

#[test]
fn all_mutable_observation_produces_empty_candidate_with_provenance() {
    let mutable = MsrFeatureValue::new(ucode_rev(), 0x2222);
    let observation = HostMsrFeatureValues::from_values(vec![mutable]);
    let candidate = observation.model_candidate();

    assert!(candidate.values().is_empty());
    assert_eq!(candidate.source_observation().values(), &[mutable]);
}

#[test]
fn empty_observation_produces_empty_candidate_and_provenance() {
    let observation = HostMsrFeatureValues::from_values(Vec::new());
    let candidate = observation.model_candidate();

    assert!(candidate.values().is_empty());
    assert!(candidate.source_observation().values().is_empty());
}

#[test]
fn identical_model_candidates_compare_as_exact_match() {
    let observation = HostMsrFeatureValues::from_values(vec![
        MsrFeatureValue::new(MsrIndex::new(0x3a), 1),
        MsrFeatureValue::new(MsrIndex::new(0x10a), 2),
    ]);
    let reference = observation.model_candidate();
    let observed = observation.model_candidate();
    let comparison = reference.compare(&observed);

    assert!(comparison.is_exact_match());
    assert!(comparison.missing_from_observed().is_empty());
    assert!(comparison.extra_in_observed().is_empty());
    assert!(comparison.value_mismatches().is_empty());
    assert_eq!(comparison.reference(), &reference);
    assert_eq!(comparison.observed(), &observed);
}

#[test]
fn model_comparison_is_order_insensitive_for_same_index_values() {
    let reference = HostMsrFeatureValues::from_values(vec![
        MsrFeatureValue::new(MsrIndex::new(0x3a), 1),
        MsrFeatureValue::new(MsrIndex::new(0x10a), 2),
    ])
    .model_candidate();
    let observed = HostMsrFeatureValues::from_values(vec![
        MsrFeatureValue::new(MsrIndex::new(0x10a), 2),
        MsrFeatureValue::new(MsrIndex::new(0x3a), 1),
    ])
    .model_candidate();

    assert!(reference.compare(&observed).is_exact_match());
}

#[test]
fn model_comparison_reports_reference_index_missing_from_observed() {
    let missing = MsrFeatureValue::new(MsrIndex::new(0x10a), 2);
    let reference =
        HostMsrFeatureValues::from_values(vec![MsrFeatureValue::new(MsrIndex::new(0x3a), 1), missing])
            .model_candidate();
    let observed = HostMsrFeatureValues::from_values(vec![MsrFeatureValue::new(MsrIndex::new(0x3a), 1)])
        .model_candidate();
    let comparison = reference.compare(&observed);

    assert!(!comparison.is_exact_match());
    assert_eq!(comparison.missing_from_observed(), &[missing]);
    assert!(comparison.extra_in_observed().is_empty());
    assert!(comparison.value_mismatches().is_empty());
}

#[test]
fn model_comparison_reports_observed_index_extra_to_reference() {
    let extra = MsrFeatureValue::new(MsrIndex::new(0x10a), 2);
    let reference = HostMsrFeatureValues::from_values(vec![MsrFeatureValue::new(MsrIndex::new(0x3a), 1)])
        .model_candidate();
    let observed =
        HostMsrFeatureValues::from_values(vec![MsrFeatureValue::new(MsrIndex::new(0x3a), 1), extra])
            .model_candidate();
    let comparison = reference.compare(&observed);

    assert!(!comparison.is_exact_match());
    assert!(comparison.missing_from_observed().is_empty());
    assert_eq!(comparison.extra_in_observed(), &[extra]);
    assert!(comparison.value_mismatches().is_empty());
}

#[test]
fn model_comparison_reports_same_index_value_mismatch() {
    let index = MsrIndex::new(0x3a);
    let reference = HostMsrFeatureValues::from_values(vec![MsrFeatureValue::new(index, 1)]).model_candidate();
    let observed = HostMsrFeatureValues::from_values(vec![MsrFeatureValue::new(index, 2)]).model_candidate();
    let comparison = reference.compare(&observed);

    assert_eq!(comparison.value_mismatches(), &[MsrModelValueMismatch::new(index, 1, 2)]);
    assert!(comparison.missing_from_observed().is_empty());
    assert!(comparison.extra_in_observed().is_empty());
}

#[test]
fn model_comparison_ignores_host_mutable_source_drift_but_keeps_provenance() {
    let immutable = MsrFeatureValue::new(MsrIndex::new(0x3a), 7);
    let reference_observation =
        HostMsrFeatureValues::from_values(vec![immutable, MsrFeatureValue::new(ucode_rev(), 0x1111)]);
    let observed_observation =
        HostMsrFeatureValues::from_values(vec![MsrFeatureValue::new(ucode_rev(), 0x2222), immutable]);
    let reference = reference_observation.model_candidate();
    let observed = observed_observation.model_candidate();
    let comparison = reference.compare(&observed);

    assert!(comparison.is_exact_match());
    assert_eq!(comparison.reference().source_observation(), &reference_observation);
    assert_eq!(comparison.observed().source_observation(), &observed_observation);
    assert_ne!(
        comparison.reference().source_observation(),
        comparison.observed().source_observation()
    );
}

#[test]
fn model_comparison_reports_mixed_differences_in_source_order() {
    let shared = MsrFeatureValue::new(MsrIndex::new(0x3a), 1);
    let missing = MsrFeatureValue::new(MsrIndex::new(0x48), 2);
    let mismatch_reference = MsrFeatureValue::new(MsrIndex::new(0x10a), 3);
    let mismatch_observed = MsrFeatureValue::new(MsrIndex::new(0x10a), 4);
    let extra = MsrFeatureValue::new(MsrIndex::new(0x122), 5);
    let reference =
        HostMsrFeatureValues::from_values(vec![shared, missing, mismatch_reference]).model_candidate();
    let observed = HostMsrFeatureValues::from_values(vec![mismatch_observed, shared, extra]).model_candidate();
    let comparison = reference.compare(&observed);

    assert_eq!(comparison.missing_from_observed(), &[missing]);
    assert_eq!(comparison.extra_in_observed(), &[extra]);
    assert_eq!(
        comparison.value_mismatches(),
        &[MsrModelValueMismatch::new(MsrIndex::new(0x10a), 3, 4)]
    );
}

#[test]
fn empty_model_candidates_compare_as_exact_match() {
    let reference = HostMsrFeatureValues::from_values(Vec::new()).model_candidate();
    let observed = HostMsrFeatureValues::from_values(Vec::new()).model_candidate();

    assert!(reference.compare(&observed).is_exact_match());
}

#[test]
fn msr_index_round_trips_raw_value() {
    let index = MsrIndex::new(0xdead_beef);
    assert_eq!(index.get(), 0xdead_beef);
}

fn policy() -> GuestMsrAccessPolicy {
    GuestMsrAccessPolicy::new(vec![
        GuestMsrAccessPolicyEntry::new(MsrIndex::new(0x10), MsrAccessAuthority::ReadWrite),
        GuestMsrAccessPolicyEntry::new(MsrIndex::new(0x1b), MsrAccessAuthority::ReadOnly),
        GuestMsrAccessPolicyEntry::new(MsrIndex::new(0xc000_0080), MsrAccessAuthority::ReadWrite),
    ])
}

#[test]
fn value_set_keeps_authorized_requests_in_order() {
    let set = GuestMsrValueSet::from_policy(
        &policy(),
        &[(MsrIndex::new(0xc000_0080), 0x500), (MsrIndex::new(0x10), 7)],
    )
    .unwrap();
    assert_eq!(set.values().len(), 2);
    assert_eq!(set.values()[0].index(), MsrIndex::new(0xc000_0080));
    assert_eq!(set.values()[0].value(), 0x500);
    assert_eq!(set.values()[1].index(), MsrIndex::new(0x10));
    assert_eq!(set.values()[1].value(), 7);
}

#[test]
fn value_set_refuses_read_only_and_unknown_registers() {
    assert_eq!(
        GuestMsrValueSet::from_policy(&policy(), &[(MsrIndex::new(0x10), 1), (MsrIndex::new(0x1b), 2)]),
        Err(GuestMsrValueSetError::UnauthorizedIndex { index: MsrIndex::new(0x1b), position: 1 })
    );
    assert_eq!(
        GuestMsrValueSet::from_policy(&policy(), &[(MsrIndex::new(0x99), 2)]),
        Err(GuestMsrValueSetError::UnauthorizedIndex { index: MsrIndex::new(0x99), position: 0 })
    );
}

#[test]
fn value_set_reports_first_and_duplicate_positions() {
    assert_eq!(
        GuestMsrValueSet::from_policy(
            &policy(),
            &[(MsrIndex::new(0x10), 1), (MsrIndex::new(0xc000_0080), 2), (MsrIndex::new(0x10), 3)],
        ),
        Err(GuestMsrValueSetError::DuplicateIndex {
            index: MsrIndex::new(0x10),
            first_position: 0,
            duplicate_position: 2,
        })
    );
    assert!(GuestMsrValueSet::from_policy(&policy(), &[]).unwrap().values().is_empty());
}
