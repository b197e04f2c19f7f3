use crm_adapters::capability::{CapabilityRisk, DataClass, CONTRACT_VERSION};
use crm_adapters::ir_candidate::{
    candidate_evidence_scope, check_party_version, check_scope_shape, composition_checks, party_link_mutations, evidence_reference_scope, evidence_score, signal_contribution,
    validate_current_candidate_evidence, validate_evidence_scope, CandidateAction, CandidateCaseRecord,
    CandidateCommand, CandidateEvidenceVersions, CandidateTarget, EvidencePair, EvidenceReferenceScope,
    IdentityResolutionCapabilityPlanner, PartyVersionExpectation, RequestCoordinates,
    PARTY_CANDIDATE_RELATIONSHIP_TYPE, PARTY_CANDIDATE_SOURCE_RECORD_TYPE, PARTY_LINK_DESCRIPTOR_HASH,
    PARTY_LINK_MAXIMUM_BYTES, PARTY_LINK_SCHEMA_ID, PARTY_LINK_SCHEMA_VERSION,
};
use crm_adapters::ir_capability::{
    capability_definition, capability_definitions, select_definitions, IdentityResolutionError,
    CANDIDATE_MUTATION_CAPABILITY_IDS, CONFIRM_CAPABILITY, DISMISS_CAPABILITY,
    MERGE_CAPABILITY, MERGE_MUTATION_CAPABILITY_IDS, MODULE_ID, REFRESH_CAPABILITY, REGISTER_CAPABILITY,
    UNMERGE_CAPABILITY, REGISTERED_EVENT_TYPE, DISMISSED_EVENT_TYPE,
};
use crm_adapters::ir_merge::{
    merge_reference_scope, source_value_digest, validate_unmerge_transition, MergeAction, MergeCommand,
    MergeLineageCapabilityPlanner, MergeLineageFacts, MergeLineageStatus, MergeOperationRecord, MergePartyKind,
    MergePartyReference, SurvivorshipSource,
};

#[test]
fn publishes_candidate_and_merge_mutation_coordinates_with_exact_governance() {
    let definitions = capability_definitions().unwrap();
    assert_eq!(definitions.len(), 6);
    assert_eq!(definitions[0].capability_id.as_str(), REGISTER_CAPABILITY);
    assert_eq!(definitions[1].capability_id.as_str(), REFRESH_CAPABILITY);
    assert_eq!(definitions[2].capability_id.as_str(), DISMISS_CAPABILITY);
    assert_eq!(definitions[3].capability_id.as_str(), CONFIRM_CAPABILITY);
    assert_eq!(definitions[4].capability_id.as_str(), MERGE_CAPABILITY);
    assert_eq!(definitions[5].capability_id.as_str(), UNMERGE_CAPABILITY);
    for definition in definitions {
        assert_eq!(definition.owner_module_id.as_str(), MODULE_ID);
        assert_eq!(definition.capability_version.as_str(), CONTRACT_VERSION);
        assert_eq!(definition.input_contract.allowed_data_classes, vec![DataClass::Personal]);
        assert!(definition.mutation);
        assert!(definition.requires_idempotency);
        assert_eq!(
            definition.requires_approval,
            MERGE_MUTATION_CAPABILITY_IDS.contains(&definition.capability_id.as_str())
        );
    }
}

#[test]
fn rejects_unknown_identity_resolution_mutation_coordinate() {
    let error = capability_definition("identity_resolution.merge.destroy").unwrap_err();
    assert_eq!(error.code(), "IDENTITY_RESOLUTION_CAPABILITY_UNSUPPORTED");
}

#[test]
fn candidate_risks_are_medium_for_evidence_and_high_for_decisions() {
    assert_eq!(capability_definition(REGISTER_CAPABILITY).unwrap().risk, CapabilityRisk::Medium);
    assert_eq!(capability_definition(CONFIRM_CAPABILITY).unwrap().risk, CapabilityRisk::High);
    assert_eq!(capability_definition(UNMERGE_CAPABILITY).unwrap().risk, CapabilityRisk::High);
}

fn expectation(party: &str, version: i64) -> PartyVersionExpectation {
    PartyVersionExpectation { party_ref: party.to_owned(), expected_version: version }
}

fn live_versions(scope: &EvidenceReferenceScope) -> Vec<Option<i64>> {
    scope
        .parties
        .iter()
        .map(|p| match p.party_ref.as_str() {
            "party-a" => Some(3),
            "party-b" => Some(7),
            _ => None,
        })
        .collect()
}

#[test]
fn exact_same_tenant_party_versions_are_required() {
    let scope = EvidenceReferenceScope { parties: vec![expectation("party-a", 3), expectation("party-b", 7)] };
    let actual = live_versions(&scope);
    assert_eq!(actual.len(), 2);
    validate_evidence_scope(&scope, &actual).unwrap();
}

#[test]
fn missing_party_fails_closed_and_version_drift_is_a_conflict() {
    let missing = EvidenceReferenceScope { parties: vec![expectation("party-a", 3), expectation("party-missing", 1)] };
    assert_eq!(
        validate_evidence_scope(&missing, &live_versions(&missing)).unwrap_err().code(),
        "IDENTITY_RESOLUTION_REFERENCE_UNAVAILABLE"
    );
    let stale = EvidenceReferenceScope { parties: vec![expectation("party-a", 2), expectation("party-b", 7)] };
    assert_eq!(
        validate_evidence_scope(&stale, &live_versions(&stale)).unwrap_err().code(),
        "IDENTITY_RESOLUTION_EVIDENCE_STALE"
    );
    let same = EvidenceReferenceScope { parties: vec![expectation("party-a", 3), expectation("party-a", 3)] };
    assert_eq!(
        validate_evidence_scope(&same, &live_versions(&same)),
        Err(IdentityResolutionError::ReferenceUnavailable)
    );
}

#[test]
fn terminal_decision_rechecks_current_candidate_evidence_versions() {
    let candidate = CandidateEvidenceVersions {
        case_id: "case-1".to_owned(),
        parties: vec![expectation("party-a", 3), expectation("party-b", 7)],
    };
    validate_current_candidate_evidence("case-1", Some(&candidate), &vec![Some(3), Some(7)]).unwrap();
    assert_eq!(
        validate_current_candidate_evidence("case-1", Some(&candidate), &vec![Some(4), Some(7)]).unwrap_err().code(),
        "IDENTITY_RESOLUTION_EVIDENCE_STALE"
    );
    assert_eq!(
        validate_current_candidate_evidence("case-2", Some(&candidate), &vec![Some(3), Some(7)]),
        Err(IdentityResolutionError::ReferenceUnavailable)
    );
    assert_eq!(validate_current_candidate_evidence("case-1", None, &vec![]), Err(IdentityResolutionError::ReferenceUnavailable));
}

fn request(capability: &str) -> RequestCoordinates {
    RequestCoordinates {
        module_id: MODULE_ID.to_owned(),
        capability_id: capability.to_owned(),
        capability_version: CONTRACT_VERSION.to_owned(),
    }
}

fn pair() -> EvidencePair {
    EvidencePair {
        left_party_id: "party-a".to_owned(),
        left_party_version: 3,
        right_party_id: "party-b".to_owned(),
        right_party_version: 7,
    }
}

#[test]
fn registration_links_both_parties_to_the_new_case() {
    let planner = IdentityResolutionCapabilityPlanner;
    let definition = capability_definition(REGISTER_CAPABILITY).unwrap();
    let command = CandidateCommand { case_id: None, evidence: Some(pair()) };
    assert_eq!(planner.target(&definition, &request(REGISTER_CAPABILITY), &command), Ok(CandidateTarget::NewForPair));
    let plan = planner.plan(&definition, &request(REGISTER_CAPABILITY), None, &command).unwrap();
    assert_eq!(plan.action, CandidateAction::Register);
    assert_eq!(plan.event_type, REGISTERED_EVENT_TYPE);
    assert_eq!(plan.expected_version, None);
    assert_eq!(plan.party_links, vec!["party-a", "party-b"]);
}

#[test]
fn decisions_require_the_very_case_stored_at_its_identity() {
    let planner = IdentityResolutionCapabilityPlanner;
    let definition = capability_definition(DISMISS_CAPABILITY).unwrap();
    let command = CandidateCommand { case_id: Some("case-1".to_owned()), evidence: None };
    let case = CandidateCaseRecord {
        record_id: "case-1".to_owned(),
        version: 4,
        decoded_case_id: "case-1".to_owned(),
        decoded_version: 4,
    };
    let plan = planner.plan(&definition, &request(DISMISS_CAPABILITY), Some(&case), &command).unwrap();
    assert_eq!(plan.event_type, DISMISSED_EVENT_TYPE);
    assert_eq!(plan.expected_version, Some(4));
    assert!(plan.party_links.is_empty());
    let drifted = CandidateCaseRecord { decoded_version: 3, ..case };
    assert_eq!(
        planner.plan(&definition, &request(DISMISS_CAPABILITY), Some(&drifted), &command).map(|p| p.action),
        Err(IdentityResolutionError::PersistedCaseIdentityInvalid)
    );
    let merge = capability_definition(MERGE_CAPABILITY).unwrap();
    assert_eq!(
        planner.plan(&merge, &request(MERGE_CAPABILITY), None, &command).map(|p| p.action),
        Err(IdentityResolutionError::CapabilityUnsupported)
    );
    assert_eq!(
        planner.plan(&definition, &request(CONFIRM_CAPABILITY), None, &command).map(|p| p.action),
        Err(IdentityResolutionError::MutationPlanInvalid)
    );
}

#[test]
fn evidence_scope_and_numeric_ranges_are_strict() {
    let scope = evidence_reference_scope(REFRESH_CAPABILITY, &Some(pair())).unwrap().unwrap();
    assert_eq!(scope.parties.len(), 2);
    assert_eq!(scope.parties[1].party_ref, "party-b");
    assert_eq!(scope.parties[1].expected_version, 7);
    assert!(evidence_reference_scope(CONFIRM_CAPABILITY, &None).unwrap().is_none());
    assert_eq!(evidence_reference_scope(REGISTER_CAPABILITY, &None).map(|s| s.is_some()), Err(IdentityResolutionError::MissingReference));
    assert_eq!(evidence_score(10_000), Ok(10_000));
    assert_eq!(evidence_score(70_000), Err(IdentityResolutionError::ValueOutOfRange));
    assert_eq!(signal_contribution(-40_000), Err(IdentityResolutionError::ValueOutOfRange));
    assert_eq!(signal_contribution(-500), Ok(-500));
    let checks = composition_checks(CONFIRM_CAPABILITY).unwrap();
    assert!(checks.current_case_evidence && !checks.evidence_scope);
    assert_eq!(
        composition_checks("identity_resolution.merge.destroy").map(|c| c.evidence_scope),
        Err(IdentityResolutionError::CompositionCapabilityUnsupported)
    );
}

#[test]
fn unmerge_must_name_the_loaded_operation() {
    let planner = MergeLineageCapabilityPlanner;
    let unmerge = capability_definition(UNMERGE_CAPABILITY).unwrap();
    let operation = MergeOperationRecord { record_id: "merge-1".to_owned(), version: 2 };
    let command = MergeCommand { merge_operation_id: Some("merge-1".to_owned()) };
    let plan = planner.plan(&unmerge, &request(UNMERGE_CAPABILITY), Some(&operation), &command).unwrap();
    assert_eq!(plan.action, MergeAction::Unmerge);
    assert_eq!(plan.expected_version, Some(2));
    let other = MergeCommand { merge_operation_id: Some("merge-2".to_owned()) };
    assert_eq!(
        planner.plan(&unmerge, &request(UNMERGE_CAPABILITY), Some(&operation), &other).map(|p| p.action),
        Err(IdentityResolutionError::MergeOperationMismatch)
    );
    let merge = capability_definition(MERGE_CAPABILITY).unwrap();
    assert_eq!(
        planner.plan(&merge, &request(MERGE_CAPABILITY), Some(&operation), &command).map(|p| p.action),
        Err(IdentityResolutionError::MergePlanInvalid)
    );
    assert_eq!(planner.target(&merge, &request(MERGE_CAPABILITY), &command), Ok(("merge-1".to_owned(), false)));
}

#[test]
fn merge_scope_requires_named_parties_at_positive_versions() {
    let party = |id: Option<&str>, version: i64| MergePartyReference { party_ref: id.map(str::to_owned), version };
    let scope = merge_reference_scope(&party(Some("party-a"), 1), &party(Some("party-b"), 2), &vec![party(Some("party-a"), 1)])
        .unwrap();
    assert_eq!(scope.survivor.party_ref, "party-b");
    assert_eq!(scope.provenance.len(), 1);
    assert_eq!(
        merge_reference_scope(&party(None, 0), &party(Some("party-b"), 2), &vec![]).map(|s| s.provenance.len()),
        Err(IdentityResolutionError::ValueOutOfRange)
    );
    assert_eq!(
        merge_reference_scope(&party(Some("a"), 1), &party(None, 2), &vec![]).map(|s| s.provenance.len()),
        Err(IdentityResolutionError::MissingReference)
    );
}

#[test]
fn survivorship_digest_must_be_exactly_thirty_two_bytes() {
    let digest: Vec<u8> = (0u8..32).collect();
    assert_eq!(source_value_digest(&digest).unwrap().to_vec(), digest);
    assert_eq!(source_value_digest(&vec![0; 31]), Err(IdentityResolutionError::ValueOutOfRange));
    assert_eq!(source_value_digest(&vec![0; 33]), Err(IdentityResolutionError::ValueOutOfRange));
}

#[test]
fn contribution_selects_candidate_and_merge_definitions_in_catalog_order() {
    let candidate = select_definitions(capability_definitions().unwrap(), &CANDIDATE_MUTATION_CAPABILITY_IDS);
    let ids: Vec<&str> = candidate.iter().map(|d| d.capability_id.as_str()).collect();
    assert_eq!(ids, vec![REGISTER_CAPABILITY, REFRESH_CAPABILITY, DISMISS_CAPABILITY, CONFIRM_CAPABILITY]);
    let merge = select_definitions(capability_definitions().unwrap(), &MERGE_MUTATION_CAPABILITY_IDS);
    let ids: Vec<&str> = merge.iter().map(|d| d.capability_id.as_str()).collect();
    assert_eq!(ids, vec![MERGE_CAPABILITY, UNMERGE_CAPABILITY]);
    assert!(select_definitions(capability_definitions().unwrap(), &[]).is_empty());
}

fn lineage() -> MergeLineageFacts {
    MergeLineageFacts {
        merge_id: "merge-1".to_owned(),
        status: MergeLineageStatus::Active,
        version: 1,
        candidate_case_id: "case-1".to_owned(),
        candidate_case_version: 2,
        pair: ("party-a".to_owned(), "party-b".to_owned()),
        survivor_party_id: "party-a".to_owned(),
        absorbed_party_id: "party-b".to_owned(),
        party_kind: MergePartyKind::Person,
        survivor_pre_merge_version: 3,
        absorbed_pre_merge_version: 4,
        survivor_post_merge_version: 4,
        absorbed_post_merge_version: 5,
        display_name_source: SurvivorshipSource::Absorbed,
        survivor_display_name: "Alpha".to_owned(),
        absorbed_display_name: "Beta".to_owned(),
        merge_actor_id: "steward-1".to_owned(),
        merged_at_unix_nanos: 100,
    }
}

#[test]
fn invalid_unmerge_transition_is_rejected() {
    let current = lineage();
    let resulting = lineage();
    assert_eq!(
        validate_unmerge_transition(&current, &resulting).unwrap_err().code(),
        "IDENTITY_RESOLUTION_MERGE_UNMERGE_TRANSITION_INVALID"
    );
}

fn unmerged() -> MergeLineageFacts {
    let mut resulting = lineage();
    resulting.status = MergeLineageStatus::Unmerged;
    resulting.version = 2;
    resulting
}

#[test]
fn the_unmerge_of_an_active_lineage_keeps_every_merge_fact() {
    let current = lineage();
    let resulting = unmerged();
    assert_eq!(validate_unmerge_transition(&current, &resulting), Ok(()));
    let mut renamed = unmerged();
    renamed.absorbed_display_name = "Gamma".to_owned();
    assert_eq!(
        validate_unmerge_transition(&current, &renamed),
        Err(IdentityResolutionError::UnmergeTransitionInvalid)
    );
    let mut skipped = unmerged();
    skipped.version = 3;
    assert!(validate_unmerge_transition(&current, &skipped).is_err());
    assert!(validate_unmerge_transition(&resulting, &resulting).is_err());
}

#[test]
fn identity_resolution_refusals_are_never_retryable() {
    for error in [
        IdentityResolutionError::UnmergeTransitionInvalid,
        IdentityResolutionError::CapabilityUnsupported,
        IdentityResolutionError::MissingReference,
    ] {
        assert!(!error.retryable());
    }
}

#[test]
fn a_scope_is_checked_one_party_read_at_a_time() {
    let single = EvidenceReferenceScope { parties: vec![expectation("party-a", 3)] };
    assert_eq!(check_scope_shape(&single), Err(IdentityResolutionError::ReferenceUnavailable));
    let scope = EvidenceReferenceScope { parties: vec![expectation("party-a", 2), expectation("party-b", 7)] };
    assert_eq!(check_scope_shape(&scope), Ok(()));
    assert_eq!(check_party_version(&scope.parties[0], Some(3)), Err(IdentityResolutionError::EvidenceStale));
    assert_eq!(check_party_version(&scope.parties[1], None), Err(IdentityResolutionError::ReferenceUnavailable));
    assert_eq!(check_party_version(&scope.parties[1], Some(7)), Ok(()));
}

#[test]
fn authoritative_party_access_path_coordinates_are_stable() {
    assert_eq!(PARTY_CANDIDATE_RELATIONSHIP_TYPE, "identity_resolution.candidate.party");
    assert_eq!(PARTY_CANDIDATE_SOURCE_RECORD_TYPE, "parties.party");
}

#[test]
fn party_link_contract_is_personal_json_and_stably_hashed() {
    let links = party_link_mutations(&vec!["party-a".to_owned()], "identity_resolution.candidate_case", "case-1");
    let link = &links[0];
    assert_eq!(link.payload_schema_id, PARTY_LINK_SCHEMA_ID);
    assert_eq!(link.payload_schema_id, "crm.identity_resolution.candidate.party-link");
    assert_eq!(link.payload_schema_version, PARTY_LINK_SCHEMA_VERSION);
    assert_eq!(link.payload_maximum_bytes, PARTY_LINK_MAXIMUM_BYTES);
    assert_eq!(link.payload_data_class, DataClass::Personal);
    assert_eq!(link.payload_bytes, b"{}");
    assert_eq!(link.payload_descriptor_hash, PARTY_LINK_DESCRIPTOR_HASH);
    assert_eq!(PARTY_LINK_DESCRIPTOR_HASH[0], 37);
    assert_eq!(PARTY_LINK_DESCRIPTOR_HASH[31], 111);
}

#[test]
fn a_registration_links_both_parties_to_its_case_in_order() {
    let links = party_link_mutations(
        &vec!["party-left".to_owned(), "party-right".to_owned()],
        "identity_resolution.candidate_case",
        "case-7",
    );
    assert_eq!(links.len(), 2);
    for (link, party) in links.iter().zip(["party-left", "party-right"]) {
        assert_eq!(link.relationship_type, PARTY_CANDIDATE_RELATIONSHIP_TYPE);
        assert_eq!(link.source_record_type, PARTY_CANDIDATE_SOURCE_RECORD_TYPE);
        assert_eq!(link.source_record_id, party);
        assert_eq!(link.target_record_type, "identity_resolution.candidate_case");
        assert_eq!(link.target_record_id, "case-7");
    }
    assert!(party_link_mutations(&Vec::new(), "identity_resolution.candidate_case", "case-7").is_empty());
}

#[test]
fn the_rechecked_scope_is_the_stored_evidence_of_the_named_case() {
    let stored = CandidateEvidenceVersions {
        case_id: "case-1".to_owned(),
        parties: vec![expectation("party-a", 3), expectation("party-b", 7)],
    };
    let scope = candidate_evidence_scope("case-1", Some(&stored)).unwrap();
    assert_eq!(scope.parties[0].party_ref, "party-a");
    assert_eq!(scope.parties[1].expected_version, 7);
    assert_eq!(
        candidate_evidence_scope("case-2", Some(&stored)).err(),
        Some(IdentityResolutionError::ReferenceUnavailable)
    );
    assert_eq!(candidate_evidence_scope("case-1", None).err(), Some(IdentityResolutionError::ReferenceUnavailable));
    let single = CandidateEvidenceVersions { case_id: "case-1".to_owned(), parties: vec![expectation("party-a", 3)] };
    assert_eq!(candidate_evidence_scope("case-1", Some(&single)).err(), Some(IdentityResolutionError::ReferenceUnavailable));
}
