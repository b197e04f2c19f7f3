use crm_adapters::capability::{CapabilityRisk, DataClass, PayloadEncoding};
use crm_adapters::dq_model::MODULE_ID;
use crm_adapters::privacy_contract::{
    data_quality_privacy_scope_definition, validate_definition, PrivacyScopeError, CAPABILITY_ID,
    CAPABILITY_VERSION, DEFAULT_PAGE_SIZE, MAXIMUM_CURSOR_BYTES, MAXIMUM_PAGE_SIZE,
    MAX_PRIVACY_ASSOCIATION_RECORDS_REHYDRATED, MAX_PRIVACY_CANONICAL_PARTY_RESOLUTIONS,
    MAX_PRIVACY_COMPLETENESS_RESULTS_SCANNED, MAX_PRIVACY_DEFINITION_RECORDS_REHYDRATED,
    MAX_PRIVACY_EVALUATION_INPUTS_SCANNED, MAX_PRIVACY_EVALUATION_JOBS_SCANNED,
    MAX_PRIVACY_FINDINGS_SCANNED, MAX_PRIVACY_FINDING_OBSERVATIONS_SCANNED,
    MAX_PRIVACY_OWNER_RECORDS_SCANNED, MAX_PRIVACY_REMEDIATION_ATTEMPTS_SCANNED,
    MAX_PRIVACY_RULE_OUTCOMES_SCANNED, PRIVACY_OWNER_SCAN_BATCH_SIZE,
};
use crm_adapters::privacy_page::{select_page, resource_after_cursor, CursorState, ResourceFamily, VerifiedResource};
use crm_adapters::privacy_resolution::{CanonicalResolutionCache, CANONICAL_PARTY_MISMATCH_CODE, TOPOLOGY_GENERATION_STALE_CODE};

#[test]
fn definition_is_exact_contract_only_query_coordinate() {
    let definition = data_quality_privacy_scope_definition().unwrap();
    assert_eq!(definition.owner_module_id.as_str(), MODULE_ID);
    assert_eq!(definition.capability_id.as_str(), CAPABILITY_ID);
    assert_eq!(definition.capability_version.as_str(), CAPABILITY_VERSION);
    assert!(!definition.mutation);
    assert!(!definition.requires_idempotency);
    assert!(!definition.requires_approval);
    assert_eq!(definition.authorization_policy_id, CAPABILITY_ID);
}

#[test]
fn frozen_bounds_match_the_entry_packet() {
    assert_eq!(DEFAULT_PAGE_SIZE, 64);
    assert_eq!(MAXIMUM_PAGE_SIZE, 128);
    assert_eq!(MAXIMUM_CURSOR_BYTES, 2_048);
    assert_eq!(MAX_PRIVACY_EVALUATION_JOBS_SCANNED, 8_192);
    assert_eq!(MAX_PRIVACY_EVALUATION_INPUTS_SCANNED, 8_192);
    assert_eq!(MAX_PRIVACY_RULE_OUTCOMES_SCANNED, 32_768);
    assert_eq!(MAX_PRIVACY_FINDINGS_SCANNED, 16_384);
    assert_eq!(MAX_PRIVACY_FINDING_OBSERVATIONS_SCANNED, 32_768);
    assert_eq!(MAX_PRIVACY_COMPLETENESS_RESULTS_SCANNED, 8_192);
    assert_eq!(MAX_PRIVACY_REMEDIATION_ATTEMPTS_SCANNED, 8_192);
    assert_eq!(MAX_PRIVACY_DEFINITION_RECORDS_REHYDRATED, 8_192);
    assert_eq!(MAX_PRIVACY_ASSOCIATION_RECORDS_REHYDRATED, 65_536);
    assert_eq!(MAX_PRIVACY_CANONICAL_PARTY_RESOLUTIONS, 65_536);
    assert_eq!(MAX_PRIVACY_OWNER_RECORDS_SCANNED, 65_536);
    assert_eq!(PRIVACY_OWNER_SCAN_BATCH_SIZE, 512);
}

#[test]
fn seven_family_order_and_tokens_are_stable() {
    let families = [
        ResourceFamily::EvaluationJob,
        ResourceFamily::EvaluationInput,
        ResourceFamily::RuleOutcome,
        ResourceFamily::Finding,
        ResourceFamily::FindingObservation,
        ResourceFamily::CompletenessResult,
        ResourceFamily::RemediationAttempt,
    ];
    assert_eq!(
        families.map(ResourceFamily::token),
        [
            "job",
            "input",
            "outcome",
            "finding",
            "observation",
            "completeness",
            "remediation",
        ]
    );
    assert!(families.windows(2).all(|pair| pair[0] < pair[1]));
}

#[test]
fn definition_contracts_are_bounded_confidential_protobuf() {
    let definition = data_quality_privacy_scope_definition().unwrap();
    assert_eq!(definition.risk, CapabilityRisk::Medium);
    assert_eq!(definition.input_contract.schema_version, "1.0.0");
    assert_eq!(definition.input_contract.allowed_data_classes, vec![DataClass::Confidential]);
    assert_eq!(definition.input_contract.allowed_encodings, vec![PayloadEncoding::Protobuf]);
    assert_eq!(definition.input_contract.maximum_size_bytes, Some(16 * 1024));
    let output = definition.output_contract.as_ref().unwrap();
    assert_eq!(output.maximum_size_bytes, Some(256 * 1024));
    assert_eq!(validate_definition(&definition), Ok(()));
    let mut changed = data_quality_privacy_scope_definition().unwrap();
    changed.mutation = true;
    assert_eq!(validate_definition(&changed), Err(PrivacyScopeError::DefinitionMismatch));
    assert_eq!(
        PrivacyScopeError::DefinitionMismatch.code(),
        "DATA_QUALITY_PRIVACY_SCOPE_DEFINITION_MISMATCH"
    );
}

fn resource(family: ResourceFamily, id: &str) -> VerifiedResource {
    VerifiedResource { family, record_id: id.to_owned(), resource_version: 1 }
}

#[test]
fn families_map_to_their_record_types() {
    assert_eq!(ResourceFamily::EvaluationJob.resource_type(), "data_quality.party_evaluation_job");
    assert_eq!(ResourceFamily::RemediationAttempt.resource_type(), "data_quality.remediation_attempt");
    assert_eq!(ResourceFamily::RuleOutcome.rank(), 2);
}

#[test]
fn cursor_orders_by_family_then_record_id() {
    let cursor = CursorState { family: ResourceFamily::Finding, after_record_id: Some("f-2".to_owned()) };
    assert!(!resource_after_cursor(&resource(ResourceFamily::RuleOutcome, "z"), &cursor));
    assert!(!resource_after_cursor(&resource(ResourceFamily::Finding, "f-1"), &cursor));
    assert!(!resource_after_cursor(&resource(ResourceFamily::Finding, "f-2"), &cursor));
    assert!(resource_after_cursor(&resource(ResourceFamily::Finding, "f-3"), &cursor));
    assert!(resource_after_cursor(&resource(ResourceFamily::Finding, "f-20"), &cursor));
    assert!(resource_after_cursor(&resource(ResourceFamily::FindingObservation, "a"), &cursor));
    let open = CursorState { family: ResourceFamily::Finding, after_record_id: None };
    assert!(resource_after_cursor(&resource(ResourceFamily::Finding, "a"), &open));
}

#[test]
fn page_selection_keeps_page_size_and_anchors_the_next_cursor() {
    let ordered = vec![
        resource(ResourceFamily::EvaluationJob, "job-1"),
        resource(ResourceFamily::EvaluationJob, "job-2"),
        resource(ResourceFamily::Finding, "finding-1"),
        resource(ResourceFamily::RemediationAttempt, "attempt-1"),
    ];
    let start = CursorState { family: ResourceFamily::EvaluationJob, after_record_id: None };
    let first = select_page(&ordered, &start, 3).unwrap();
    assert_eq!(first.resources.len(), 3);
    let next = first.next.unwrap();
    assert_eq!(next.family, ResourceFamily::Finding);
    assert_eq!(next.after_record_id.as_deref(), Some("finding-1"));
    let second = select_page(&ordered, &next, 3).unwrap();
    assert_eq!(second.resources.len(), 1);
    assert_eq!(second.resources[0].record_id, "attempt-1");
    assert!(second.next.is_none());
    assert_eq!(select_page(&ordered, &start, 0).err(), Some(PrivacyScopeError::AssociationStateInvalid));
    let empty: Vec<VerifiedResource> = Vec::new();
    assert!(select_page(&empty, &start, 0).unwrap().resources.is_empty());
}

#[test]
fn each_page_continues_where_the_previous_one_stopped() {
    let ordered = vec![
        resource(ResourceFamily::EvaluationJob, "job-1"),
        resource(ResourceFamily::EvaluationInput, "input-1"),
        resource(ResourceFamily::RuleOutcome, "outcome-1"),
        resource(ResourceFamily::RuleOutcome, "outcome-2"),
        resource(ResourceFamily::CompletenessResult, "result-1"),
    ];
    let mut cursor = CursorState { family: ResourceFamily::EvaluationJob, after_record_id: None };
    let mut walked: Vec<String> = Vec::new();
    loop {
        let page = select_page(&ordered, &cursor, 2).unwrap();
        walked.extend(page.resources.iter().map(|r| r.record_id.clone()));
        match page.next {
            Some(next) => cursor = next,
            None => break,
        }
    }
    assert_eq!(walked, vec!["job-1", "input-1", "outcome-1", "outcome-2", "result-1"]);
}

#[test]
fn a_settled_verdict_is_answered_from_the_cache() {
    let mut cache = CanonicalResolutionCache::new();
    assert_eq!(cache.cached(&"party-a".to_owned()), None);
    assert_eq!(cache.settle("party-a".to_owned(), Ok(())), Ok(true));
    assert_eq!(cache.settle("party-b".to_owned(), Err(CANONICAL_PARTY_MISMATCH_CODE)), Ok(false));
    assert_eq!(
        cache.settle("party-c".to_owned(), Err(TOPOLOGY_GENERATION_STALE_CODE)),
        Err(PrivacyScopeError::TopologyGenerationStale)
    );
    assert_eq!(
        cache.settle("party-d".to_owned(), Err("SOMETHING_ELSE")),
        Err(PrivacyScopeError::CanonicalResolutionUnavailable)
    );
    assert_eq!(cache.cached(&"party-a".to_owned()), Some(true));
    assert_eq!(cache.cached(&"party-b".to_owned()), Some(false));
    assert_eq!(cache.cached(&"party-c".to_owned()), None);
    assert_eq!(cache.cached(&"party-d".to_owned()), None);
    assert_eq!(cache.settle("party-a".to_owned(), Err(CANONICAL_PARTY_MISMATCH_CODE)), Ok(false));
    assert_eq!(cache.cached(&"party-a".to_owned()), Some(false));
    assert_eq!(cache.charge_resolution(), Ok(()));
}
