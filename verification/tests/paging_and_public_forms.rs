use crm_adapters::capability::DataClass;
use crm_adapters::cp_case::SubjectVerificationMethod;
use crm_adapters::cp_query::{case_matches_filters, hold_matches_filters, QueryRefusal};
use crm_adapters::cp_wire::{
    legal_hold_to_public, privacy_case_to_public, processing_restriction_to_public, redact_legal_hold,
    redact_privacy_case, redact_restriction, ApprovalFacts, LegalHoldFacts, LegalHoldScope, PrivacyCaseFacts,
    PrivacyCaseKind, PrivacyCaseStatus, PublicLegalHoldScope, RestrictionFacts, RestrictionScope, RestrictionStatus,
    ResumeStage, SubjectBindingFacts,
};
use crm_adapters::dq_model::{FindingStatus, QualitySeverity};
use crm_adapters::dq_query::cursor_signing_key;
use crm_adapters::dq_wire::{
    completeness_result_to_public_with_visibility, evaluation_job_to_public_with_visibility, finding_to_public,
    finding_to_public_with_visibility, observation_to_public_with_visibility, CompletenessComponent,
    StoredCompletenessResult, StoredEvaluationJob, StoredFinding, StoredObservation,
};
use crm_adapters::page_collect::{CollectStep, PageCollector, ScanLimitReached};
use crm_adapters::privacy_associations::EvaluationJobStatus;
use crm_adapters::privacy_contract::PrivacyScopeError;
use crm_adapters::privacy_records::{RecordScan, StoredRecordRow};

fn names(list: &[&str]) -> Vec<String> {
    list.iter().map(|n| n.to_string()).collect()
}

#[test]
fn a_page_fills_then_probes_for_one_more_visible_record() {
    let (mut collector, step) = PageCollector::begin(3, false, 100, 4_096);
    assert_eq!(step, CollectStep::Fetch(3));
    assert_eq!(collector.inspect(3), Ok(()));
    assert_eq!(collector.fill_page(1, true), CollectStep::Fetch(2));
    assert_eq!(collector.remaining(), 2);
    assert_eq!(collector.inspect(2), Ok(()));
    assert_eq!(collector.fill_page(2, true), CollectStep::Fetch(100));
    assert!(collector.is_probing());
    assert_eq!(collector.remaining(), 0);
    assert_eq!(collector.inspect(100), Ok(()));
    assert_eq!(collector.probe_page(false, true), CollectStep::Fetch(100));
    assert_eq!(collector.inspect(40), Ok(()));
    assert_eq!(collector.probe_page(true, true), CollectStep::Finish { keep_anchor: true });
}

#[test]
fn a_page_ends_with_the_store_and_a_probe_can_find_nothing() {
    let (mut collector, _) = PageCollector::begin(5, true, 200, 10_000);
    assert_eq!(collector.fill_page(1, false), CollectStep::Finish { keep_anchor: false });
    assert!(!collector.is_probing());
    let (mut full, _) = PageCollector::begin(1, false, 200, 10_000);
    assert_eq!(full.fill_page(1, true), CollectStep::Fetch(200));
    assert_eq!(full.probe_page(false, false), CollectStep::Finish { keep_anchor: false });
    let (empty, empty_with_cursor) = PageCollector::begin(0, true, 200, 10_000);
    assert_eq!(empty_with_cursor, CollectStep::Fetch(200));
    assert!(empty.is_probing());
    let (_, empty_without_cursor) = PageCollector::begin(0, false, 200, 10_000);
    assert_eq!(empty_without_cursor, CollectStep::Finish { keep_anchor: false });
}

#[test]
fn passing_the_inspection_bound_refuses_the_list() {
    let (mut collector, _) = PageCollector::begin(2, false, 100, 10);
    assert_eq!(collector.inspect(10), Ok(()));
    assert_eq!(collector.inspect(1), Err(ScanLimitReached));
    let (mut saturated, _) = PageCollector::begin(2, false, 100, usize::MAX);
    assert_eq!(saturated.inspect(usize::MAX), Ok(()));
    assert_eq!(saturated.inspect(1), Ok(()));
}

#[test]
fn case_and_hold_list_filters_bind_party_kind_and_status() {
    let party = "party-a".to_owned();
    let other = "party-b".to_owned();
    assert!(case_matches_filters(Some(&party), 4, 3, &party, None, None));
    assert!(case_matches_filters(Some(&party), 4, 3, &party, Some(4), Some(3)));
    assert!(!case_matches_filters(Some(&other), 4, 3, &party, None, None));
    assert!(!case_matches_filters(None, 4, 3, &party, None, None));
    assert!(!case_matches_filters(Some(&party), 4, 3, &party, Some(1), None));
    assert!(!case_matches_filters(Some(&party), 4, 3, &party, None, Some(2)));
    assert!(hold_matches_filters(&party, true, &party, Some(1)));
    assert!(hold_matches_filters(&party, false, &party, Some(2)));
    assert!(!hold_matches_filters(&party, false, &party, Some(1)));
    assert!(!hold_matches_filters(&other, true, &party, None));
}

fn row(id: &str) -> StoredRecordRow {
    StoredRecordRow {
        record_id: id.to_owned(),
        version: 1,
        owner_module_id: "data_quality".to_owned(),
        schema_id: "schema".to_owned(),
        schema_version: "1".to_owned(),
        descriptor_hash: vec![1, 2],
        data_class: "personal".to_owned(),
        payload_encoding: "json".to_owned(),
        maximum_payload_size: 16,
        retention_policy_id: "retention".to_owned(),
        payload_bytes: vec![],
    }
}

#[test]
fn record_scan_reads_batches_after_the_last_identity() {
    let mut scan = RecordScan::new(600);
    assert_eq!(scan.after_record_id(), "");
    let full: Vec<StoredRecordRow> = (0..512).map(|i| row(&format!("r-{i:04}"))).collect();
    assert_eq!(scan.record_batch(full), Ok(true));
    assert_eq!(scan.after_record_id(), "r-0511");
    assert_eq!(scan.record_batch(vec![row("s-1"), row("s-2")]), Ok(false));
    assert_eq!(scan.after_record_id(), "s-2");
    assert_eq!(scan.record_batch(Vec::new()), Ok(false));
    let rows = scan.into_rows();
    assert_eq!(rows.len(), 514);
    assert_eq!(rows[513].record_id, "s-2");
}

#[test]
fn record_scan_refuses_more_rows_than_its_bound() {
    let mut scan = RecordScan::new(2);
    assert_eq!(scan.record_batch(vec![row("a"), row("b")]), Ok(false));
    assert_eq!(scan.record_batch(vec![row("c")]), Err(PrivacyScopeError::ScanLimitExceeded));
    assert_eq!(scan.into_rows().len(), 2);
}

#[test]
fn cursor_key_takes_a_long_secret_prefix_or_the_development_key() {
    let secret = "0123456789abcdef0123456789abcdefXYZ";
    let key = cursor_signing_key(Some(secret));
    assert_eq!(&key[..], &secret.as_bytes()[..32]);
    assert_eq!(cursor_signing_key(Some("short")), [0x44; 32]);
    assert_eq!(cursor_signing_key(None), [0x44; 32]);
}

fn case_facts() -> PrivacyCaseFacts {
    PrivacyCaseFacts {
        case_id: "privacy-case-1".to_owned(),
        kind: PrivacyCaseKind::Erasure,
        status: PrivacyCaseStatus::SubjectVerified,
        version: 3,
        policy_version: "privacy-policy/1".to_owned(),
        created_at_unix_nanos: 1_000_000,
        last_transition_at_unix_nanos: 2_500_000,
        previous_case_id: None,
        subject_binding: Some(SubjectBindingFacts {
            submitted_party_id: "party-a".to_owned(),
            canonical_party_id: "party-c".to_owned(),
            identity_resolution_generation: 7,
            verification_method: SubjectVerificationMethod::StaffAssisted,
            verified_by: "actor-1".to_owned(),
            verified_at_unix_nanos: 9_000_000,
        }),
        pending_rescope: None,
        scope_snapshot_id: None,
        action_plan_id: Some("plan-1".to_owned()),
        approval: Some(ApprovalFacts { approved_by: "actor-2".to_owned(), approved_at_unix_nanos: 4_000_000 }),
    }
}

#[test]
fn privacy_case_public_form_uses_wire_numbers_and_milliseconds() {
    let public = privacy_case_to_public(&case_facts()).unwrap();
    assert_eq!(public.privacy_case_id.as_deref(), Some("privacy-case-1"));
    assert_eq!(public.kind, 4);
    assert_eq!(public.status, 3);
    assert_eq!(public.retry_resume_stage, None);
    assert_eq!(public.version, 3);
    assert_eq!(public.created_at_unix_ms, 1);
    assert_eq!(public.updated_at_unix_ms, 2);
    let binding = public.subject_binding.as_ref().unwrap();
    assert_eq!(binding.canonical_party_id.as_deref(), Some("party-c"));
    assert_eq!(binding.verification_method, 2);
    assert_eq!(binding.verified_at_unix_ms, 9);
    assert_eq!(public.scope_snapshot_id, "");
    assert_eq!(public.privacy_action_plan_id.as_deref(), Some("plan-1"));
    assert_eq!(public.approval.as_ref().unwrap().approved_at_unix_ms, 4);
    let failed = PrivacyCaseFacts { status: PrivacyCaseStatus::FailedRetryable(ResumeStage::Executing), ..case_facts() };
    let failed = privacy_case_to_public(&failed).unwrap();
    assert_eq!((failed.status, failed.retry_resume_stage), (11, Some(3)));
}

#[test]
fn corrupt_case_versions_and_timestamps_are_refused() {
    let negative = PrivacyCaseFacts { created_at_unix_nanos: -1, ..case_facts() };
    assert_eq!(privacy_case_to_public(&negative).err(), Some(QueryRefusal::CaseStateInvalid));
    let too_new = PrivacyCaseFacts { version: u64::MAX, ..case_facts() };
    assert_eq!(privacy_case_to_public(&too_new).err(), Some(QueryRefusal::CaseStateInvalid));
    let mut bad_approval = case_facts();
    bad_approval.approval = Some(ApprovalFacts { approved_by: "actor-2".to_owned(), approved_at_unix_nanos: -5 });
    assert_eq!(privacy_case_to_public(&bad_approval).err(), Some(QueryRefusal::CaseStateInvalid));
}

#[test]
fn redaction_preserves_identity_and_removes_only_hidden_fields() {
    let mut output = privacy_case_to_public(&case_facts()).unwrap();
    let allowed = names(&[
        "kind", "status", "version", "policy_version", "created_at_unix_ms", "updated_at_unix_ms",
        "previous_privacy_case_ref", "pending_rescope", "scope_snapshot_id", "privacy_action_plan_ref", "approval",
        "retry_resume_stage",
    ]);
    redact_privacy_case(&mut output, &allowed);
    assert_eq!(output.privacy_case_id.unwrap(), "privacy-case-1");
    assert_eq!(output.version, 3);
    assert!(output.subject_binding.is_none());
    assert_eq!(output.privacy_action_plan_id.as_deref(), Some("plan-1"));
    let mut hidden = privacy_case_to_public(&case_facts()).unwrap();
    redact_privacy_case(&mut hidden, &Vec::new());
    assert_eq!((hidden.kind, hidden.status, hidden.version), (0, 0, 0));
    assert_eq!(hidden.policy_version, "");
    assert!(hidden.approval.is_none() && hidden.privacy_action_plan_id.is_none());
    assert_eq!(hidden.privacy_case_id.as_deref(), Some("privacy-case-1"));
}

fn restriction() -> RestrictionFacts {
    RestrictionFacts {
        restriction_id: "restriction-1".to_owned(),
        canonical_party_id: "party-c".to_owned(),
        scope: RestrictionScope::ProcessingAndCommunication,
        status: RestrictionStatus::Expired,
        version: 2,
        policy_version: "policy/2".to_owned(),
        placed_by: "actor-1".to_owned(),
        placed_at_unix_nanos: 5_000_000,
        effective_from_unix_nanos: 6_000_000,
        expires_at_unix_nanos: Some(7_000_000),
        released_by: None,
        released_at_unix_nanos: None,
    }
}

#[test]
fn restriction_public_form_and_redaction() {
    let mut public = processing_restriction_to_public(&restriction()).unwrap();
    assert_eq!((public.scope, public.status, public.version), (3, 3, 2));
    assert_eq!((public.placed_at_unix_ms, public.effective_from_unix_ms, public.expires_at_unix_ms), (5, 6, Some(7)));
    redact_restriction(&mut public, &names(&["scope", "status"]));
    assert_eq!(public.processing_restriction_id.as_deref(), Some("restriction-1"));
    assert!(public.canonical_party_id.is_none());
    assert_eq!((public.scope, public.status, public.version), (3, 3, 0));
    assert_eq!(public.expires_at_unix_ms, None);
    let corrupt = RestrictionFacts { released_at_unix_nanos: Some(-1), ..restriction() };
    assert_eq!(processing_restriction_to_public(&corrupt).err(), Some(QueryRefusal::ControlStateInvalid));
}

fn hold(scope: LegalHoldScope) -> LegalHoldFacts {
    LegalHoldFacts {
        hold_id: "hold-1".to_owned(),
        canonical_party_id: "party-c".to_owned(),
        scope,
        authority_reference: "court-order-9".to_owned(),
        reason_code: "litigation".to_owned(),
        policy_version: "policy/3".to_owned(),
        active: false,
        version: 4,
        placed_by: "actor-1".to_owned(),
        effective_from_unix_nanos: 8_000_000,
        effective_until_unix_nanos: None,
        released_by: Some("actor-3".to_owned()),
        released_at_unix_nanos: Some(9_000_000),
    }
}

#[test]
fn legal_hold_public_form_and_redaction() {
    let public = legal_hold_to_public(&hold(LegalHoldScope::DataClass(DataClass::Financial))).unwrap();
    assert_eq!(public.scope, Some(PublicLegalHoldScope::DataClass(8)));
    assert_eq!((public.status, public.version, public.released_at_unix_ms), (2, 4, Some(9)));
    let owner = legal_hold_to_public(&hold(LegalHoldScope::Owner("sales".to_owned()))).unwrap();
    assert_eq!(owner.scope, Some(PublicLegalHoldScope::OwnerModuleId("sales".to_owned())));
    let mut all = legal_hold_to_public(&hold(LegalHoldScope::AllCustomerData)).unwrap();
    assert_eq!(all.scope, Some(PublicLegalHoldScope::AllCustomerData));
    redact_legal_hold(&mut all, &names(&["reason_code"]));
    assert_eq!(all.customer_data_legal_hold_id.as_deref(), Some("hold-1"));
    assert_eq!(all.reason_code, "litigation");
    assert_eq!(all.authority_reference_id, "");
    assert!(all.scope.is_none() && all.released_by_actor_id.is_none());
    let corrupt = LegalHoldFacts { effective_from_unix_nanos: -1, ..hold(LegalHoldScope::AllCustomerData) };
    assert_eq!(legal_hold_to_public(&corrupt).err(), Some(QueryRefusal::ControlStateInvalid));
}

fn finding() -> StoredFinding {
    StoredFinding {
        finding_id: "finding-1".to_owned(),
        party_id: "party-a".to_owned(),
        rule_set_version_id: "rs-1".to_owned(),
        rule_key: "display_name_present".to_owned(),
        severity: QualitySeverity::Critical,
        status: FindingStatus::Waived,
        current_observation_id: "observation-1".to_owned(),
        evaluated_party_resource_version: 5,
        assigned_actor_id: Some("actor-1".to_owned()),
        waiver_reason: Some("duplicate".to_owned()),
        created_at: 10,
        updated_at: 20,
        remediated_by_rule_outcome_id: None,
    }
}

#[test]
fn finding_public_form_carries_wire_numbers_and_stamped_version() {
    let public = finding_to_public(&finding(), 3);
    assert_eq!((public.severity, public.status), (4, 3));
    let stamp = public.resource_version.unwrap();
    assert_eq!((stamp.version, stamp.created_at, stamp.updated_at), (3, Some(10), Some(20)));
    let evaluated = public.evaluated_party_resource_version.unwrap();
    assert_eq!((evaluated.version, evaluated.created_at), (5, None));
}

#[test]
fn finding_visibility_clears_what_is_not_allowed() {
    let visible = finding_to_public_with_visibility(&finding(), 3, &names(&["rule_key", "status"]));
    assert_eq!(visible.finding_id.as_deref(), Some("finding-1"));
    assert_eq!(visible.rule_key, "display_name_present");
    assert_eq!((visible.severity, visible.status), (0, 3));
    assert!(visible.party_id.is_none() && visible.assigned_actor_id.is_none() && visible.resource_version.is_none());
    let observation = StoredObservation {
        observation_id: "observation-1".to_owned(),
        finding_id: "finding-1".to_owned(),
        party_id: "party-a".to_owned(),
        rule_set_version_id: "rs-1".to_owned(),
        rule_key: "display_name_present".to_owned(),
        party_resource_version: 5,
        reason_code: "missing".to_owned(),
        observed_at: 30,
    };
    let shown = observation_to_public_with_visibility(&observation, &names(&["finding_ref", "observed_at"]));
    assert_eq!(shown.finding_observation_id.as_deref(), Some("observation-1"));
    assert_eq!(shown.finding_id.as_deref(), Some("finding-1"));
    assert_eq!(shown.observed_at, Some(30));
    assert_eq!(shown.reason_code, "");
    assert!(shown.party_id.is_none());
}

#[test]
fn job_and_result_visibility_keep_identity() {
    let job = StoredEvaluationJob {
        job_id: "job-1".to_owned(),
        party_id: "party-a".to_owned(),
        rule_set_version_id: "rs-1".to_owned(),
        profile_version_id: "cp-1".to_owned(),
        status: EvaluationJobStatus::Completed,
        party_resource_version: Some(5),
        evaluated_rules: 4,
        failed_rules: 1,
        created_at: 1,
        updated_at: 2,
    };
    let public = evaluation_job_to_public_with_visibility(&job, 3, &names(&["status", "failed_rules"]));
    assert_eq!(public.evaluation_job_id.as_deref(), Some("job-1"));
    assert_eq!((public.status, public.evaluated_rules, public.failed_rules), (3, 0, 1));
    assert!(public.party_id.is_none() && public.evaluated_party_resource_version.is_none());
    let result = StoredCompletenessResult {
        result_id: "result-1".to_owned(),
        job_id: "job-1".to_owned(),
        party_id: "party-a".to_owned(),
        party_resource_version: 5,
        profile_version_id: "cp-1".to_owned(),
        score_basis_points: 7_500,
        components: vec![CompletenessComponent {
            component_key: "name".to_owned(),
            rule_key: "display_name_present".to_owned(),
            rule_outcome_id: "outcome-1".to_owned(),
            awarded_basis_points: 7_500,
        }],
        computed_at: 40,
    };
    let all = names(&["score_basis_points", "components", "resource_version"]);
    let public = completeness_result_to_public_with_visibility(&result, 2, &all);
    assert_eq!(public.completeness_result_id.as_deref(), Some("result-1"));
    assert_eq!(public.score_basis_points, 7_500);
    assert_eq!(public.components.len(), 1);
    assert_eq!(public.components[0].rule_outcome_id, "outcome-1");
    let stamp = public.resource_version.unwrap();
    assert_eq!((stamp.version, stamp.created_at, stamp.updated_at), (2, Some(40), Some(40)));
    assert!(public.evaluation_job_id.is_none() && public.computed_at.is_none());
    let none = completeness_result_to_public_with_visibility(&result, 2, &Vec::new());
    assert!(none.components.is_empty());
    assert_eq!(none.score_basis_points, 0);
}
