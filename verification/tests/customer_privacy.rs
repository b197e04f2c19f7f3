use crm_adapters::capability::{CapabilityRisk, CONTRACT_VERSION};
use crm_adapters::cp_case::{
    nanos_to_millis, positive_version, CaseCommand, CaseRecordRef, CustomerPrivacyCaseSubjectVerifyCapabilityPlanner,
    CustomerPrivacyCaseSubmitCapabilityPlanner, CustomerPrivacyCoordinates, CustomerPrivacyError, DecodedCase,
    SubjectCommand, SubjectVerificationMethod, TransitionedCase, SUBMIT_PRIVACY_CASE_CAPABILITY,
    VERIFY_PRIVACY_CASE_SUBJECT_CAPABILITY,
};
use crm_adapters::cp_query::{
    case_read_verdict, control_query_capability_definitions, control_query_visibility_resources, control_read_verdict, enforce_scan_limit, kind_filter,
    legal_hold_status_filter, legal_hold_status_matches, page_size, query_capability_definitions,
    query_visibility_resources, status_filter, QueryRefusal, CONTROL_QUERY_CAPABILITY_IDS, DEFAULT_PAGE_SIZE,
    GET_PRIVACY_CASE_CAPABILITY, LIST_PRIVACY_CASES_CAPABILITY, MAXIMUM_PAGE_SIZE, PARTY_RECORD_TYPE,
    PRIVACY_CASE_FIELDS, QUERY_CAPABILITY_IDS,
};
use crm_adapters::errors::ErrorCategory;
use crm_adapters::ir_candidate::RequestCoordinates;

const COORDINATES: CustomerPrivacyCoordinates = CustomerPrivacyCoordinates {
    module_id: "crm.customer-privacy",
    privacy_case_record_type: "customer_privacy.privacy_case",
    restriction_record_type: "customer_privacy.processing_restriction",
    legal_hold_record_type: "customer_privacy.customer_data_legal_hold",
};

#[test]
fn query_catalog_and_visibility_are_exact() {
    let definitions = query_capability_definitions(&COORDINATES).unwrap();
    assert_eq!(definitions.len(), 2);
    let ids: Vec<&str> = definitions.iter().map(|d| d.capability_id.as_str()).collect();
    assert!(ids.contains(&GET_PRIVACY_CASE_CAPABILITY) && ids.contains(&LIST_PRIVACY_CASES_CAPABILITY));
    for definition in definitions {
        assert_eq!(definition.owner_module_id.as_str(), COORDINATES.module_id);
        assert!(!definition.mutation);
        assert!(!definition.requires_idempotency);
        assert!(!definition.requires_approval);
        assert_eq!(definition.risk, CapabilityRisk::Low);
    }
    for capability in QUERY_CAPABILITY_IDS {
        let resources = query_visibility_resources(&COORDINATES, capability);
        assert_eq!(resources.len(), 2);
        assert_eq!(resources[0].resource_type, PARTY_RECORD_TYPE);
        assert!(resources[0].allowed_fields.is_empty());
        assert_eq!(resources[1].resource_type, COORDINATES.privacy_case_record_type);
        assert_eq!(resources[1].allowed_fields.len(), PRIVACY_CASE_FIELDS.len());
    }
    assert!(query_visibility_resources(&COORDINATES, "customer_privacy.unknown").is_empty());
}

#[test]
fn control_query_catalog_and_visibility_are_exact() {
    let definitions = control_query_capability_definitions(&COORDINATES).unwrap();
    assert_eq!(definitions.len(), 3);
    assert_eq!(
        definitions.iter().map(|d| d.capability_id.as_str()).collect::<Vec<_>>(),
        CONTROL_QUERY_CAPABILITY_IDS
    );
    for capability in CONTROL_QUERY_CAPABILITY_IDS {
        let resources = control_query_visibility_resources(&COORDINATES, capability);
        assert_eq!(resources.len(), 2);
        assert_eq!(resources[0].resource_type, PARTY_RECORD_TYPE);
        assert!(resources[0].allowed_fields.is_empty());
    }
    assert_eq!(
        control_query_visibility_resources(&COORDINATES, CONTROL_QUERY_CAPABILITY_IDS[0])[1].resource_type,
        COORDINATES.restriction_record_type
    );
}

#[test]
fn legal_hold_list_bounds_and_filter_are_strict() {
    assert_eq!(page_size(0).unwrap(), DEFAULT_PAGE_SIZE);
    assert_eq!(page_size(MAXIMUM_PAGE_SIZE as i32).unwrap(), MAXIMUM_PAGE_SIZE);
    assert!(page_size(-1).is_err());
    assert!(page_size(MAXIMUM_PAGE_SIZE as i32 + 1).is_err());
    assert!(legal_hold_status_filter(Some(1)).is_ok());
    assert!(legal_hold_status_filter(Some(0)).is_err());
}

#[test]
fn list_bounds_and_filters_are_strict() {
    assert_eq!(page_size(0).unwrap(), DEFAULT_PAGE_SIZE);
    assert_eq!(page_size(MAXIMUM_PAGE_SIZE as i32).unwrap(), MAXIMUM_PAGE_SIZE);
    assert!(page_size(-1).is_err());
    assert!(page_size(MAXIMUM_PAGE_SIZE as i32 + 1).is_err());
    assert!(kind_filter(Some(4)).is_ok());
    assert!(kind_filter(Some(0)).is_err());
    assert!(status_filter(Some(15)).is_ok());
    assert!(status_filter(Some(0)).is_err());
}

#[test]
fn scan_limits_and_hold_status_matching() {
    assert!(enforce_scan_limit(4_096, true).is_ok());
    assert_eq!(enforce_scan_limit(4_097, true), Err(QueryRefusal::LegalHoldListScanLimitExceeded));
    assert_eq!(QueryRefusal::CaseListScanLimitExceeded.code(), "CUSTOMER_PRIVACY_CASE_LIST_SCAN_LIMIT_EXCEEDED");
    assert!(legal_hold_status_matches(true, None));
    assert!(legal_hold_status_matches(false, Some(2)));
    assert!(!legal_hold_status_matches(true, Some(2)));
}

fn request(capability: &str) -> RequestCoordinates {
    RequestCoordinates {
        module_id: COORDINATES.module_id.to_owned(),
        capability_id: capability.to_owned(),
        capability_version: CONTRACT_VERSION.to_owned(),
    }
}

fn locked() -> CaseRecordRef {
    CaseRecordRef {
        record_type: COORDINATES.privacy_case_record_type.to_owned(),
        record_id: "privacy-case-a".to_owned(),
        version: 1,
    }
}

fn submitted() -> TransitionedCase {
    TransitionedCase {
        reached_target_status: true,
        version: 2,
        record_type: COORDINATES.privacy_case_record_type.to_owned(),
        record_id: "privacy-case-a".to_owned(),
        has_subject_binding: false,
        has_pending_rescope: false,
        has_scope_snapshot: false,
        has_action_plan: false,
        has_approval: false,
        created_at_unix_nanos: 1_000_000_000,
        verified_at_unix_nanos: None,
    }
}

#[test]
fn target_and_plan_are_exact_versioned_update() {
    let planner = CustomerPrivacyCaseSubmitCapabilityPlanner;
    let definition = CustomerPrivacyCaseSubmitCapabilityPlanner::capability_definition(&COORDINATES).unwrap();
    assert_eq!(definition.risk, CapabilityRisk::High);
    let command = CaseCommand { case_id: Some("privacy-case-a".to_owned()), expected_version: 1 };
    let req = request(SUBMIT_PRIVACY_CASE_CAPABILITY);
    assert_eq!(planner.target(&COORDINATES, &definition, &req, &command).unwrap(), "privacy-case-a");
    assert_eq!(planner.locate(&COORDINATES, &definition, &req, &command, Some(&locked())), Ok(1));
    let decoded = DecodedCase { case_id: "privacy-case-a".to_owned(), tenant_id: "tenant-a".to_owned(), version: 1 };
    let previous = planner.bind(&"privacy-case-a".to_owned(), &"tenant-a".to_owned(), &decoded).unwrap();
    let plan = planner.check_transition(&locked(), previous, &submitted(), 2_000_000_000).unwrap();
    assert_eq!(plan.expected_version, 1);
    assert_eq!(plan.aggregate_version, 2);
    assert_eq!(plan.created_at_unix_ms, 1_000);
    assert_eq!(plan.updated_at_unix_ms, 2_000);
}

#[test]
fn missing_tenant_stale_and_wrong_state_fail_closed() {
    let planner = CustomerPrivacyCaseSubmitCapabilityPlanner;
    let definition = CustomerPrivacyCaseSubmitCapabilityPlanner::capability_definition(&COORDINATES).unwrap();
    let command = CaseCommand { case_id: Some("privacy-case-a".to_owned()), expected_version: 1 };
    let req = request(SUBMIT_PRIVACY_CASE_CAPABILITY);
    assert_eq!(
        planner.locate(&COORDINATES, &definition, &req, &command, None).unwrap_err().code(),
        "CUSTOMER_PRIVACY_CASE_NOT_FOUND"
    );
    let other_tenant = DecodedCase { case_id: "privacy-case-a".to_owned(), tenant_id: "tenant-b".to_owned(), version: 1 };
    assert_eq!(
        planner.bind(&"privacy-case-a".to_owned(), &"tenant-a".to_owned(), &other_tenant),
        Err(CustomerPrivacyError::CaseNotFound)
    );
    let not_submitted = TransitionedCase { reached_target_status: false, ..submitted() };
    assert_eq!(
        planner.check_transition(&locked(), 1, &not_submitted, 2_000_000_000).map(|p| p.aggregate_version),
        Err(CustomerPrivacyError::SubmitPlanInvalid)
    );
    let later = TransitionedCase { has_approval: true, ..submitted() };
    assert_eq!(
        planner.check_transition(&locked(), 1, &later, 2_000_000_000).map(|p| p.aggregate_version),
        Err(CustomerPrivacyError::SubmitPlanInvalid)
    );
    assert_eq!(CustomerPrivacyError::DomainVersionConflict.code(), "CUSTOMER_PRIVACY_VERSION_CONFLICT");
    assert_eq!(CustomerPrivacyError::DomainInvalidTransition.code(), "CUSTOMER_PRIVACY_INVALID_TRANSITION");
}

#[test]
fn malformed_state_and_invalid_request_are_bounded() {
    let planner = CustomerPrivacyCaseSubmitCapabilityPlanner;
    let definition = CustomerPrivacyCaseSubmitCapabilityPlanner::capability_definition(&COORDINATES).unwrap();
    let req = request(SUBMIT_PRIVACY_CASE_CAPABILITY);
    let invalid = CaseCommand { case_id: Some("privacy-case-a".to_owned()), expected_version: 0 };
    assert_eq!(
        planner.locate(&COORDINATES, &definition, &req, &invalid, Some(&locked())).unwrap_err().code(),
        "SDK_INVALID_ARGUMENT"
    );
    let wrong_request = request(VERIFY_PRIVACY_CASE_SUBJECT_CAPABILITY);
    let command = CaseCommand { case_id: Some("privacy-case-a".to_owned()), expected_version: 1 };
    assert_eq!(
        planner.locate(&COORDINATES, &definition, &wrong_request, &command, Some(&locked())),
        Err(CustomerPrivacyError::SubmitPlanInvalid)
    );
    let negative = TransitionedCase { created_at_unix_nanos: -1, ..submitted() };
    assert_eq!(
        planner.check_transition(&locked(), 1, &negative, 2_000_000_000).map(|p| p.aggregate_version),
        Err(CustomerPrivacyError::TimestampNegative)
    );
}

fn subject(expected: i64, generation: u64, method: i32) -> SubjectCommand {
    SubjectCommand {
        case: CaseCommand { case_id: Some("privacy-case-a".to_owned()), expected_version: expected },
        submitted_party_id: Some("party-submitted".to_owned()),
        canonical_party_id: Some("party-canonical".to_owned()),
        identity_resolution_generation: generation,
        verification_method: method,
    }
}

#[test]
fn subject_verification_checks_request_binding_and_transition() {
    let planner = CustomerPrivacyCaseSubjectVerifyCapabilityPlanner;
    let definition = CustomerPrivacyCaseSubjectVerifyCapabilityPlanner::capability_definition(&COORDINATES).unwrap();
    let req = request(VERIFY_PRIVACY_CASE_SUBJECT_CAPABILITY);
    assert_eq!(planner.check_command(&subject(2, 3, 2)), Ok(SubjectVerificationMethod::StaffAssisted));
    assert_eq!(planner.check_command(&subject(2, 0, 2)), Err(CustomerPrivacyError::GenerationNotPositive));
    assert_eq!(planner.check_command(&subject(2, 3, 0)), Err(CustomerPrivacyError::UnsupportedVerificationMethod));
    let locked_submitted = CaseRecordRef { version: 2, ..locked() };
    assert_eq!(planner.locate(&COORDINATES, &definition, &req, &subject(2, 3, 1), Some(&locked_submitted)), Ok(2));
    let decoded = DecodedCase { case_id: "privacy-case-a".to_owned(), tenant_id: "tenant-a".to_owned(), version: 2 };
    let mut no_party = subject(2, 3, 1);
    no_party.canonical_party_id = None;
    assert_eq!(
        planner.bind(&"privacy-case-a".to_owned(), &"tenant-a".to_owned(), &decoded, &no_party),
        Err(CustomerPrivacyError::MissingReference)
    );
    let previous = planner.bind(&"privacy-case-a".to_owned(), &"tenant-a".to_owned(), &decoded, &subject(2, 3, 1)).unwrap();
    let verified = TransitionedCase {
        version: 3,
        has_subject_binding: true,
        verified_at_unix_nanos: Some(3_000_000_000),
        ..submitted()
    };
    let plan = planner.check_transition(&locked_submitted, previous, &verified, 3_000_000_000).unwrap();
    assert_eq!(plan.aggregate_version, 3);
    assert_eq!(plan.verified_at_unix_ms, Some(3_000));
    let unbound = TransitionedCase { has_subject_binding: false, ..verified };
    assert_eq!(
        planner.check_transition(&locked_submitted, previous, &unbound, 3_000_000_000).map(|p| p.aggregate_version),
        Err(CustomerPrivacyError::SubjectVerifyPlanInvalid)
    );
}

#[test]
fn versions_and_timestamps_are_read_strictly() {
    assert_eq!(positive_version(5), Ok(5));
    assert_eq!(positive_version(0), Err(CustomerPrivacyError::ExpectedVersionNotPositive));
    assert_eq!(nanos_to_millis(2_999_999), Ok(2));
    assert_eq!(nanos_to_millis(-1), Err(CustomerPrivacyError::TimestampNegative));
}

#[test]
fn missing_references_and_invalid_scalars_fail_closed() {
    let planner = CustomerPrivacyCaseSubjectVerifyCapabilityPlanner;
    let definition = CustomerPrivacyCaseSubjectVerifyCapabilityPlanner::capability_definition(&COORDINATES).unwrap();
    let req = request(VERIFY_PRIVACY_CASE_SUBJECT_CAPABILITY);
    let base = || subject(2, 7, 3);
    let decoded = DecodedCase { case_id: "privacy-case-a".to_owned(), tenant_id: "tenant-a".to_owned(), version: 2 };
    let target_code = |command: &SubjectCommand| {
        planner.target(&COORDINATES, &definition, &req, command).unwrap_err().code()
    };
    let plan_code = |command: &SubjectCommand| {
        planner.bind(&"privacy-case-a".to_owned(), &"tenant-a".to_owned(), &decoded, command).unwrap_err().code()
    };

    let mut spec = base();
    spec.case.case_id = None;
    assert_eq!(target_code(&spec), "SDK_INVALID_ARGUMENT");

    let mut spec = base();
    spec.submitted_party_id = None;
    assert_eq!(plan_code(&spec), "SDK_INVALID_ARGUMENT");

    let mut spec = base();
    spec.canonical_party_id = None;
    assert_eq!(plan_code(&spec), "SDK_INVALID_ARGUMENT");

    for invalid_version in [0, -1] {
        let mut spec = base();
        spec.case.expected_version = invalid_version;
        assert_eq!(target_code(&spec), "SDK_INVALID_ARGUMENT");
    }

    let mut spec = base();
    spec.identity_resolution_generation = 0;
    assert_eq!(target_code(&spec), "SDK_INVALID_ARGUMENT");

    let mut spec = base();
    spec.verification_method = i32::MAX;
    assert_eq!(target_code(&spec), "SDK_INVALID_ARGUMENT");
}

#[test]
fn a_case_read_answers_every_hidden_or_foreign_case_as_not_found() {
    let served = case_read_verdict(true, true, true, "case-1", "tenant-a", "case-1", "tenant-a", Some(true));
    assert_eq!(served, Ok(()));
    assert_eq!(case_read_verdict(true, true, true, "case-1", "tenant-a", "case-1", "tenant-a", None), Ok(()));
    for refused in [
        case_read_verdict(false, true, true, "case-1", "tenant-a", "case-1", "tenant-a", None),
        case_read_verdict(true, false, true, "case-1", "tenant-a", "case-1", "tenant-a", None),
        case_read_verdict(true, true, true, "case-2", "tenant-a", "case-1", "tenant-a", None),
        case_read_verdict(true, true, true, "case-1", "tenant-b", "case-1", "tenant-a", None),
        case_read_verdict(true, true, true, "case-1", "tenant-a", "case-1", "tenant-a", Some(false)),
    ] {
        let error = refused.unwrap_err();
        assert_eq!(error, QueryRefusal::CaseNotFound);
        assert_eq!(error.code(), "CUSTOMER_PRIVACY_CASE_NOT_FOUND");
        assert_eq!(error.category(), ErrorCategory::NotFound);
    }
    let undecodable = case_read_verdict(true, true, false, "", "", "case-1", "tenant-a", None).unwrap_err();
    assert_eq!(undecodable.code(), "CUSTOMER_PRIVACY_CASE_STATE_INVALID");
    assert_eq!(case_read_verdict(false, true, false, "", "", "case-1", "tenant-a", None), Err(QueryRefusal::CaseNotFound));
}

#[test]
fn a_control_read_hides_missing_controls_and_hidden_subjects() {
    assert_eq!(control_read_verdict(true, true, true, "hold-1", "tenant-a", "hold-1", "tenant-a", true), Ok(()));
    assert_eq!(
        control_read_verdict(false, true, true, "hold-1", "tenant-a", "hold-1", "tenant-a", true),
        Err(QueryRefusal::ControlNotFound)
    );
    assert_eq!(
        control_read_verdict(true, false, true, "hold-1", "tenant-a", "hold-1", "tenant-a", true),
        Err(QueryRefusal::ControlNotFound)
    );
    let hidden = control_read_verdict(true, true, true, "hold-1", "tenant-a", "hold-1", "tenant-a", false).unwrap_err();
    assert_eq!(hidden.code(), "CUSTOMER_PRIVACY_CONTROL_NOT_FOUND");
    assert_eq!(hidden.category(), ErrorCategory::NotFound);
    for invalid in [
        control_read_verdict(true, true, false, "", "", "hold-1", "tenant-a", true),
        control_read_verdict(true, true, true, "hold-2", "tenant-a", "hold-1", "tenant-a", true),
        control_read_verdict(true, true, true, "hold-1", "tenant-b", "hold-1", "tenant-a", true),
    ] {
        assert_eq!(invalid, Err(QueryRefusal::ControlStateInvalid));
    }
}

#[test]
fn a_replayed_transition_check_gives_the_same_plan() {
    let planner = CustomerPrivacyCaseSubmitCapabilityPlanner;
    let first = planner.check_transition(&locked(), 1, &submitted(), 2_000_000_000);
    let second = planner.check_transition(&locked(), 1, &submitted(), 2_000_000_000);
    assert_eq!(first, second);
    let stale = planner.check_transition(&locked(), 2, &submitted(), 2_000_000_000);
    assert_eq!(stale.clone(), planner.check_transition(&locked(), 2, &submitted(), 2_000_000_000));
    assert_eq!(stale, Err(CustomerPrivacyError::SubmitPlanInvalid));
}

#[test]
fn only_a_version_conflict_may_be_retried() {
    assert!(CustomerPrivacyError::DomainVersionConflict.retryable());
    for error in [
        CustomerPrivacyError::DomainInvalidTransition,
        CustomerPrivacyError::DomainInvalidArgument,
        CustomerPrivacyError::CaseNotFound,
        CustomerPrivacyError::CaseInvalid,
        CustomerPrivacyError::SubmitPlanInvalid,
        CustomerPrivacyError::SubjectVerifyPlanInvalid,
        CustomerPrivacyError::MissingReference,
        CustomerPrivacyError::TimestampNegative,
    ] {
        assert!(!error.retryable());
    }
}
