use crm_adapters::capability::CapabilityDefinition;
use crm_adapters::dq_capability::{
    evaluation_request_capability_definition, remediation_capability_definition, DataQualityPlanError,
    PARTY_EVALUATION_REQUESTED_EVENT_TYPE, PARTY_REMEDIATION_COMPLETED_EVENT_TYPE, REMEDIATE_PARTY_DISPLAY_NAME_CAPABILITY,
    REQUEST_PARTY_EVALUATION_CAPABILITY, REQUEST_PARTY_EVALUATION_RESPONSE_SCHEMA,
};
use crm_adapters::dq_requests::{
    evaluation_reference_scope_from_request, DataQualityEvaluationJobCapabilityPlanner,
    DataQualityRemediationCompletionPlanner, EvaluationRequestRefs, RemediationAttemptFacts, RemediationCommand,
    UpdatedPartyFacts,
};

fn refs(job: Option<&str>, rule_set: &str, profile: &str) -> EvaluationRequestRefs {
    EvaluationRequestRefs {
        job_id: job.map(str::to_owned),
        party_id: Some("party-a".to_owned()),
        rule_set_version_id: Some(rule_set.to_owned()),
        profile_version_id: Some(profile.to_owned()),
    }
}

fn evaluation_planner() -> DataQualityEvaluationJobCapabilityPlanner {
    DataQualityEvaluationJobCapabilityPlanner::new("rs-1".to_owned(), "cp-1".to_owned(), &"rs-1".to_owned()).unwrap()
}

#[test]
fn evaluation_request_scope_requires_every_reference() {
    let scope = evaluation_reference_scope_from_request(&refs(Some("job-1"), "rs-1", "cp-1")).unwrap();
    assert_eq!(scope.job_id, "job-1");
    assert_eq!(scope.party_id, "party-a");
    assert_eq!(scope.rule_set_version_id, "rs-1");
    assert_eq!(scope.profile_version_id, "cp-1");
    assert_eq!(
        evaluation_reference_scope_from_request(&refs(None, "rs-1", "cp-1")).err(),
        Some(DataQualityPlanError::MissingReference)
    );
    let no_party = EvaluationRequestRefs { party_id: None, ..refs(Some("job-1"), "rs-1", "cp-1") };
    assert_eq!(evaluation_reference_scope_from_request(&no_party).err(), Some(DataQualityPlanError::MissingReference));
}

#[test]
fn evaluation_planner_requires_a_profile_bound_to_its_rule_set() {
    let refused =
        DataQualityEvaluationJobCapabilityPlanner::new("rs-1".to_owned(), "cp-1".to_owned(), &"rs-2".to_owned());
    assert_eq!(refused.err(), Some(DataQualityPlanError::EvaluationPlanInvalid));
    let planner = evaluation_planner();
    assert_eq!(planner.rule_set_version_id, "rs-1");
    assert_eq!(planner.profile_version_id, "cp-1");
}

#[test]
fn evaluation_job_is_created_once_under_the_named_identity() {
    let planner = evaluation_planner();
    let definition = evaluation_request_capability_definition().unwrap();
    let cap = REQUEST_PARTY_EVALUATION_CAPABILITY;
    assert_eq!(planner.target(&definition, cap, &refs(Some("job-7"), "rs-1", "cp-1")).unwrap(), "job-7");
    let plan = planner.plan(&definition, cap, false, &refs(Some("job-7"), "rs-1", "cp-1")).unwrap();
    assert_eq!(plan.aggregate_version, 1);
    assert_eq!(plan.event_type, PARTY_EVALUATION_REQUESTED_EVENT_TYPE);
    assert_eq!(plan.response_schema, REQUEST_PARTY_EVALUATION_RESPONSE_SCHEMA);
    let plan_err = |requested: &str, exists: bool, r: EvaluationRequestRefs| {
        planner.plan(&definition, requested, exists, &r).map(|p| p.aggregate_version)
    };
    assert_eq!(plan_err(cap, true, refs(Some("job-7"), "rs-1", "cp-1")), Err(DataQualityPlanError::EvaluationPlanInvalid));
    assert_eq!(plan_err("other", false, refs(Some("job-7"), "rs-1", "cp-1")), Err(DataQualityPlanError::EvaluationPlanInvalid));
    assert_eq!(plan_err(cap, false, refs(None, "rs-1", "cp-1")), Err(DataQualityPlanError::MissingReference));
    assert_eq!(plan_err(cap, false, refs(Some("job-7"), "rs-2", "cp-1")), Err(DataQualityPlanError::EvaluationPlanInvalid));
    assert_eq!(plan_err(cap, false, refs(Some("job-7"), "rs-1", "cp-2")), Err(DataQualityPlanError::EvaluationPlanInvalid));
    let foreign: CapabilityDefinition = remediation_capability_definition().unwrap();
    assert_eq!(
        planner.target(&foreign, cap, &refs(Some("job-7"), "rs-1", "cp-1")).err(),
        Some(DataQualityPlanError::EvaluationPlanInvalid)
    );
}

fn attempt() -> RemediationAttemptFacts {
    RemediationAttemptFacts {
        attempt_id: "attempt-1".to_owned(),
        finding_id: "finding-1".to_owned(),
        observation_id: "observation-1".to_owned(),
        party_id: "party-a".to_owned(),
        expected_finding_version: 3,
        expected_party_version: 5,
        requested_display_name: "Ada Lovelace".to_owned(),
        updated_party_version: 6,
    }
}

fn updated(party: Option<&str>, version: Option<i64>, name: &str) -> UpdatedPartyFacts {
    UpdatedPartyFacts { party_ref: party.map(str::to_owned), version, display_name: name.to_owned() }
}

fn command() -> RemediationCommand {
    RemediationCommand {
        finding_id: Some("finding-1".to_owned()),
        expected_finding_version: 3,
        expected_current_observation_id: Some("observation-1".to_owned()),
        expected_party_resource_version: 5,
        display_name: "Ada Lovelace".to_owned(),
    }
}

#[test]
fn remediation_planner_requires_the_party_the_attempt_updated() {
    assert!(DataQualityRemediationCompletionPlanner::new(attempt(), updated(Some("party-a"), Some(6), "Ada Lovelace")).is_ok());
    for party in [
        updated(None, Some(6), "Ada Lovelace"),
        updated(Some("party-b"), Some(6), "Ada Lovelace"),
        updated(Some("party-a"), Some(5), "Ada Lovelace"),
        updated(Some("party-a"), None, "Ada Lovelace"),
        updated(Some("party-a"), Some(6), "Ada"),
    ] {
        assert_eq!(
            DataQualityRemediationCompletionPlanner::new(attempt(), party).err(),
            Some(DataQualityPlanError::RemediationPlanInvalid)
        );
    }
}

#[test]
fn remediation_commit_matches_the_completed_attempt_exactly() {
    let planner =
        DataQualityRemediationCompletionPlanner::new(attempt(), updated(Some("party-a"), Some(6), "Ada Lovelace")).unwrap();
    let definition = remediation_capability_definition().unwrap();
    let cap = REMEDIATE_PARTY_DISPLAY_NAME_CAPABILITY;
    assert_eq!(planner.target(&definition, cap).unwrap(), "attempt-1");
    let plan = planner.plan(&definition, cap, false, &command()).unwrap();
    assert_eq!(plan.aggregate_version, 1);
    assert_eq!(plan.event_type, PARTY_REMEDIATION_COMPLETED_EVENT_TYPE);
    let refused = |exists: bool, c: RemediationCommand| planner.plan(&definition, cap, exists, &c).err();
    let invalid = Some(DataQualityPlanError::RemediationPlanInvalid);
    assert_eq!(refused(true, command()), invalid);
    assert_eq!(refused(false, RemediationCommand { expected_finding_version: 2, ..command() }), invalid);
    assert_eq!(refused(false, RemediationCommand { expected_party_resource_version: 6, ..command() }), invalid);
    assert_eq!(refused(false, RemediationCommand { display_name: "Other".to_owned(), ..command() }), invalid);
    assert_eq!(refused(false, RemediationCommand { finding_id: None, ..command() }), invalid);
    assert_eq!(
        refused(false, RemediationCommand { expected_current_observation_id: Some("o-2".to_owned()), ..command() }),
        invalid
    );
    assert_eq!(planner.plan(&definition, "other", false, &command()).err(), invalid);
    let foreign = evaluation_request_capability_definition().unwrap();
    assert_eq!(planner.target(&foreign, cap).err(), invalid);
}
