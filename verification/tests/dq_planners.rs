use crm_adapters::capability::CapabilityDefinition;
use crm_adapters::dq_capability::{
    capability_definition, evaluation_stage_capability_definition, finding_acknowledge_capability_definition,
    finding_assign_capability_definition, completeness_profile_capability_definition, DataQualityPlanError,
    FINDING_ASSIGNMENT_CHANGED_EVENT_TYPE, FINDING_STATUS_CHANGED_EVENT_TYPE, PARTY_RULE_SET_PUBLISHED_EVENT_TYPE,
    STAGE_PARTY_EVALUATION_INPUT_CAPABILITY, ASSIGN_FINDING_CAPABILITY, ACKNOWLEDGE_FINDING_CAPABILITY,
    PUBLISH_PARTY_RULE_SET_CAPABILITY, PUBLISH_PARTY_COMPLETENESS_PROFILE_CAPABILITY,
};
use crm_adapters::dq_finding::{
    DataQualityFindingStewardshipPlanner, FindingRecord, StewardshipAction, StewardshipCommand,
};
use crm_adapters::dq_materialize::{
    admit_materialization_inputs, materialization_effects, materialization_identity, rule_tallies,
    ExistingFindingEntry, FindingEffect, MaterializedOutcome,
};
use crm_adapters::dq_publication::{
    bind_profile_definition, completeness_profile_reference_scope_from_request, quality_rule_severity,
    DataQualityCompletenessProfileCapabilityPlanner, DataQualityRuleSetCapabilityPlanner, ProfileDefinitionHeader,
    QualityRuleHeader,
};
use crm_adapters::dq_model::QualitySeverity;
use crm_adapters::dq_stage::{
    hex, source_snapshot, stage_command, stage_identity, DataQualityEvaluationStagePlanner, EvaluationJobRecord,
    EvaluationStageTenantCycle, PartyQualitySourceKind, PartyReadAnswer, PartySourceError, StageCommand,
    StageWorkerError, validate_worker_page_size,
};
use crm_adapters::privacy_associations::EvaluationJobStatus;

fn stage_definition() -> CapabilityDefinition {
    evaluation_stage_capability_definition().unwrap()
}

fn created_job(version: i64) -> EvaluationJobRecord {
    EvaluationJobRecord {
        version,
        job_id: "dq-job-001".to_owned(),
        party_id: "party-a".to_owned(),
        status: EvaluationJobStatus::Created,
    }
}

fn stage_request(expected: i64, party: Option<&str>, kind: i32) -> StageCommand {
    StageCommand {
        evaluation_job_id: Some("dq-job-001".to_owned()),
        expected_job_version: expected,
        party_id: party.map(str::to_owned),
        party_kind: kind,
        display_name: "Private Name".to_owned(),
        party_resource_version: 4,
    }
}

#[test]
fn staging_plan_advances_a_created_job_by_one_version() {
    let planner = DataQualityEvaluationStagePlanner;
    let job = created_job(3);
    let plan = planner
        .plan(&stage_definition(), STAGE_PARTY_EVALUATION_INPUT_CAPABILITY, Some(&job), &stage_request(3, Some("party-a"), 2))
        .unwrap();
    assert_eq!(plan.kind, PartyQualitySourceKind::Organization);
    assert_eq!(plan.expected_version, 3);
    assert_eq!(plan.aggregate_version, 4);
}

#[test]
fn staging_plan_refuses_each_inconsistency_with_its_own_error() {
    let planner = DataQualityEvaluationStagePlanner;
    let definition = stage_definition();
    let job = created_job(3);
    let plan = |current: Option<&EvaluationJobRecord>, command: StageCommand, requested: &str| {
        planner.plan(&definition, requested, current, &command).map(|p| p.aggregate_version)
    };
    let cap = STAGE_PARTY_EVALUATION_INPUT_CAPABILITY;
    assert_eq!(plan(Some(&job), stage_request(3, Some("party-a"), 1), "other"), Err(DataQualityPlanError::StagePlanInvalid));
    assert_eq!(plan(None, stage_request(3, Some("party-a"), 1), cap), Err(DataQualityPlanError::StagePlanInvalid));
    assert_eq!(plan(Some(&job), stage_request(2, Some("party-a"), 1), cap), Err(DataQualityPlanError::StageVersionConflict));
    assert_eq!(plan(Some(&job), stage_request(0, Some("party-a"), 1), cap), Err(DataQualityPlanError::StageVersionConflict));
    let staged = EvaluationJobRecord { status: EvaluationJobStatus::Staged, ..created_job(3) };
    assert_eq!(plan(Some(&staged), stage_request(3, Some("party-a"), 1), cap), Err(DataQualityPlanError::StagePlanInvalid));
    assert_eq!(plan(Some(&job), stage_request(3, None, 1), cap), Err(DataQualityPlanError::MissingReference));
    assert_eq!(plan(Some(&job), stage_request(3, Some("party-b"), 1), cap), Err(DataQualityPlanError::StagePlanInvalid));
    assert_eq!(plan(Some(&job), stage_request(3, Some("party-a"), 0), cap), Err(DataQualityPlanError::InvalidPartyKind));
    assert_eq!(DataQualityPlanError::StageVersionConflict.code(), "DATA_QUALITY_EVALUATION_STAGE_VERSION_CONFLICT");
    assert_eq!(DataQualityPlanError::StagePlanInvalid.code(), "DATA_QUALITY_EVALUATION_STAGE_PLAN_INVALID");
    let last = created_job(i64::MAX);
    assert_eq!(plan(Some(&last), stage_request(i64::MAX, Some("party-a"), 1), cap), Err(DataQualityPlanError::StagePlanInvalid));
}

#[test]
fn staging_target_is_the_named_job() {
    let planner = DataQualityEvaluationStagePlanner;
    let target = planner.target(&stage_definition(), STAGE_PARTY_EVALUATION_INPUT_CAPABILITY, &stage_request(1, None, 1));
    assert_eq!(target.unwrap(), "dq-job-001");
    let mut command = stage_request(1, None, 1);
    command.evaluation_job_id = None;
    assert_eq!(
        planner.target(&stage_definition(), STAGE_PARTY_EVALUATION_INPUT_CAPABILITY, &command),
        Err(DataQualityPlanError::MissingReference)
    );
}

fn answer(party_ref: Option<&str>, kind: i32, name: &str, version: Option<i64>) -> Option<PartyReadAnswer> {
    Some(PartyReadAnswer {
        party_ref: party_ref.map(str::to_owned),
        kind,
        display_name: name.to_owned(),
        resource_version: version,
    })
}

#[test]
fn governed_source_evidence_is_minimized_and_strict() {
    let requested = "party-a".to_owned();
    let snapshot = source_snapshot(&requested, answer(Some("party-a"), 1, "Ada", Some(5))).unwrap();
    assert_eq!(snapshot.party_id, "party-a");
    assert_eq!(snapshot.kind, PartyQualitySourceKind::Person);
    assert_eq!(snapshot.display_name, "Ada");
    assert_eq!(snapshot.resource_version, 5);
    let err = |a| source_snapshot(&requested, a).map(|s| s.resource_version).unwrap_err();
    assert_eq!(err(None), PartySourceError::NotFound);
    assert_eq!(err(answer(None, 1, "Ada", Some(5))), PartySourceError::NotFound);
    assert_eq!(err(answer(Some("party-b"), 1, "Ada", Some(5))), PartySourceError::ContractInvalid);
    assert_eq!(err(answer(Some("party-a"), 0, "Ada", Some(5))), PartySourceError::NotFound);
    assert_eq!(err(answer(Some("party-a"), 1, "", Some(5))), PartySourceError::NotFound);
    assert_eq!(err(answer(Some("party-a"), 1, "Ada", None)), PartySourceError::ContractInvalid);
    assert_eq!(err(answer(Some("party-a"), 1, "Ada", Some(0))), PartySourceError::ContractInvalid);
    assert_eq!(PartySourceError::ContractInvalid.code(), "DATA_QUALITY_PARTY_SOURCE_CONTRACT_INVALID");
}

#[test]
fn staging_command_from_own_party_evidence_is_admitted() {
    let source = source_snapshot(&"party-a".to_owned(), answer(Some("party-a"), 2, "Acme", Some(9))).unwrap();
    let command = stage_command(&"dq-job-001".to_owned(), &"party-a".to_owned(), 3, &source).unwrap();
    assert_eq!(command.party_kind, 2);
    assert_eq!(command.party_resource_version, 9);
    let plan = DataQualityEvaluationStagePlanner
        .plan(&stage_definition(), STAGE_PARTY_EVALUATION_INPUT_CAPABILITY, Some(&created_job(3)), &command)
        .unwrap();
    assert_eq!(plan.kind, PartyQualitySourceKind::Organization);
    let other = stage_command(&"dq-job-001".to_owned(), &"party-z".to_owned(), 3, &source);
    assert_eq!(other.map(|c| c.party_kind), Err(DataQualityPlanError::StagePlanInvalid));
}

#[test]
fn party_kind_round_trips_through_its_wire_number() {
    for kind in [PartyQualitySourceKind::Person, PartyQualitySourceKind::Organization] {
        assert_eq!(PartyQualitySourceKind::from_wire(kind.to_wire()), Some(kind));
    }
    assert_eq!(PartyQualitySourceKind::from_wire(0), None);
    assert_ne!(PartyQualitySourceKind::Person, PartyQualitySourceKind::Organization);
}

#[test]
fn worker_cycle_tally_saturates_and_page_size_is_bounded() {
    let mut cycle = EvaluationStageTenantCycle::begin(3, true).unwrap();
    cycle.record_staged();
    cycle.record_deferred();
    cycle.record_staged();
    assert_eq!(cycle, EvaluationStageTenantCycle { scanned_jobs: 3, staged_jobs: 2, deferred_jobs: 1, has_more: true });
    let mut full = EvaluationStageTenantCycle { scanned_jobs: 1, staged_jobs: u32::MAX, deferred_jobs: 0, has_more: false };
    full.record_staged();
    assert_eq!(full.staged_jobs, u32::MAX);
    assert_eq!(validate_worker_page_size(100, 500), Ok(100));
    assert_eq!(validate_worker_page_size(0, 500), Err(StageWorkerError::InvalidPageSize));
    assert_eq!(validate_worker_page_size(501, 500), Err(StageWorkerError::InvalidPageSize));
}

#[test]
fn staging_identity_is_prefixed_lowercase_hex() {
    assert_eq!(hex(&[0x00, 0x0f, 0xa5, 0xff]), "000fa5ff");
    assert_eq!(stage_identity(&[0xde, 0xad]), "dq-evaluation-stage-dead");
    assert_eq!(hex(&[]), "");
}

fn finding(version: i64) -> FindingRecord {
    FindingRecord { version, record_id: "finding-1".to_owned(), finding_id: "finding-1".to_owned() }
}

fn stewardship(expected: i64, observation: Option<&str>) -> StewardshipCommand {
    StewardshipCommand {
        finding_id: Some("finding-1".to_owned()),
        expected_version: expected,
        assigned_actor_id: Some("steward-a".to_owned()),
        expected_current_observation_id: observation.map(str::to_owned),
        reason: String::new(),
    }
}

#[test]
fn stewardship_emits_the_event_of_its_action() {
    let planner = DataQualityFindingStewardshipPlanner;
    let assign = finding_assign_capability_definition().unwrap();
    let plan = planner.plan(&assign, ASSIGN_FINDING_CAPABILITY, Some(&finding(2)), &stewardship(2, None)).unwrap();
    assert_eq!(plan.action, StewardshipAction::Assign);
    assert_eq!(plan.aggregate_version, 3);
    assert_eq!(plan.event_type, FINDING_ASSIGNMENT_CHANGED_EVENT_TYPE);
    let ack = finding_acknowledge_capability_definition().unwrap();
    let plan = planner.plan(&ack, ACKNOWLEDGE_FINDING_CAPABILITY, Some(&finding(2)), &stewardship(2, Some("obs-1"))).unwrap();
    assert_eq!(plan.action, StewardshipAction::Acknowledge);
    assert_eq!(plan.event_type, FINDING_STATUS_CHANGED_EVENT_TYPE);
}

#[test]
fn stewardship_refusals_are_exact() {
    let planner = DataQualityFindingStewardshipPlanner;
    let ack = finding_acknowledge_capability_definition().unwrap();
    let run = |current: Option<&FindingRecord>, command: StewardshipCommand| {
        planner.plan(&ack, ACKNOWLEDGE_FINDING_CAPABILITY, current, &command).map(|p| p.aggregate_version)
    };
    assert_eq!(run(None, stewardship(2, Some("obs-1"))), Err(DataQualityPlanError::FindingNotFound));
    assert_eq!(run(Some(&finding(2)), stewardship(1, Some("obs-1"))), Err(DataQualityPlanError::FindingVersionConflict));
    assert_eq!(run(Some(&finding(2)), stewardship(2, None)), Err(DataQualityPlanError::MissingReference));
    let mismatched = FindingRecord { finding_id: "finding-2".to_owned(), ..finding(2) };
    assert_eq!(run(Some(&mismatched), stewardship(2, Some("obs-1"))), Err(DataQualityPlanError::FindingPlanInvalid));
    let wrong = planner.plan(&ack, ASSIGN_FINDING_CAPABILITY, Some(&finding(2)), &stewardship(2, Some("obs-1")));
    assert_eq!(wrong.map(|p| p.aggregate_version), Err(DataQualityPlanError::FindingPlanInvalid));
    assert_eq!(DataQualityPlanError::FindingVersionConflict.code(), "DATA_QUALITY_FINDING_VERSION_CONFLICT");
}

#[test]
fn rule_set_publication_creates_a_first_version_only() {
    let planner = DataQualityRuleSetCapabilityPlanner;
    let definition = capability_definition().unwrap();
    let plan = planner.plan(&definition, PUBLISH_PARTY_RULE_SET_CAPABILITY, false, Some(1)).unwrap();
    assert_eq!(plan.aggregate_version, 1);
    assert_eq!(plan.event_type, PARTY_RULE_SET_PUBLISHED_EVENT_TYPE);
    let exists = planner.plan(&definition, PUBLISH_PARTY_RULE_SET_CAPABILITY, true, Some(1));
    assert_eq!(exists.map(|p| p.aggregate_version), Err(DataQualityPlanError::RuleSetPlanInvalid));
}

#[test]
fn wire_definition_rejects_unspecified_semantics_and_evaluator() {
    let planner = DataQualityRuleSetCapabilityPlanner;
    let definition = capability_definition().unwrap();
    assert_eq!(
        planner.target(&definition, PUBLISH_PARTY_RULE_SET_CAPABILITY, Some(0)),
        Err(DataQualityPlanError::InvalidEvaluatorSemanticVersion)
    );
    assert_eq!(
        quality_rule_severity(&QualityRuleHeader { severity: 2, has_evaluator: false }),
        Err(DataQualityPlanError::MissingEvaluator)
    );
    assert_eq!(
        quality_rule_severity(&QualityRuleHeader { severity: 0, has_evaluator: true }),
        Err(DataQualityPlanError::InvalidSeverity)
    );
    assert_eq!(quality_rule_severity(&QualityRuleHeader { severity: 4, has_evaluator: true }), Ok(QualitySeverity::Critical));
    assert_eq!(planner.target(&definition, PUBLISH_PARTY_RULE_SET_CAPABILITY, None), Err(DataQualityPlanError::MissingDefinition));
}

#[test]
fn definition_rejects_different_or_unknown_rule_set_binding() {
    let result = bind_profile_definition(
        &Some(ProfileDefinitionHeader {
            completeness_semantic_version: 1,
            rule_set_version_id: Some("dq-party-rule-set-unavailable".to_owned()),
        }),
        &"dq-party-rule-set-000".to_owned(),
    );
    assert_eq!(result.unwrap_err().code(), "DATA_QUALITY_COMPLETENESS_RULE_SET_UNAVAILABLE");
}

#[test]
fn completeness_profile_scope_names_its_rule_set() {
    let header = |id: Option<&str>, version: i32| {
        Some(ProfileDefinitionHeader { completeness_semantic_version: version, rule_set_version_id: id.map(str::to_owned) })
    };
    let scope = completeness_profile_reference_scope_from_request(header(Some("rs-1"), 1)).unwrap();
    assert_eq!(scope.rule_set_version_id, "rs-1");
    assert_eq!(
        completeness_profile_reference_scope_from_request(header(Some(""), 1)),
        Err(DataQualityPlanError::InvalidRuleSetReference)
    );
    assert_eq!(
        completeness_profile_reference_scope_from_request(header(Some("rs-1"), 0)),
        Err(DataQualityPlanError::InvalidCompletenessSemanticVersion)
    );
    assert_eq!(completeness_profile_reference_scope_from_request(header(None, 1)), Err(DataQualityPlanError::MissingReference));
    assert_eq!(completeness_profile_reference_scope_from_request(None), Err(DataQualityPlanError::MissingDefinition));
    let planner = DataQualityCompletenessProfileCapabilityPlanner::new("rs-1".to_owned());
    let definition = completeness_profile_capability_definition().unwrap();
    let plan = planner.plan(&definition, PUBLISH_PARTY_COMPLETENESS_PROFILE_CAPABILITY, false, &header(Some("rs-1"), 1));
    assert_eq!(plan.unwrap().aggregate_version, 1);
}

fn outcome(passed: bool, existing: Option<i64>, changed: bool, observation: Option<bool>) -> MaterializedOutcome {
    MaterializedOutcome {
        passed,
        finding_id: "f-1".to_owned(),
        existing_finding_version: existing,
        finding_changed: changed,
        rule_available: true,
        observation_id: "o-1".to_owned(),
        existing_observation_matches: observation,
    }
}

#[test]
fn materialization_effects_follow_each_outcome() {
    let effects = materialization_effects(&vec![
        outcome(true, None, false, None),
        outcome(true, Some(4), true, None),
        outcome(false, None, false, None),
        outcome(false, Some(2), false, Some(true)),
    ])
    .unwrap();
    assert_eq!(effects.finding_refs, vec!["f-1", "f-1", "f-1"]);
    assert_eq!(effects.observation_refs, vec!["o-1", "o-1"]);
    assert_eq!(
        effects.effects,
        vec![
            FindingEffect::UpdateFinding { finding_id: "f-1".to_owned(), expected_version: 4 },
            FindingEffect::CreateObservation { observation_id: "o-1".to_owned() },
            FindingEffect::CreateFinding { finding_id: "f-1".to_owned() },
        ]
    );
    let differing = materialization_effects(&vec![outcome(false, None, false, Some(false))]);
    assert_eq!(differing.map(|e| e.effects.len()), Err(DataQualityPlanError::MaterializationPlanInvalid));
    assert_eq!(rule_tallies(&vec![outcome(true, None, false, None), outcome(false, None, false, None)]), Ok((2, 1)));
}

#[test]
fn materialization_inputs_must_be_stored_under_their_own_identity() {
    let entry = |key: &str, id: &str, version: i64| ExistingFindingEntry { key: key.to_owned(), finding_id: id.to_owned(), version };
    assert!(admit_materialization_inputs(&"rs".to_owned(), &"rs".to_owned(), &vec![entry("f", "f", 1)], &vec![]).is_ok());
    assert!(admit_materialization_inputs(&"rs".to_owned(), &"other".to_owned(), &vec![], &vec![]).is_err());
    assert!(admit_materialization_inputs(&"rs".to_owned(), &"rs".to_owned(), &vec![entry("f", "g", 1)], &vec![]).is_err());
    assert!(admit_materialization_inputs(&"rs".to_owned(), &"rs".to_owned(), &vec![entry("f", "f", 0)], &vec![]).is_err());
}

#[test]
fn replaying_a_recorded_materialization_writes_nothing() {
    let replay = materialization_effects(&vec![
        outcome(true, Some(4), false, None),
        outcome(false, Some(2), false, Some(true)),
    ])
    .unwrap();
    assert!(replay.effects.is_empty());
    assert_eq!(replay.finding_refs, vec!["f-1", "f-1"]);
    assert_eq!(replay.observation_refs, vec!["o-1"]);
    let first = materialization_effects(&vec![outcome(false, None, false, None)]).unwrap();
    assert_eq!(
        first.effects,
        vec![
            FindingEffect::CreateObservation { observation_id: "o-1".to_owned() },
            FindingEffect::CreateFinding { finding_id: "f-1".to_owned() },
        ]
    );
    let unknown_rule = MaterializedOutcome { rule_available: false, ..outcome(false, None, false, None) };
    assert_eq!(
        materialization_effects(&vec![unknown_rule]).map(|e| e.effects.len()),
        Err(DataQualityPlanError::MaterializationPlanInvalid)
    );
}

#[test]
fn materialization_identity_is_prefixed_lowercase_hex() {
    assert_eq!(materialization_identity(&[0x00, 0xab, 0x3f]), "dq-evaluation-materialize-00ab3f");
    assert_eq!(materialization_identity(&[]), "dq-evaluation-materialize-");
}
