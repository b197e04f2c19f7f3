use crm_adapters::capability::{CapabilityDefinition, CapabilityRisk, DataClass, CONTRACT_VERSION};
use crm_adapters::dq_capability::{
    capability_definition, capability_definitions, ensure_immutable_version, evaluation_materialization_capability_definition,
    evaluation_stage_capability_definition, next_aggregate_version, DataQualityPlanError, MUTATION_CAPABILITY_IDS,
    PUBLISH_PARTY_COMPLETENESS_PROFILE_CAPABILITY, PUBLISH_PARTY_RULE_SET_CAPABILITY,
    REMEDIATE_PARTY_DISPLAY_NAME_CAPABILITY, STAGE_PARTY_EVALUATION_INPUT_CAPABILITY,
};
use crm_adapters::dq_model::MODULE_ID;
use crm_adapters::dq_stage::{
    DEFAULT_EVALUATION_STAGE_SCAN_PAGE_SIZE, EVALUATION_WORKER_ACTOR_ID, EVALUATION_WORKER_CAPABILITY_VERSION,
};

#[test]
fn mutation_catalog_has_exact_coordinates_and_data_classification() {
    let definitions = capability_definitions().unwrap();
    assert_eq!(definitions.len(), MUTATION_CAPABILITY_IDS.len());
    for (definition, expected_capability) in definitions.iter().zip(MUTATION_CAPABILITY_IDS) {
        assert_eq!(definition.capability_id.as_str(), expected_capability);
        assert_eq!(definition.owner_module_id.as_str(), MODULE_ID);
        assert_eq!(definition.capability_version.as_str(), CONTRACT_VERSION);
        let expected_class =
            if [PUBLISH_PARTY_RULE_SET_CAPABILITY, PUBLISH_PARTY_COMPLETENESS_PROFILE_CAPABILITY].contains(&expected_capability) {
                DataClass::Confidential
            } else {
                DataClass::Personal
            };
        assert_eq!(definition.input_contract.allowed_data_classes, vec![expected_class]);
        let expected_risk = if expected_capability == REMEDIATE_PARTY_DISPLAY_NAME_CAPABILITY {
            CapabilityRisk::High
        } else {
            CapabilityRisk::Medium
        };
        assert_eq!(definition.risk, expected_risk);
        assert!(definition.mutation);
        assert!(definition.requires_idempotency);
        assert!(!definition.requires_approval);
    }
}

#[test]
fn internal_evaluation_definitions_are_personal_and_not_publicly_catalogued() {
    for definition in [
        evaluation_stage_capability_definition().unwrap(),
        evaluation_materialization_capability_definition().unwrap(),
    ] {
        assert_eq!(definition.input_contract.allowed_data_classes, vec![DataClass::Personal]);
        assert!(!MUTATION_CAPABILITY_IDS.contains(&definition.capability_id.as_str()));
    }
}

#[test]
fn rule_set_publication_remains_exact_confidential_idempotent_surface() {
    let definition: CapabilityDefinition = capability_definition().unwrap();
    assert_eq!(definition.owner_module_id.as_str(), MODULE_ID);
    assert_eq!(definition.capability_id.as_str(), PUBLISH_PARTY_RULE_SET_CAPABILITY);
    assert_eq!(definition.authorization_policy_id, PUBLISH_PARTY_RULE_SET_CAPABILITY);
    assert_eq!(definition.input_contract.allowed_data_classes, vec![DataClass::Confidential]);
    assert_eq!(definition.output_contract.as_ref().unwrap().allowed_data_classes, vec![DataClass::Confidential]);
    assert_eq!(definition.risk, CapabilityRisk::Medium);
    assert!(definition.mutation);
    assert!(definition.requires_idempotency);
    assert!(!definition.requires_approval);
}

#[test]
fn staging_worker_surface_is_bounded_and_versioned() {
    assert!(DEFAULT_EVALUATION_STAGE_SCAN_PAGE_SIZE > 0);
    assert_eq!(EVALUATION_WORKER_ACTOR_ID, "crm-api-data-quality-evaluation-worker");
    assert_eq!(EVALUATION_WORKER_CAPABILITY_VERSION, "1.0.0");
    assert_eq!(STAGE_PARTY_EVALUATION_INPUT_CAPABILITY, "data_quality.party.evaluation.internal.stage");
    assert!(!MUTATION_CAPABILITY_IDS.contains(&STAGE_PARTY_EVALUATION_INPUT_CAPABILITY));
}

#[test]
fn immutable_definitions_are_only_ever_at_their_first_version() {
    assert!(ensure_immutable_version(1).is_ok());
    assert_eq!(ensure_immutable_version(2), Err(DataQualityPlanError::PersistedStateInvalid));
    assert_eq!(ensure_immutable_version(0), Err(DataQualityPlanError::PersistedStateInvalid));
    assert_eq!(DataQualityPlanError::PersistedStateInvalid.code(), "DATA_QUALITY_PERSISTED_STATE_INVALID");
}

#[test]
fn next_aggregate_version_refuses_overflow() {
    assert_eq!(next_aggregate_version(7, DataQualityPlanError::StagePlanInvalid), Ok(8));
    assert_eq!(
        next_aggregate_version(i64::MAX, DataQualityPlanError::StagePlanInvalid),
        Err(DataQualityPlanError::StagePlanInvalid)
    );
}
