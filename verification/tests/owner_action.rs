use crm_adapters::capability::{DataClass, PayloadEncoding};
use crm_adapters::dq_model::{
    FINDING_OBSERVATION_RECORD_TYPE, FINDING_RECORD_TYPE, MODULE_ID, PARTY_COMPLETENESS_RESULT_RECORD_TYPE,
    PARTY_EVALUATION_INPUT_RECORD_TYPE, PARTY_EVALUATION_JOB_RECORD_TYPE, REMEDIATION_ATTEMPT_RECORD_TYPE,
    RULE_OUTCOME_RECORD_TYPE,
};
use crm_adapters::privacy_owner_action::{
    DataQualityPrivacyActionPolicy, LockedOwnerRecord, OwnerActionError, StoredPayloadMeta, OWNER_ACTION_CAPABILITY_ID,
};
use crm_adapters::privacy_records::PersistedPayloadContract;

#[test]
fn supports_exactly_the_seven_discovered_resource_families() {
    let policy = DataQualityPrivacyActionPolicy;
    for resource_type in [
        PARTY_EVALUATION_JOB_RECORD_TYPE,
        PARTY_EVALUATION_INPUT_RECORD_TYPE,
        RULE_OUTCOME_RECORD_TYPE,
        FINDING_RECORD_TYPE,
        FINDING_OBSERVATION_RECORD_TYPE,
        PARTY_COMPLETENESS_RESULT_RECORD_TYPE,
        REMEDIATION_ATTEMPT_RECORD_TYPE,
    ] {
        assert!(policy.supports_resource_type(resource_type));
    }
    assert!(!policy.supports_resource_type("data_quality.rule_set_version"));
}

fn contract() -> PersistedPayloadContract {
    PersistedPayloadContract {
        owner: MODULE_ID.to_owned(),
        schema_id: "crm.data_quality.v1.PartyFinding".to_owned(),
        schema_version: "1".to_owned(),
        descriptor_hash: vec![7, 7],
        maximum_size_bytes: 4_096,
        retention_policy_id: "data-quality-evidence".to_owned(),
    }
}

fn locked(record_type: &str, tenant: &str) -> LockedOwnerRecord {
    LockedOwnerRecord {
        record_type: record_type.to_owned(),
        record_id: "finding-1".to_owned(),
        payload: StoredPayloadMeta {
            owner: MODULE_ID.to_owned(),
            schema_id: "crm.data_quality.v1.PartyFinding".to_owned(),
            schema_version: "1".to_owned(),
            descriptor_hash: vec![7, 7],
            data_class: DataClass::Personal,
            encoding: PayloadEncoding::Json,
            maximum_size_bytes: 4_096,
            retention_policy_id: "data-quality-evidence".to_owned(),
        },
        decoded_id: "finding-1".to_owned(),
        decoded_tenant_id: tenant.to_owned(),
    }
}

#[test]
fn owner_actions_validate_the_locked_record_then_refuse_as_unsupported() {
    let policy = DataQualityPrivacyActionPolicy;
    assert_eq!(policy.owner_module_id(), MODULE_ID);
    assert_eq!(policy.capability_id(), OWNER_ACTION_CAPABILITY_ID);
    let tenant = "tenant-a".to_owned();
    let record = locked(FINDING_RECORD_TYPE, "tenant-a");
    assert_eq!(policy.validate_resource(&tenant, FINDING_RECORD_TYPE, &record, &contract()), Ok(()));
    assert_eq!(policy.anonymize(&tenant, FINDING_RECORD_TYPE, &record, &contract()), Err(OwnerActionError::Unsupported));
    assert_eq!(
        policy.deletion_tombstone(&tenant, FINDING_RECORD_TYPE, &record, &contract()),
        Err(OwnerActionError::Unsupported)
    );
    let foreign = locked(FINDING_RECORD_TYPE, "tenant-b");
    assert_eq!(
        policy.anonymize(&tenant, FINDING_RECORD_TYPE, &foreign, &contract()),
        Err(OwnerActionError::StoredStateInvalid)
    );
    let job = locked(PARTY_EVALUATION_JOB_RECORD_TYPE, "tenant-b");
    assert_eq!(policy.validate_resource(&tenant, PARTY_EVALUATION_JOB_RECORD_TYPE, &job, &contract()), Ok(()));
    assert_eq!(
        policy.validate_resource(&tenant, FINDING_RECORD_TYPE, &job, &contract()),
        Err(OwnerActionError::StoredStateInvalid)
    );
    let mut renamed = locked(FINDING_RECORD_TYPE, "tenant-a");
    renamed.decoded_id = "finding-2".to_owned();
    assert_eq!(
        policy.validate_resource(&tenant, FINDING_RECORD_TYPE, &renamed, &contract()),
        Err(OwnerActionError::StoredStateInvalid)
    );
    let mut confidential = locked(FINDING_RECORD_TYPE, "tenant-a");
    confidential.payload.data_class = DataClass::Confidential;
    assert_eq!(
        policy.validate_resource(&tenant, FINDING_RECORD_TYPE, &confidential, &contract()),
        Err(OwnerActionError::StoredStateInvalid)
    );
    assert_eq!(
        policy.validate_resource(&tenant, "data_quality.party_rule_set_version", &record, &contract()),
        Err(OwnerActionError::StoredStateInvalid)
    );
    assert_eq!(OwnerActionError::Unsupported.code(), "CUSTOMER_PRIVACY_OWNER_ACTION_UNSUPPORTED");
}

#[test]
fn publishes_the_frozen_owner_action_coordinate() {
    let policy = DataQualityPrivacyActionPolicy;
    assert_eq!(policy.owner_module_id(), MODULE_ID);
    assert_eq!(policy.capability_id(), OWNER_ACTION_CAPABILITY_ID);
    assert_eq!(OWNER_ACTION_CAPABILITY_ID, "data_quality.privacy.action.apply");
}
