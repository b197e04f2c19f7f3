//! The Data Quality owner policy for privacy actions: which record families
//! the privacy workflow may act on, the strict checks of a locked record
//! before an action, and the actions Data Quality does not support.
use vstd::prelude::*;
use crate::capability::{DataClass, PayloadEncoding};
use crate::dq_model::{
    FINDING_OBSERVATION_RECORD_TYPE, FINDING_RECORD_TYPE, MODULE_ID, PARTY_COMPLETENESS_RESULT_RECORD_TYPE,
    PARTY_EVALUATION_INPUT_RECORD_TYPE, PARTY_EVALUATION_JOB_RECORD_TYPE, REMEDIATION_ATTEMPT_RECORD_TYPE,
    RULE_OUTCOME_RECORD_TYPE,
};
use crate::privacy_records::PersistedPayloadContract;
use crate::text::{bytes_eq, str_eq};

verus! {

/// The capability through which the privacy workflow applies owner actions.
pub const OWNER_ACTION_CAPABILITY_ID: &'static str = "data_quality.privacy.action.apply";

/// Why an owner privacy action was refused.
#[derive(Debug, Clone, Copy, PartialEq, Eq, Structural)]
pub enum OwnerActionError {
    /// The locked record does not match its authoritative state.
    StoredStateInvalid,
    /// Data Quality evidence is retained in minimized form and supports no
    /// anonymization or deletion tombstone.
    Unsupported,
}

impl OwnerActionError {
    /// The code reported for this refusal.
    pub open spec fn error_code(self) -> &'static str {
        match self {
            OwnerActionError::StoredStateInvalid => "DATA_QUALITY_PRIVACY_STORED_STATE_INVALID",
            OwnerActionError::Unsupported => "CUSTOMER_PRIVACY_OWNER_ACTION_UNSUPPORTED",
        }
    }

    /// The stable error code reported to callers.
    pub fn code(&self) -> (r: &'static str)
        ensures
            r == self.error_code(),
    {
        match self {
            OwnerActionError::StoredStateInvalid => "DATA_QUALITY_PRIVACY_STORED_STATE_INVALID",
            OwnerActionError::Unsupported => "CUSTOMER_PRIVACY_OWNER_ACTION_UNSUPPORTED",
        }
    }
}

/// Metadata of the typed payload of a locked record.
pub struct StoredPayloadMeta {
    pub owner: String,
    pub schema_id: String,
    pub schema_version: String,
    pub descriptor_hash: Vec<u8>,
    pub data_class: DataClass,
    pub encoding: PayloadEncoding,
    pub maximum_size_bytes: u64,
    pub retention_policy_id: String,
}

/// A locked owner record and what its payload decoded to.
pub struct LockedOwnerRecord {
    pub record_type: String,
    pub record_id: String,
    pub payload: StoredPayloadMeta,
    pub decoded_id: String,
    pub decoded_tenant_id: String,
}

/// The seven record families that hold a subject's Data Quality evidence.
pub open spec fn is_evidence_record_type(t: Seq<char>) -> bool {
    ||| t == PARTY_EVALUATION_JOB_RECORD_TYPE@
    ||| t == PARTY_EVALUATION_INPUT_RECORD_TYPE@
    ||| t == RULE_OUTCOME_RECORD_TYPE@
    ||| t == FINDING_RECORD_TYPE@
    ||| t == FINDING_OBSERVATION_RECORD_TYPE@
    ||| t == PARTY_COMPLETENESS_RESULT_RECORD_TYPE@
    ||| t == REMEDIATION_ATTEMPT_RECORD_TYPE@
}

/// The families whose decoded state names its tenant.
pub open spec fn is_tenant_bound_record_type(t: Seq<char>) -> bool {
    ||| t == FINDING_RECORD_TYPE@
    ||| t == FINDING_OBSERVATION_RECORD_TYPE@
    ||| t == REMEDIATION_ATTEMPT_RECORD_TYPE@
}

fn is_evidence_type(t: &str) -> (r: bool)
    ensures
        r == is_evidence_record_type(t@),
{
    str_eq(t, PARTY_EVALUATION_JOB_RECORD_TYPE) || str_eq(t, PARTY_EVALUATION_INPUT_RECORD_TYPE)
        || str_eq(t, RULE_OUTCOME_RECORD_TYPE) || str_eq(t, FINDING_RECORD_TYPE)
        || str_eq(t, FINDING_OBSERVATION_RECORD_TYPE) || str_eq(t, PARTY_COMPLETENESS_RESULT_RECORD_TYPE)
        || str_eq(t, REMEDIATION_ATTEMPT_RECORD_TYPE)
}

/// The payload carries exactly the persisted contract, as personal JSON.
pub open spec fn payload_matches_contract(payload: StoredPayloadMeta, contract: PersistedPayloadContract) -> bool {
    &&& payload.owner@ == contract.owner@
    &&& payload.schema_id@ == contract.schema_id@
    &&& payload.schema_version@ == contract.schema_version@
    &&& payload.descriptor_hash@ == contract.descriptor_hash@
    &&& payload.data_class == DataClass::Personal
    &&& payload.encoding == PayloadEncoding::Json
    &&& payload.maximum_size_bytes == contract.maximum_size_bytes
    &&& payload.retention_policy_id@ == contract.retention_policy_id@
}

/// A locked record of `resource_type` is what the command may act on.
pub open spec fn locked_record_valid(
    command_tenant: Seq<char>,
    resource_type: Seq<char>,
    record: LockedOwnerRecord,
    contract: PersistedPayloadContract,
) -> bool {
    &&& is_evidence_record_type(resource_type)
    &&& payload_matches_contract(record.payload, contract)
    &&& is_tenant_bound_record_type(resource_type) ==> record.decoded_tenant_id@ == command_tenant
    &&& record.record_type@ == resource_type
    &&& record.record_id@ == record.decoded_id@
}

/// The Data Quality owner policy for privacy actions.
#[derive(Debug, Default, Clone, Copy)]
pub struct DataQualityPrivacyActionPolicy;

impl DataQualityPrivacyActionPolicy {
    /// The module that owns the records the policy acts on.
    pub fn owner_module_id(&self) -> (r: &'static str)
        ensures
            r == MODULE_ID,
    {
        MODULE_ID
    }

    /// The capability through which the policy is applied.
    pub fn capability_id(&self) -> (r: &'static str)
        ensures
            r == OWNER_ACTION_CAPABILITY_ID,
    {
        OWNER_ACTION_CAPABILITY_ID
    }

    /// Whether the privacy workflow may act on records of `resource_type`:
    /// exactly the seven evidence families, never a shared definition.
    pub fn supports_resource_type(&self, resource_type: &str) -> (r: bool)
        ensures
            r == is_evidence_record_type(resource_type@),
    {
        is_evidence_type(resource_type)
    }

    /// Checks a locked record before an action on it.
    pub fn validate_resource(
        &self,
        command_tenant: &String,
        resource_type: &str,
        record: &LockedOwnerRecord,
        contract: &PersistedPayloadContract,
    ) -> (r: Result<(), OwnerActionError>)
        ensures
            r is Ok <==> locked_record_valid(command_tenant@, resource_type@, *record, *contract),
            r is Err ==> r == Err::<(), OwnerActionError>(OwnerActionError::StoredStateInvalid),
    {
        if !is_evidence_type(resource_type) {
            return Err(OwnerActionError::StoredStateInvalid);
        }
        let payload = &record.payload;
        if payload.owner != contract.owner
            || payload.schema_id != contract.schema_id
            || payload.schema_version != contract.schema_version
            || !bytes_eq(payload.descriptor_hash.as_slice(), contract.descriptor_hash.as_slice())
            || payload.data_class != DataClass::Personal
            || payload.encoding != PayloadEncoding::Json
            || payload.maximum_size_bytes != contract.maximum_size_bytes
            || payload.retention_policy_id != contract.retention_policy_id
        {
            return Err(OwnerActionError::StoredStateInvalid);
        }
        let tenant_bound = str_eq(resource_type, FINDING_RECORD_TYPE) || str_eq(resource_type, FINDING_OBSERVATION_RECORD_TYPE)
            || str_eq(resource_type, REMEDIATION_ATTEMPT_RECORD_TYPE);
        if tenant_bound && record.decoded_tenant_id != *command_tenant {
            return Err(OwnerActionError::StoredStateInvalid);
        }
        if !str_eq(record.record_type.as_str(), resource_type) || record.record_id != record.decoded_id {
            return Err(OwnerActionError::StoredStateInvalid);
        }
        Ok(())
    }

    /// Anonymization of a locked record: refused as unsupported once the
    /// record is valid.
    pub fn anonymize(
        &self,
        command_tenant: &String,
        resource_type: &str,
        record: &LockedOwnerRecord,
        contract: &PersistedPayloadContract,
    ) -> (r: Result<(), OwnerActionError>)
        ensures
            r == Err::<(), OwnerActionError>(if locked_record_valid(command_tenant@, resource_type@, *record, *contract) {
                OwnerActionError::Unsupported
            } else {
                OwnerActionError::StoredStateInvalid
            }),
    {
        self.validate_resource(command_tenant, resource_type, record, contract)?;
        Err(OwnerActionError::Unsupported)
    }

    /// A deletion tombstone for a locked record: refused as unsupported once
    /// the record is valid.
    pub fn deletion_tombstone(
        &self,
        command_tenant: &String,
        resource_type: &str,
        record: &LockedOwnerRecord,
        contract: &PersistedPayloadContract,
    ) -> (r: Result<(), OwnerActionError>)
        ensures
            r == Err::<(), OwnerActionError>(if locked_record_valid(command_tenant@, resource_type@, *record, *contract) {
                OwnerActionError::Unsupported
            } else {
                OwnerActionError::StoredStateInvalid
            }),
    {
        self.validate_resource(command_tenant, resource_type, record, contract)?;
        Err(OwnerActionError::Unsupported)
    }
}


/// An owner action only ever touches a record of the kind it names, stored
/// at the identity it decodes to, whose payload is the persisted personal
/// JSON contract, and, for findings, observations and remediation attempts,
/// of the acting tenant; no other record type, such as a rule-set version,
/// is ever acted on.
pub proof fn owner_actions_touch_only_valid_evidence(command_tenant: Seq<char>, resource_type: Seq<char>,
    record: LockedOwnerRecord, contract: PersistedPayloadContract)
    ensures
        locked_record_valid(command_tenant, resource_type, record, contract) ==> {
            &&& record.record_type@ == resource_type
            &&& record.record_id@ == record.decoded_id@
            &&& record.payload.data_class == DataClass::Personal
            &&& record.payload.encoding == PayloadEncoding::Json
            &&& record.payload.schema_id@ == contract.schema_id@
            &&& record.payload.owner@ == contract.owner@
            &&& record.payload.descriptor_hash@ == contract.descriptor_hash@
            &&& (resource_type == FINDING_RECORD_TYPE@ ==> record.decoded_tenant_id@ == command_tenant)
            &&& (resource_type == FINDING_OBSERVATION_RECORD_TYPE@ ==> record.decoded_tenant_id@ == command_tenant)
            &&& (resource_type == REMEDIATION_ATTEMPT_RECORD_TYPE@ ==> record.decoded_tenant_id@ == command_tenant)
            &&& (resource_type == PARTY_EVALUATION_JOB_RECORD_TYPE@ || resource_type
                == PARTY_EVALUATION_INPUT_RECORD_TYPE@ || resource_type == RULE_OUTCOME_RECORD_TYPE@ || resource_type
                == FINDING_RECORD_TYPE@ || resource_type == FINDING_OBSERVATION_RECORD_TYPE@ || resource_type
                == PARTY_COMPLETENESS_RESULT_RECORD_TYPE@ || resource_type == REMEDIATION_ATTEMPT_RECORD_TYPE@)
        },
        record.record_type@ != resource_type ==> !locked_record_valid(command_tenant, resource_type, record, contract),
        record.payload.data_class != DataClass::Personal ==> !locked_record_valid(command_tenant, resource_type,
            record, contract),
{
}

} // verus!
