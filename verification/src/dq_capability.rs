//! The governed Data Quality mutation surface: its capability coordinates,
//! its catalog, and the error vocabulary of its planners.
use vstd::prelude::*;
use crate::capability::{CapabilityDefinition, CapabilityRisk, DataClass, CONTRACT_VERSION, is_protobuf_definition,
    protobuf_definition};
use crate::dq_model::MODULE_ID;
use crate::errors::ErrorCategory;

verus! {

pub const PUBLISH_PARTY_RULE_SET_CAPABILITY: &'static str = "data_quality.party.rule_set.publish";
pub const PUBLISH_PARTY_RULE_SET_REQUEST_SCHEMA: &'static str = "crm.data_quality.v1.PublishPartyRuleSetVersionRequest";
pub const PUBLISH_PARTY_RULE_SET_RESPONSE_SCHEMA: &'static str = "crm.data_quality.v1.PublishPartyRuleSetVersionResponse";
pub const PARTY_RULE_SET_PUBLISHED_EVENT_TYPE: &'static str = "data_quality.party.rule_set.published";
pub const PARTY_RULE_SET_PUBLISHED_EVENT_SCHEMA: &'static str = "crm.data_quality.v1.PartyRuleSetVersionPublishedEvent";

pub const PUBLISH_PARTY_COMPLETENESS_PROFILE_CAPABILITY: &'static str = "data_quality.party.completeness_profile.publish";
pub const PUBLISH_PARTY_COMPLETENESS_PROFILE_REQUEST_SCHEMA: &'static str =
    "crm.data_quality.v1.PublishPartyCompletenessProfileVersionRequest";
pub const PUBLISH_PARTY_COMPLETENESS_PROFILE_RESPONSE_SCHEMA: &'static str =
    "crm.data_quality.v1.PublishPartyCompletenessProfileVersionResponse";
pub const PARTY_COMPLETENESS_PROFILE_PUBLISHED_EVENT_TYPE: &'static str = "data_quality.party.completeness_profile.published";
pub const PARTY_COMPLETENESS_PROFILE_PUBLISHED_EVENT_SCHEMA: &'static str =
    "crm.data_quality.v1.PartyCompletenessProfileVersionPublishedEvent";

pub const REQUEST_PARTY_EVALUATION_CAPABILITY: &'static str = "data_quality.party.evaluation.request";
pub const REQUEST_PARTY_EVALUATION_REQUEST_SCHEMA: &'static str = "crm.data_quality.v1.RequestPartyEvaluationRequest";
pub const REQUEST_PARTY_EVALUATION_RESPONSE_SCHEMA: &'static str = "crm.data_quality.v1.RequestPartyEvaluationResponse";
pub const PARTY_EVALUATION_REQUESTED_EVENT_TYPE: &'static str = "data_quality.party.evaluation.requested";
pub const PARTY_EVALUATION_REQUESTED_EVENT_SCHEMA: &'static str = "crm.data_quality.v1.PartyEvaluationRequestedEvent";

pub const ASSIGN_FINDING_CAPABILITY: &'static str = "data_quality.finding.assign";
pub const ASSIGN_FINDING_REQUEST_SCHEMA: &'static str = "crm.data_quality.v1.AssignDataQualityFindingRequest";
pub const ASSIGN_FINDING_RESPONSE_SCHEMA: &'static str = "crm.data_quality.v1.AssignDataQualityFindingResponse";
pub const ACKNOWLEDGE_FINDING_CAPABILITY: &'static str = "data_quality.finding.acknowledge";
pub const ACKNOWLEDGE_FINDING_REQUEST_SCHEMA: &'static str = "crm.data_quality.v1.AcknowledgeDataQualityFindingRequest";
pub const ACKNOWLEDGE_FINDING_RESPONSE_SCHEMA: &'static str = "crm.data_quality.v1.AcknowledgeDataQualityFindingResponse";
pub const WAIVE_FINDING_CAPABILITY: &'static str = "data_quality.finding.waive";
pub const WAIVE_FINDING_REQUEST_SCHEMA: &'static str = "crm.data_quality.v1.WaiveDataQualityFindingRequest";
pub const WAIVE_FINDING_RESPONSE_SCHEMA: &'static str = "crm.data_quality.v1.WaiveDataQualityFindingResponse";
pub const FINDING_STATUS_CHANGED_EVENT_TYPE: &'static str = "data_quality.finding.status_changed";
pub const FINDING_STATUS_CHANGED_EVENT_SCHEMA: &'static str = "crm.data_quality.v1.DataQualityFindingStatusChangedEvent";
pub const FINDING_ASSIGNMENT_CHANGED_EVENT_TYPE: &'static str = "data_quality.finding.assignment_changed";
pub const FINDING_ASSIGNMENT_CHANGED_EVENT_SCHEMA: &'static str =
    "crm.data_quality.v1.DataQualityFindingAssignmentChangedEvent";

pub const STAGE_PARTY_EVALUATION_INPUT_CAPABILITY: &'static str = "data_quality.party.evaluation.internal.stage";
pub const STAGE_PARTY_EVALUATION_INPUT_REQUEST_SCHEMA: &'static str = "crm.data_quality.v1.StagePartyEvaluationInputRequest";
pub const STAGE_PARTY_EVALUATION_INPUT_RESPONSE_SCHEMA: &'static str = "crm.data_quality.v1.StagePartyEvaluationInputResponse";
pub const PARTY_EVALUATION_STAGED_EVENT_TYPE: &'static str = "data_quality.party.evaluation.staged";
pub const PARTY_EVALUATION_STAGED_EVENT_SCHEMA: &'static str = "crm.data_quality.v1.PartyEvaluationStagedEvent";

pub const MATERIALIZE_PARTY_EVALUATION_CAPABILITY: &'static str = "data_quality.party.evaluation.internal.materialize";
pub const MATERIALIZE_PARTY_EVALUATION_REQUEST_SCHEMA: &'static str = "crm.data_quality.v1.MaterializePartyEvaluationRequest";
pub const MATERIALIZE_PARTY_EVALUATION_RESPONSE_SCHEMA: &'static str = "crm.data_quality.v1.MaterializePartyEvaluationResponse";
pub const PARTY_EVALUATION_MATERIALIZED_EVENT_TYPE: &'static str = "data_quality.party.evaluation.materialized";
pub const PARTY_EVALUATION_MATERIALIZED_EVENT_SCHEMA: &'static str = "crm.data_quality.v1.PartyEvaluationMaterializedEvent";

pub const REMEDIATE_PARTY_DISPLAY_NAME_CAPABILITY: &'static str = "data_quality.party.display_name.remediate";
pub const REMEDIATE_PARTY_DISPLAY_NAME_REQUEST_SCHEMA: &'static str = "crm.data_quality.v1.RemediatePartyDisplayNameRequest";
pub const REMEDIATE_PARTY_DISPLAY_NAME_RESPONSE_SCHEMA: &'static str = "crm.data_quality.v1.RemediatePartyDisplayNameResponse";
pub const PARTY_REMEDIATION_COMPLETED_EVENT_TYPE: &'static str = "data_quality.party.remediation.completed";
pub const PARTY_REMEDIATION_COMPLETED_EVENT_SCHEMA: &'static str =
    "crm.data_quality.v1.PartyDisplayNameRemediationCompletedEvent";

/// The publicly catalogued mutations, in catalog order. The internal
/// evaluation staging and materialization capabilities are not among them.
pub const MUTATION_CAPABILITY_IDS: [&'static str; 7] = [
    PUBLISH_PARTY_RULE_SET_CAPABILITY,
    PUBLISH_PARTY_COMPLETENESS_PROFILE_CAPABILITY,
    REQUEST_PARTY_EVALUATION_CAPABILITY,
    ASSIGN_FINDING_CAPABILITY,
    ACKNOWLEDGE_FINDING_CAPABILITY,
    WAIVE_FINDING_CAPABILITY,
    REMEDIATE_PARTY_DISPLAY_NAME_CAPABILITY,
];

/// Why a Data Quality mutation could not be planned.
#[derive(Debug, Clone, Copy, PartialEq, Eq, Structural)]
pub enum DataQualityPlanError {
    ConfigurationInvalid,
    /// A persisted Data Quality record does not have the shape its type demands.
    PersistedStateInvalid,
    /// A required request reference is absent.
    MissingReference,
    /// A required wire definition is absent.
    MissingDefinition,
    /// A quality rule's severity is unspecified or unknown.
    InvalidSeverity,
    /// A quality rule names no evaluator.
    MissingEvaluator,
    /// The staged Party kind is neither a person nor an organization.
    InvalidPartyKind,
    /// The evaluator semantic version of a rule set is not the first version.
    InvalidEvaluatorSemanticVersion,
    /// The completeness semantic version of a profile is not the first version.
    InvalidCompletenessSemanticVersion,
    /// The rule-set reference of a completeness profile is empty.
    InvalidRuleSetReference,
    StageVersionConflict,
    StagePlanInvalid,
    FindingNotFound,
    FindingVersionConflict,
    FindingPlanInvalid,
    RuleSetPlanInvalid,
    CompletenessProfilePlanInvalid,
    MaterializationVersionConflict,
    MaterializationPlanInvalid,
    EvaluationPlanInvalid,
    RemediationPlanInvalid,
    /// A completeness profile names a rule-set version other than the one at hand.
    CompletenessRuleSetUnavailable,
}

impl DataQualityPlanError {
    /// The code reported for this refusal.
    pub open spec fn error_code(self) -> &'static str {
        match self {
            DataQualityPlanError::ConfigurationInvalid => "DATA_QUALITY_CONFIGURATION_INVALID",
            DataQualityPlanError::PersistedStateInvalid => "DATA_QUALITY_PERSISTED_STATE_INVALID",
            DataQualityPlanError::MissingReference
            | DataQualityPlanError::MissingDefinition
            | DataQualityPlanError::InvalidSeverity
            | DataQualityPlanError::MissingEvaluator
            | DataQualityPlanError::InvalidPartyKind
            | DataQualityPlanError::InvalidEvaluatorSemanticVersion
            | DataQualityPlanError::InvalidCompletenessSemanticVersion
            | DataQualityPlanError::InvalidRuleSetReference => "SDK_INVALID_ARGUMENT",
            DataQualityPlanError::StageVersionConflict => "DATA_QUALITY_EVALUATION_STAGE_VERSION_CONFLICT",
            DataQualityPlanError::StagePlanInvalid => "DATA_QUALITY_EVALUATION_STAGE_PLAN_INVALID",
            DataQualityPlanError::FindingNotFound => "DATA_QUALITY_FINDING_NOT_FOUND",
            DataQualityPlanError::FindingVersionConflict => "DATA_QUALITY_FINDING_VERSION_CONFLICT",
            DataQualityPlanError::FindingPlanInvalid => "DATA_QUALITY_FINDING_STEWARDSHIP_PLAN_INVALID",
            DataQualityPlanError::RuleSetPlanInvalid => "DATA_QUALITY_RULE_SET_CAPABILITY_PLAN_INVALID",
            DataQualityPlanError::MaterializationVersionConflict => "DATA_QUALITY_EVALUATION_MATERIALIZATION_VERSION_CONFLICT",
            DataQualityPlanError::MaterializationPlanInvalid => "DATA_QUALITY_EVALUATION_MATERIALIZATION_PLAN_INVALID",
            DataQualityPlanError::EvaluationPlanInvalid => "DATA_QUALITY_EVALUATION_CAPABILITY_PLAN_INVALID",
            DataQualityPlanError::RemediationPlanInvalid => "DATA_QUALITY_REMEDIATION_COMPLETION_PLAN_INVALID",
            DataQualityPlanError::CompletenessProfilePlanInvalid => "DATA_QUALITY_COMPLETENESS_PROFILE_CAPABILITY_PLAN_INVALID",
            DataQualityPlanError::CompletenessRuleSetUnavailable => "DATA_QUALITY_COMPLETENESS_RULE_SET_UNAVAILABLE",
        }
    }

    /// The stable error code reported to callers.
    pub fn code(&self) -> (r: &'static str)
        ensures
            r == self.error_code(),
    {
        match self {
            DataQualityPlanError::ConfigurationInvalid => "DATA_QUALITY_CONFIGURATION_INVALID",
            DataQualityPlanError::PersistedStateInvalid => "DATA_QUALITY_PERSISTED_STATE_INVALID",
            DataQualityPlanError::MissingReference
            | DataQualityPlanError::MissingDefinition
            | DataQualityPlanError::InvalidSeverity
            | DataQualityPlanError::MissingEvaluator
            | DataQualityPlanError::InvalidPartyKind
            | DataQualityPlanError::InvalidEvaluatorSemanticVersion
            | DataQualityPlanError::InvalidCompletenessSemanticVersion
            | DataQualityPlanError::InvalidRuleSetReference => "SDK_INVALID_ARGUMENT",
            DataQualityPlanError::StageVersionConflict => "DATA_QUALITY_EVALUATION_STAGE_VERSION_CONFLICT",
            DataQualityPlanError::StagePlanInvalid => "DATA_QUALITY_EVALUATION_STAGE_PLAN_INVALID",
            DataQualityPlanError::FindingNotFound => "DATA_QUALITY_FINDING_NOT_FOUND",
            DataQualityPlanError::FindingVersionConflict => "DATA_QUALITY_FINDING_VERSION_CONFLICT",
            DataQualityPlanError::FindingPlanInvalid => "DATA_QUALITY_FINDING_STEWARDSHIP_PLAN_INVALID",
            DataQualityPlanError::RuleSetPlanInvalid => "DATA_QUALITY_RULE_SET_CAPABILITY_PLAN_INVALID",
            DataQualityPlanError::MaterializationVersionConflict => "DATA_QUALITY_EVALUATION_MATERIALIZATION_VERSION_CONFLICT",
            DataQualityPlanError::MaterializationPlanInvalid => "DATA_QUALITY_EVALUATION_MATERIALIZATION_PLAN_INVALID",
            DataQualityPlanError::EvaluationPlanInvalid => "DATA_QUALITY_EVALUATION_CAPABILITY_PLAN_INVALID",
            DataQualityPlanError::RemediationPlanInvalid => "DATA_QUALITY_REMEDIATION_COMPLETION_PLAN_INVALID",
            DataQualityPlanError::CompletenessProfilePlanInvalid => "DATA_QUALITY_COMPLETENESS_PROFILE_CAPABILITY_PLAN_INVALID",
            DataQualityPlanError::CompletenessRuleSetUnavailable => "DATA_QUALITY_COMPLETENESS_RULE_SET_UNAVAILABLE",
        }
    }

    /// The category under which this refusal is reported.
    pub open spec fn error_category(self) -> ErrorCategory {
        match self {
            DataQualityPlanError::MissingReference
            | DataQualityPlanError::MissingDefinition
            | DataQualityPlanError::InvalidSeverity
            | DataQualityPlanError::MissingEvaluator
            | DataQualityPlanError::InvalidPartyKind
            | DataQualityPlanError::InvalidEvaluatorSemanticVersion
            | DataQualityPlanError::InvalidCompletenessSemanticVersion
            | DataQualityPlanError::InvalidRuleSetReference
            | DataQualityPlanError::CompletenessRuleSetUnavailable => ErrorCategory::InvalidArgument,
            DataQualityPlanError::StageVersionConflict
            | DataQualityPlanError::FindingVersionConflict
            | DataQualityPlanError::MaterializationVersionConflict => ErrorCategory::Conflict,
            DataQualityPlanError::FindingNotFound => ErrorCategory::NotFound,
            _ => ErrorCategory::Internal,
        }
    }

    /// The category under which the failure is reported.
    pub fn category(&self) -> (r: ErrorCategory)
        ensures
            r == self.error_category(),
    {
        match self {
            DataQualityPlanError::MissingReference
            | DataQualityPlanError::MissingDefinition
            | DataQualityPlanError::InvalidSeverity
            | DataQualityPlanError::MissingEvaluator
            | DataQualityPlanError::InvalidPartyKind
            | DataQualityPlanError::InvalidEvaluatorSemanticVersion
            | DataQualityPlanError::InvalidCompletenessSemanticVersion
            | DataQualityPlanError::InvalidRuleSetReference
            | DataQualityPlanError::CompletenessRuleSetUnavailable => ErrorCategory::InvalidArgument,
            DataQualityPlanError::StageVersionConflict
            | DataQualityPlanError::FindingVersionConflict
            | DataQualityPlanError::MaterializationVersionConflict => ErrorCategory::Conflict,
            DataQualityPlanError::FindingNotFound => ErrorCategory::NotFound,
            _ => ErrorCategory::Internal,
        }
    }
}

/// `d` is the governed mutation `id` of the Data Quality module: Protobuf
/// contracts admitting exactly `class`, idempotent, without approval.
pub open spec fn is_mutation_definition(
    d: CapabilityDefinition,
    id: Seq<char>,
    input: Seq<char>,
    output: Seq<char>,
    class: DataClass,
    risk: CapabilityRisk,
) -> bool {
    &&& is_protobuf_definition(d, id, MODULE_ID@, input, output, class)
    &&& d.risk == risk
    &&& d.mutation
    &&& d.requires_idempotency
    &&& !d.requires_approval
}

fn mutation_definition(id: &str, input: &str, output: &str, class: DataClass) -> (r: CapabilityDefinition)
    ensures
        is_mutation_definition(r, id@, input@, output@, class, CapabilityRisk::Medium),
{
    protobuf_definition(id, MODULE_ID, input, output, class, CapabilityRisk::Medium, true, true)
}

/// Publication of an immutable Party rule-set version: confidential.
pub fn rule_set_capability_definition() -> (r: Result<CapabilityDefinition, DataQualityPlanError>)
    ensures
        match r {
            Ok(d) => is_mutation_definition(d, PUBLISH_PARTY_RULE_SET_CAPABILITY@, PUBLISH_PARTY_RULE_SET_REQUEST_SCHEMA@,
                PUBLISH_PARTY_RULE_SET_RESPONSE_SCHEMA@, DataClass::Confidential, CapabilityRisk::Medium),
            Err(_) => false,
        },
{
    Ok(mutation_definition(PUBLISH_PARTY_RULE_SET_CAPABILITY, PUBLISH_PARTY_RULE_SET_REQUEST_SCHEMA,
        PUBLISH_PARTY_RULE_SET_RESPONSE_SCHEMA, DataClass::Confidential))
}

/// Publication of an immutable Party completeness-profile version: confidential.
pub fn completeness_profile_capability_definition() -> (r: Result<CapabilityDefinition, DataQualityPlanError>)
    ensures
        match r {
            Ok(d) => is_mutation_definition(d, PUBLISH_PARTY_COMPLETENESS_PROFILE_CAPABILITY@,
                PUBLISH_PARTY_COMPLETENESS_PROFILE_REQUEST_SCHEMA@, PUBLISH_PARTY_COMPLETENESS_PROFILE_RESPONSE_SCHEMA@,
                DataClass::Confidential, CapabilityRisk::Medium),
            Err(_) => false,
        },
{
    Ok(mutation_definition(PUBLISH_PARTY_COMPLETENESS_PROFILE_CAPABILITY, PUBLISH_PARTY_COMPLETENESS_PROFILE_REQUEST_SCHEMA,
        PUBLISH_PARTY_COMPLETENESS_PROFILE_RESPONSE_SCHEMA, DataClass::Confidential))
}

/// Request of a Party evaluation: personal.
pub fn evaluation_request_capability_definition() -> (r: Result<CapabilityDefinition, DataQualityPlanError>)
    ensures
        match r {
            Ok(d) => is_mutation_definition(d, REQUEST_PARTY_EVALUATION_CAPABILITY@, REQUEST_PARTY_EVALUATION_REQUEST_SCHEMA@,
                REQUEST_PARTY_EVALUATION_RESPONSE_SCHEMA@, DataClass::Personal, CapabilityRisk::Medium),
            Err(_) => false,
        },
{
    Ok(mutation_definition(REQUEST_PARTY_EVALUATION_CAPABILITY, REQUEST_PARTY_EVALUATION_REQUEST_SCHEMA,
        REQUEST_PARTY_EVALUATION_RESPONSE_SCHEMA, DataClass::Personal))
}

/// Assignment of a finding to a steward: personal.
pub fn finding_assign_capability_definition() -> (r: Result<CapabilityDefinition, DataQualityPlanError>)
    ensures
        match r {
            Ok(d) => is_mutation_definition(d, ASSIGN_FINDING_CAPABILITY@, ASSIGN_FINDING_REQUEST_SCHEMA@,
                ASSIGN_FINDING_RESPONSE_SCHEMA@, DataClass::Personal, CapabilityRisk::Medium),
            Err(_) => false,
        },
{
    Ok(mutation_definition(ASSIGN_FINDING_CAPABILITY, ASSIGN_FINDING_REQUEST_SCHEMA, ASSIGN_FINDING_RESPONSE_SCHEMA,
        DataClass::Personal))
}

/// Acknowledgement of a finding: personal.
pub fn finding_acknowledge_capability_definition() -> (r: Result<CapabilityDefinition, DataQualityPlanError>)
    ensures
        match r {
            Ok(d) => is_mutation_definition(d, ACKNOWLEDGE_FINDING_CAPABILITY@, ACKNOWLEDGE_FINDING_REQUEST_SCHEMA@,
                ACKNOWLEDGE_FINDING_RESPONSE_SCHEMA@, DataClass::Personal, CapabilityRisk::Medium),
            Err(_) => false,
        },
{
    Ok(mutation_definition(ACKNOWLEDGE_FINDING_CAPABILITY, ACKNOWLEDGE_FINDING_REQUEST_SCHEMA,
        ACKNOWLEDGE_FINDING_RESPONSE_SCHEMA, DataClass::Personal))
}

/// Waiver of a finding: personal.
pub fn finding_waive_capability_definition() -> (r: Result<CapabilityDefinition, DataQualityPlanError>)
    ensures
        match r {
            Ok(d) => is_mutation_definition(d, WAIVE_FINDING_CAPABILITY@, WAIVE_FINDING_REQUEST_SCHEMA@,
                WAIVE_FINDING_RESPONSE_SCHEMA@, DataClass::Personal, CapabilityRisk::Medium),
            Err(_) => false,
        },
{
    Ok(mutation_definition(WAIVE_FINDING_CAPABILITY, WAIVE_FINDING_REQUEST_SCHEMA, WAIVE_FINDING_RESPONSE_SCHEMA,
        DataClass::Personal))
}

/// The internal staging of a Party evaluation input: personal.
pub fn evaluation_stage_capability_definition() -> (r: Result<CapabilityDefinition, DataQualityPlanError>)
    ensures
        match r {
            Ok(d) => is_mutation_definition(d, STAGE_PARTY_EVALUATION_INPUT_CAPABILITY@,
                STAGE_PARTY_EVALUATION_INPUT_REQUEST_SCHEMA@, STAGE_PARTY_EVALUATION_INPUT_RESPONSE_SCHEMA@,
                DataClass::Personal, CapabilityRisk::Medium),
            Err(_) => false,
        },
{
    Ok(mutation_definition(STAGE_PARTY_EVALUATION_INPUT_CAPABILITY, STAGE_PARTY_EVALUATION_INPUT_REQUEST_SCHEMA,
        STAGE_PARTY_EVALUATION_INPUT_RESPONSE_SCHEMA, DataClass::Personal))
}

/// The internal materialization of a Party evaluation: personal.
pub fn evaluation_materialization_capability_definition() -> (r: Result<CapabilityDefinition, DataQualityPlanError>)
    ensures
        match r {
            Ok(d) => is_mutation_definition(d, MATERIALIZE_PARTY_EVALUATION_CAPABILITY@,
                MATERIALIZE_PARTY_EVALUATION_REQUEST_SCHEMA@, MATERIALIZE_PARTY_EVALUATION_RESPONSE_SCHEMA@,
                DataClass::Personal, CapabilityRisk::Medium),
            Err(_) => false,
        },
{
    Ok(mutation_definition(MATERIALIZE_PARTY_EVALUATION_CAPABILITY, MATERIALIZE_PARTY_EVALUATION_REQUEST_SCHEMA,
        MATERIALIZE_PARTY_EVALUATION_RESPONSE_SCHEMA, DataClass::Personal))
}

/// Remediation of a Party display name: personal and of high risk.
pub fn remediation_capability_definition() -> (r: Result<CapabilityDefinition, DataQualityPlanError>)
    ensures
        match r {
            Ok(d) => is_mutation_definition(d, REMEDIATE_PARTY_DISPLAY_NAME_CAPABILITY@,
                REMEDIATE_PARTY_DISPLAY_NAME_REQUEST_SCHEMA@, REMEDIATE_PARTY_DISPLAY_NAME_RESPONSE_SCHEMA@,
                DataClass::Personal, CapabilityRisk::High),
            Err(_) => false,
        },
{
    Ok(protobuf_definition(REMEDIATE_PARTY_DISPLAY_NAME_CAPABILITY, MODULE_ID, REMEDIATE_PARTY_DISPLAY_NAME_REQUEST_SCHEMA,
        REMEDIATE_PARTY_DISPLAY_NAME_RESPONSE_SCHEMA, DataClass::Personal, CapabilityRisk::High, true, true))
}

/// The default mutation of the module: rule-set publication.
pub fn capability_definition() -> (r: Result<CapabilityDefinition, DataQualityPlanError>)
    ensures
        match r {
            Ok(d) => is_mutation_definition(d, PUBLISH_PARTY_RULE_SET_CAPABILITY@, PUBLISH_PARTY_RULE_SET_REQUEST_SCHEMA@,
                PUBLISH_PARTY_RULE_SET_RESPONSE_SCHEMA@, DataClass::Confidential, CapabilityRisk::Medium),
            Err(_) => false,
        },
{
    rule_set_capability_definition()
}

/// The public mutation catalog, in the order of [`MUTATION_CAPABILITY_IDS`]:
/// the two publications are confidential, the rest personal; remediation
/// alone is of high risk.
pub fn capability_definitions() -> (r: Result<Vec<CapabilityDefinition>, DataQualityPlanError>)
    ensures
        match r {
            Ok(v) => {
                &&& v@.len() == 7
                &&& is_mutation_definition(v@[0], PUBLISH_PARTY_RULE_SET_CAPABILITY@, PUBLISH_PARTY_RULE_SET_REQUEST_SCHEMA@,
                    PUBLISH_PARTY_RULE_SET_RESPONSE_SCHEMA@, DataClass::Confidential, CapabilityRisk::Medium)
                &&& is_mutation_definition(v@[1], PUBLISH_PARTY_COMPLETENESS_PROFILE_CAPABILITY@,
                    PUBLISH_PARTY_COMPLETENESS_PROFILE_REQUEST_SCHEMA@, PUBLISH_PARTY_COMPLETENESS_PROFILE_RESPONSE_SCHEMA@,
                    DataClass::Confidential, CapabilityRisk::Medium)
                &&& is_mutation_definition(v@[2], REQUEST_PARTY_EVALUATION_CAPABILITY@,
                    REQUEST_PARTY_EVALUATION_REQUEST_SCHEMA@, REQUEST_PARTY_EVALUATION_RESPONSE_SCHEMA@,
                    DataClass::Personal, CapabilityRisk::Medium)
                &&& is_mutation_definition(v@[3], ASSIGN_FINDING_CAPABILITY@, ASSIGN_FINDING_REQUEST_SCHEMA@,
                    ASSIGN_FINDING_RESPONSE_SCHEMA@, DataClass::Personal, CapabilityRisk::Medium)
                &&& is_mutation_definition(v@[4], ACKNOWLEDGE_FINDING_CAPABILITY@, ACKNOWLEDGE_FINDING_REQUEST_SCHEMA@,
                    ACKNOWLEDGE_FINDING_RESPONSE_SCHEMA@, DataClass::Personal, CapabilityRisk::Medium)
                &&& is_mutation_definition(v@[5], WAIVE_FINDING_CAPABILITY@, WAIVE_FINDING_REQUEST_SCHEMA@,
                    WAIVE_FINDING_RESPONSE_SCHEMA@, DataClass::Personal, CapabilityRisk::Medium)
                &&& is_mutation_definition(v@[6], REMEDIATE_PARTY_DISPLAY_NAME_CAPABILITY@,
                    REMEDIATE_PARTY_DISPLAY_NAME_REQUEST_SCHEMA@, REMEDIATE_PARTY_DISPLAY_NAME_RESPONSE_SCHEMA@,
                    DataClass::Personal, CapabilityRisk::High)
            },
            Err(_) => false,
        },
{
    let mut v = Vec::new();
    v.push(rule_set_capability_definition()?);
    v.push(completeness_profile_capability_definition()?);
    v.push(evaluation_request_capability_definition()?);
    v.push(finding_assign_capability_definition()?);
    v.push(finding_acknowledge_capability_definition()?);
    v.push(finding_waive_capability_definition()?);
    v.push(remediation_capability_definition()?);
    Ok(v)
}

/// An immutable definition record is only ever at its first aggregate
/// version; any other version is corrupt persisted state.
pub fn ensure_immutable_version(version: i64) -> (r: Result<(), DataQualityPlanError>)
    ensures
        r is Ok <==> version == 1,
        r is Err ==> r == Err::<(), DataQualityPlanError>(DataQualityPlanError::PersistedStateInvalid),
{
    if version != 1 {
        return Err(DataQualityPlanError::PersistedStateInvalid);
    }
    Ok(())
}

/// The aggregate version a successful update writes: one past the current
/// one, refused as an invalid plan where it would overflow.
pub fn next_aggregate_version(current: i64, overflow: DataQualityPlanError) -> (r: Result<i64, DataQualityPlanError>)
    ensures
        current < i64::MAX ==> r == Ok::<i64, DataQualityPlanError>((current + 1) as i64),
        current == i64::MAX ==> r == Err::<i64, DataQualityPlanError>(overflow),
{
    match current.checked_add(1) {
        Some(v) => Ok(v),
        None => Err(overflow),
    }
}


/// Every Data Quality mutation definition is a mutation of the module that
/// requires an idempotency key and no approval, at the release contract
/// version, authorized by its own policy, with Protobuf payloads admitting
/// exactly its data class.
pub proof fn mutation_definitions_are_idempotent_mutations(d: CapabilityDefinition, id: Seq<char>, input: Seq<char>,
    output: Seq<char>, class: DataClass, risk: CapabilityRisk)
    requires
        is_mutation_definition(d, id, input, output, class, risk),
    ensures
        d.mutation && d.requires_idempotency && !d.requires_approval,
        d.risk == risk,
        d.owner_module_id@ == MODULE_ID@ && d.capability_id@ == id && d.authorization_policy_id@ == id,
        d.capability_version@ == CONTRACT_VERSION@,
        d.input_contract.schema_id@ == input && d.input_contract.allowed_data_classes@ == seq![class],
        d.output_contract is Some && d.output_contract->0.schema_id@ == output,
{
}

} // verus!
