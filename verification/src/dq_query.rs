//! The read-only Data Quality query surface: its capability coordinates,
//! its catalog, and the checks that gate every query.
use vstd::prelude::*;
use crate::capability::{
    CapabilityDefinition, CapabilityRisk, DataClass, PayloadEncoding, CONTRACT_VERSION, is_protobuf_definition,
    protobuf_definition,
};
use crate::errors::ErrorCategory;
use crate::dq_model::MODULE_ID;
use crate::text::str_eq;
use vstd::string::StringSliceAdditionalSpecFns;

verus! {

pub const GET_PARTY_RULE_SET_CAPABILITY: &'static str = "data_quality.party.rule_set.get";
pub const GET_PARTY_RULE_SET_REQUEST_SCHEMA: &'static str = "crm.data_quality.v1.GetPartyRuleSetVersionRequest";
pub const GET_PARTY_RULE_SET_RESPONSE_SCHEMA: &'static str = "crm.data_quality.v1.GetPartyRuleSetVersionResponse";

pub const GET_PARTY_COMPLETENESS_PROFILE_CAPABILITY: &'static str = "data_quality.party.completeness_profile.get";
pub const GET_PARTY_COMPLETENESS_PROFILE_REQUEST_SCHEMA: &'static str =
    "crm.data_quality.v1.GetPartyCompletenessProfileVersionRequest";
pub const GET_PARTY_COMPLETENESS_PROFILE_RESPONSE_SCHEMA: &'static str =
    "crm.data_quality.v1.GetPartyCompletenessProfileVersionResponse";

pub const GET_PARTY_EVALUATION_JOB_CAPABILITY: &'static str = "data_quality.party.evaluation.get";
pub const GET_PARTY_EVALUATION_JOB_REQUEST_SCHEMA: &'static str = "crm.data_quality.v1.GetPartyEvaluationJobRequest";
pub const GET_PARTY_EVALUATION_JOB_RESPONSE_SCHEMA: &'static str = "crm.data_quality.v1.GetPartyEvaluationJobResponse";

pub const GET_FINDING_CAPABILITY: &'static str = "data_quality.finding.get";
pub const GET_FINDING_REQUEST_SCHEMA: &'static str = "crm.data_quality.v1.GetDataQualityFindingRequest";
pub const GET_FINDING_RESPONSE_SCHEMA: &'static str = "crm.data_quality.v1.GetDataQualityFindingResponse";

pub const LIST_FINDINGS_BY_PARTY_CAPABILITY: &'static str = "data_quality.finding.list_by_party";
pub const LIST_FINDINGS_BY_PARTY_REQUEST_SCHEMA: &'static str = "crm.data_quality.v1.ListDataQualityFindingsByPartyRequest";
pub const LIST_FINDINGS_BY_PARTY_RESPONSE_SCHEMA: &'static str = "crm.data_quality.v1.ListDataQualityFindingsByPartyResponse";

pub const LIST_ASSIGNED_FINDINGS_CAPABILITY: &'static str = "data_quality.finding.list_assigned";
pub const LIST_ASSIGNED_FINDINGS_REQUEST_SCHEMA: &'static str = "crm.data_quality.v1.ListAssignedDataQualityFindingsRequest";
pub const LIST_ASSIGNED_FINDINGS_RESPONSE_SCHEMA: &'static str = "crm.data_quality.v1.ListAssignedDataQualityFindingsResponse";

pub const GET_PARTY_COMPLETENESS_RESULT_CAPABILITY: &'static str = "data_quality.party.completeness.get";
pub const GET_PARTY_COMPLETENESS_RESULT_REQUEST_SCHEMA: &'static str = "crm.data_quality.v1.GetPartyCompletenessResultRequest";
pub const GET_PARTY_COMPLETENESS_RESULT_RESPONSE_SCHEMA: &'static str = "crm.data_quality.v1.GetPartyCompletenessResultResponse";

/// The query capabilities the module publishes: the two immutable
/// definition queries, in catalog order.
pub const QUERY_CAPABILITY_IDS: [&'static str; 2] = [GET_PARTY_RULE_SET_CAPABILITY, GET_PARTY_COMPLETENESS_PROFILE_CAPABILITY];

/// The extended query catalog, in catalog order: the definition queries
/// followed by the evaluation, finding and completeness queries.
pub const EXTENDED_QUERY_CAPABILITY_IDS: [&'static str; 7] = [
    GET_PARTY_RULE_SET_CAPABILITY,
    GET_PARTY_COMPLETENESS_PROFILE_CAPABILITY,
    GET_PARTY_EVALUATION_JOB_CAPABILITY,
    GET_FINDING_CAPABILITY,
    LIST_FINDINGS_BY_PARTY_CAPABILITY,
    LIST_ASSIGNED_FINDINGS_CAPABILITY,
    GET_PARTY_COMPLETENESS_RESULT_CAPABILITY,
];

pub const DEFAULT_PAGE_SIZE: u32 = 50;
pub const MAXIMUM_PAGE_SIZE: u32 = 200;
pub const MAXIMUM_VISIBILITY_SCAN_RECORDS: usize = 10_000;

/// Why a Data Quality query was refused.
#[derive(Debug, Clone, Copy, PartialEq, Eq, Structural)]
pub enum QueryError {
    RuleSetNotFound,
    CompletenessProfileNotFound,
    EvaluationJobNotFound,
    FindingNotFound,
    CompletenessResultNotFound,
    /// A completeness profile names a rule-set version that is missing.
    PersistedReferenceMissing,
    /// A finding names a current observation that is missing.
    PersistedObservationMissing,
    UnsupportedQuery,
    ConfigurationInvalid,
    CursorInvalid,
    ScanLimitExceeded,
    /// The finding status filter is not a known, specified status.
    InvalidStatusFilter,
    /// The finding severity filter is not a known, specified severity.
    InvalidSeverityFilter,
}

impl QueryError {
    /// The code reported for this refusal.
    pub open spec fn error_code(self) -> &'static str {
        match self {
            QueryError::RuleSetNotFound => "DATA_QUALITY_PARTY_RULE_SET_NOT_FOUND",
            QueryError::CompletenessProfileNotFound => "DATA_QUALITY_PARTY_COMPLETENESS_PROFILE_NOT_FOUND",
            QueryError::EvaluationJobNotFound => "DATA_QUALITY_PARTY_EVALUATION_NOT_FOUND",
            QueryError::FindingNotFound => "DATA_QUALITY_FINDING_NOT_FOUND",
            QueryError::CompletenessResultNotFound => "DATA_QUALITY_PARTY_COMPLETENESS_RESULT_NOT_FOUND",
            QueryError::PersistedReferenceMissing => "DATA_QUALITY_PERSISTED_STATE_INVALID",
            QueryError::PersistedObservationMissing => "DATA_QUALITY_PERSISTED_STATE_INVALID",
            QueryError::UnsupportedQuery => "DATA_QUALITY_QUERY_UNSUPPORTED",
            QueryError::ConfigurationInvalid => "DATA_QUALITY_QUERY_CONFIGURATION_INVALID",
            QueryError::CursorInvalid => "DATA_QUALITY_FINDING_QUERY_CURSOR_INVALID",
            QueryError::ScanLimitExceeded => "DATA_QUALITY_FINDING_QUERY_SCAN_LIMIT_EXCEEDED",
            QueryError::InvalidStatusFilter => "SDK_INVALID_ARGUMENT",
            QueryError::InvalidSeverityFilter => "SDK_INVALID_ARGUMENT",
        }
    }

    /// The stable error code reported to callers.
    pub fn code(&self) -> (r: &'static str)
        ensures
            r == self.error_code(),
    {
        match self {
            QueryError::RuleSetNotFound => "DATA_QUALITY_PARTY_RULE_SET_NOT_FOUND",
            QueryError::CompletenessProfileNotFound => "DATA_QUALITY_PARTY_COMPLETENESS_PROFILE_NOT_FOUND",
            QueryError::EvaluationJobNotFound => "DATA_QUALITY_PARTY_EVALUATION_NOT_FOUND",
            QueryError::FindingNotFound => "DATA_QUALITY_FINDING_NOT_FOUND",
            QueryError::CompletenessResultNotFound => "DATA_QUALITY_PARTY_COMPLETENESS_RESULT_NOT_FOUND",
            QueryError::PersistedReferenceMissing => "DATA_QUALITY_PERSISTED_STATE_INVALID",
            QueryError::PersistedObservationMissing => "DATA_QUALITY_PERSISTED_STATE_INVALID",
            QueryError::UnsupportedQuery => "DATA_QUALITY_QUERY_UNSUPPORTED",
            QueryError::ConfigurationInvalid => "DATA_QUALITY_QUERY_CONFIGURATION_INVALID",
            QueryError::CursorInvalid => "DATA_QUALITY_FINDING_QUERY_CURSOR_INVALID",
            QueryError::ScanLimitExceeded => "DATA_QUALITY_FINDING_QUERY_SCAN_LIMIT_EXCEEDED",
            QueryError::InvalidStatusFilter => "SDK_INVALID_ARGUMENT",
            QueryError::InvalidSeverityFilter => "SDK_INVALID_ARGUMENT",
        }
    }

    /// The category under which this refusal is reported.
    pub open spec fn error_category(self) -> ErrorCategory {
        match self {
            QueryError::RuleSetNotFound
            | QueryError::CompletenessProfileNotFound
            | QueryError::EvaluationJobNotFound
            | QueryError::FindingNotFound
            | QueryError::CompletenessResultNotFound => ErrorCategory::NotFound,
            QueryError::PersistedReferenceMissing
            | QueryError::PersistedObservationMissing
            | QueryError::ConfigurationInvalid => ErrorCategory::Internal,
            QueryError::ScanLimitExceeded => ErrorCategory::Unavailable,
            QueryError::UnsupportedQuery
            | QueryError::CursorInvalid
            | QueryError::InvalidStatusFilter
            | QueryError::InvalidSeverityFilter => ErrorCategory::InvalidArgument,
        }
    }

    /// The category under which the failure is reported.
    pub fn category(&self) -> (r: ErrorCategory)
        ensures
            r == self.error_category(),
    {
        match self {
            QueryError::RuleSetNotFound
            | QueryError::CompletenessProfileNotFound
            | QueryError::EvaluationJobNotFound
            | QueryError::FindingNotFound
            | QueryError::CompletenessResultNotFound => ErrorCategory::NotFound,
            QueryError::PersistedReferenceMissing
            | QueryError::PersistedObservationMissing
            | QueryError::ConfigurationInvalid => ErrorCategory::Internal,
            QueryError::ScanLimitExceeded => ErrorCategory::Unavailable,
            QueryError::UnsupportedQuery
            | QueryError::CursorInvalid
            | QueryError::InvalidStatusFilter
            | QueryError::InvalidSeverityFilter => ErrorCategory::InvalidArgument,
        }
    }

    /// Whether the caller may retry the same request later.
    pub fn retryable(&self) -> (r: bool)
        ensures
            r == (*self == QueryError::ScanLimitExceeded),
    {
        match self {
            QueryError::ScanLimitExceeded => true,
            _ => false,
        }
    }
}

/// Whether `id` is one of the query capabilities the module publishes.
pub open spec fn is_query_capability(id: Seq<char>) -> bool {
    ||| id == GET_PARTY_RULE_SET_CAPABILITY@
    ||| id == GET_PARTY_COMPLETENESS_PROFILE_CAPABILITY@
}

/// Whether `id` is one of the extended catalog's query capabilities.
pub open spec fn is_extended_query_capability(id: Seq<char>) -> bool {
    ||| is_query_capability(id)
    ||| id == GET_PARTY_EVALUATION_JOB_CAPABILITY@
    ||| id == GET_FINDING_CAPABILITY@
    ||| id == LIST_FINDINGS_BY_PARTY_CAPABILITY@
    ||| id == LIST_ASSIGNED_FINDINGS_CAPABILITY@
    ||| id == GET_PARTY_COMPLETENESS_RESULT_CAPABILITY@
}

/// Executable form of [`is_query_capability`].
pub fn is_query_capability_id(id: &str) -> (r: bool)
    ensures
        r == is_query_capability(id@),
{
    str_eq(id, GET_PARTY_RULE_SET_CAPABILITY) || str_eq(id, GET_PARTY_COMPLETENESS_PROFILE_CAPABILITY)
}

/// Executable form of [`is_extended_query_capability`].
pub fn is_extended_query_capability_id(id: &str) -> (r: bool)
    ensures
        r == is_extended_query_capability(id@),
{
    is_query_capability_id(id) || str_eq(id, GET_PARTY_EVALUATION_JOB_CAPABILITY) || str_eq(id, GET_FINDING_CAPABILITY)
        || str_eq(id, LIST_FINDINGS_BY_PARTY_CAPABILITY) || str_eq(id, LIST_ASSIGNED_FINDINGS_CAPABILITY)
        || str_eq(id, GET_PARTY_COMPLETENESS_RESULT_CAPABILITY)
}

/// Refuses a definition that is not one of the query capabilities this
/// module publishes.
pub fn ensure_definition(definition: &CapabilityDefinition) -> (r: Result<(), QueryError>)
    ensures
        r is Ok <==> is_query_capability(definition.capability_id@) && definition.owner_module_id@ == MODULE_ID@,
        r is Err ==> r == Err::<(), QueryError>(QueryError::UnsupportedQuery),
{
    if !is_query_capability_id(definition.capability_id.as_str())
        || !str_eq(definition.owner_module_id.as_str(), MODULE_ID)
    {
        return Err(QueryError::UnsupportedQuery);
    }
    Ok(())
}

/// Refuses a definition that is not one of the extended catalog's query
/// capabilities.
pub fn ensure_extended_definition(definition: &CapabilityDefinition) -> (r: Result<(), QueryError>)
    ensures
        r is Ok <==> is_extended_query_capability(definition.capability_id@)
            && definition.owner_module_id@ == MODULE_ID@,
        r is Err ==> r == Err::<(), QueryError>(QueryError::UnsupportedQuery),
{
    if !is_extended_query_capability_id(definition.capability_id.as_str())
        || !str_eq(definition.owner_module_id.as_str(), MODULE_ID)
    {
        return Err(QueryError::UnsupportedQuery);
    }
    Ok(())
}

/// `d` is the read-only query definition of `id`, owned by this module.
pub open spec fn is_query_definition(
    d: CapabilityDefinition,
    id: Seq<char>,
    input: Seq<char>,
    output: Seq<char>,
    class: DataClass,
) -> bool {
    &&& is_protobuf_definition(d, id, MODULE_ID@, input, output, class)
    &&& d.risk == CapabilityRisk::Low
    &&& !d.mutation
    &&& !d.requires_idempotency
    &&& !d.requires_approval
}

fn query_definition(id: &str, input: &str, output: &str, class: DataClass) -> (r: CapabilityDefinition)
    ensures
        is_query_definition(r, id@, input@, output@, class),
{
    protobuf_definition(id, MODULE_ID, input, output, class, CapabilityRisk::Low, false, false)
}

/// The Party rule-set version query: confidential and read-only.
pub fn rule_set_query_capability_definition() -> (r: Result<CapabilityDefinition, QueryError>)
    ensures
        match r {
            Ok(d) => is_query_definition(d, GET_PARTY_RULE_SET_CAPABILITY@, GET_PARTY_RULE_SET_REQUEST_SCHEMA@,
                GET_PARTY_RULE_SET_RESPONSE_SCHEMA@, DataClass::Confidential),
            Err(_) => false,
        },
{
    Ok(query_definition(GET_PARTY_RULE_SET_CAPABILITY, GET_PARTY_RULE_SET_REQUEST_SCHEMA,
        GET_PARTY_RULE_SET_RESPONSE_SCHEMA, DataClass::Confidential))
}

/// The Party completeness-profile version query: confidential and read-only.
pub fn completeness_profile_query_capability_definition() -> (r: Result<CapabilityDefinition, QueryError>)
    ensures
        match r {
            Ok(d) => is_query_definition(d, GET_PARTY_COMPLETENESS_PROFILE_CAPABILITY@,
                GET_PARTY_COMPLETENESS_PROFILE_REQUEST_SCHEMA@, GET_PARTY_COMPLETENESS_PROFILE_RESPONSE_SCHEMA@,
                DataClass::Confidential),
            Err(_) => false,
        },
{
    Ok(query_definition(GET_PARTY_COMPLETENESS_PROFILE_CAPABILITY, GET_PARTY_COMPLETENESS_PROFILE_REQUEST_SCHEMA,
        GET_PARTY_COMPLETENESS_PROFILE_RESPONSE_SCHEMA, DataClass::Confidential))
}

/// The Party evaluation job query: personal and read-only.
pub fn evaluation_job_query_capability_definition() -> (r: Result<CapabilityDefinition, QueryError>)
    ensures
        match r {
            Ok(d) => is_query_definition(d, GET_PARTY_EVALUATION_JOB_CAPABILITY@,
                GET_PARTY_EVALUATION_JOB_REQUEST_SCHEMA@, GET_PARTY_EVALUATION_JOB_RESPONSE_SCHEMA@,
                DataClass::Personal),
            Err(_) => false,
        },
{
    Ok(query_definition(GET_PARTY_EVALUATION_JOB_CAPABILITY, GET_PARTY_EVALUATION_JOB_REQUEST_SCHEMA,
        GET_PARTY_EVALUATION_JOB_RESPONSE_SCHEMA, DataClass::Personal))
}

/// The Data Quality finding query: personal and read-only.
pub fn finding_query_capability_definition() -> (r: Result<CapabilityDefinition, QueryError>)
    ensures
        match r {
            Ok(d) => is_query_definition(d, GET_FINDING_CAPABILITY@, GET_FINDING_REQUEST_SCHEMA@,
                GET_FINDING_RESPONSE_SCHEMA@, DataClass::Personal),
            Err(_) => false,
        },
{
    Ok(query_definition(GET_FINDING_CAPABILITY, GET_FINDING_REQUEST_SCHEMA, GET_FINDING_RESPONSE_SCHEMA,
        DataClass::Personal))
}

/// The findings-by-Party list query: personal and read-only.
pub fn list_findings_by_party_query_capability_definition() -> (r: Result<CapabilityDefinition, QueryError>)
    ensures
        match r {
            Ok(d) => is_query_definition(d, LIST_FINDINGS_BY_PARTY_CAPABILITY@, LIST_FINDINGS_BY_PARTY_REQUEST_SCHEMA@,
                LIST_FINDINGS_BY_PARTY_RESPONSE_SCHEMA@, DataClass::Personal),
            Err(_) => false,
        },
{
    Ok(query_definition(LIST_FINDINGS_BY_PARTY_CAPABILITY, LIST_FINDINGS_BY_PARTY_REQUEST_SCHEMA,
        LIST_FINDINGS_BY_PARTY_RESPONSE_SCHEMA, DataClass::Personal))
}

/// The assigned-findings list query: personal and read-only.
pub fn list_assigned_findings_query_capability_definition() -> (r: Result<CapabilityDefinition, QueryError>)
    ensures
        match r {
            Ok(d) => is_query_definition(d, LIST_ASSIGNED_FINDINGS_CAPABILITY@, LIST_ASSIGNED_FINDINGS_REQUEST_SCHEMA@,
                LIST_ASSIGNED_FINDINGS_RESPONSE_SCHEMA@, DataClass::Personal),
            Err(_) => false,
        },
{
    Ok(query_definition(LIST_ASSIGNED_FINDINGS_CAPABILITY, LIST_ASSIGNED_FINDINGS_REQUEST_SCHEMA,
        LIST_ASSIGNED_FINDINGS_RESPONSE_SCHEMA, DataClass::Personal))
}

/// The Party completeness result query: personal and read-only.
pub fn completeness_result_query_capability_definition() -> (r: Result<CapabilityDefinition, QueryError>)
    ensures
        match r {
            Ok(d) => is_query_definition(d, GET_PARTY_COMPLETENESS_RESULT_CAPABILITY@,
                GET_PARTY_COMPLETENESS_RESULT_REQUEST_SCHEMA@, GET_PARTY_COMPLETENESS_RESULT_RESPONSE_SCHEMA@,
                DataClass::Personal),
            Err(_) => false,
        },
{
    Ok(query_definition(GET_PARTY_COMPLETENESS_RESULT_CAPABILITY, GET_PARTY_COMPLETENESS_RESULT_REQUEST_SCHEMA,
        GET_PARTY_COMPLETENESS_RESULT_RESPONSE_SCHEMA, DataClass::Personal))
}

/// The default query definition of the module: the rule-set version query.
pub fn query_capability_definition() -> (r: Result<CapabilityDefinition, QueryError>)
    ensures
        match r {
            Ok(d) => is_query_definition(d, GET_PARTY_RULE_SET_CAPABILITY@, GET_PARTY_RULE_SET_REQUEST_SCHEMA@,
                GET_PARTY_RULE_SET_RESPONSE_SCHEMA@, DataClass::Confidential),
            Err(_) => false,
        },
{
    rule_set_query_capability_definition()
}

/// The query catalog the module publishes, in the order of
/// [`QUERY_CAPABILITY_IDS`]: the two immutable definition queries,
/// confidential and read-only.
pub fn query_capability_definitions() -> (r: Result<Vec<CapabilityDefinition>, QueryError>)
    ensures
        match r {
            Ok(v) => {
                &&& v@.len() == 2
                &&& is_query_definition(v@[0], GET_PARTY_RULE_SET_CAPABILITY@, GET_PARTY_RULE_SET_REQUEST_SCHEMA@,
                    GET_PARTY_RULE_SET_RESPONSE_SCHEMA@, DataClass::Confidential)
                &&& is_query_definition(v@[1], GET_PARTY_COMPLETENESS_PROFILE_CAPABILITY@,
                    GET_PARTY_COMPLETENESS_PROFILE_REQUEST_SCHEMA@, GET_PARTY_COMPLETENESS_PROFILE_RESPONSE_SCHEMA@,
                    DataClass::Confidential)
            },
            Err(_) => false,
        },
{
    let mut v = Vec::new();
    v.push(rule_set_query_capability_definition()?);
    v.push(completeness_profile_query_capability_definition()?);
    Ok(v)
}

/// The extended query catalog, in the order of
/// [`EXTENDED_QUERY_CAPABILITY_IDS`]: the two immutable definition queries
/// are confidential, the five evaluation, finding and completeness queries
/// personal, and every one read-only.
pub fn extended_query_capability_definitions() -> (r: Result<Vec<CapabilityDefinition>, QueryError>)
    ensures
        match r {
            Ok(v) => {
                &&& v@.len() == 7
                &&& is_query_definition(v@[0], GET_PARTY_RULE_SET_CAPABILITY@, GET_PARTY_RULE_SET_REQUEST_SCHEMA@,
                    GET_PARTY_RULE_SET_RESPONSE_SCHEMA@, DataClass::Confidential)
                &&& is_query_definition(v@[1], GET_PARTY_COMPLETENESS_PROFILE_CAPABILITY@,
                    GET_PARTY_COMPLETENESS_PROFILE_REQUEST_SCHEMA@, GET_PARTY_COMPLETENESS_PROFILE_RESPONSE_SCHEMA@,
                    DataClass::Confidential)
                &&& is_query_definition(v@[2], GET_PARTY_EVALUATION_JOB_CAPABILITY@,
                    GET_PARTY_EVALUATION_JOB_REQUEST_SCHEMA@, GET_PARTY_EVALUATION_JOB_RESPONSE_SCHEMA@,
                    DataClass::Personal)
                &&& is_query_definition(v@[3], GET_FINDING_CAPABILITY@, GET_FINDING_REQUEST_SCHEMA@,
                    GET_FINDING_RESPONSE_SCHEMA@, DataClass::Personal)
                &&& is_query_definition(v@[4], LIST_FINDINGS_BY_PARTY_CAPABILITY@,
                    LIST_FINDINGS_BY_PARTY_REQUEST_SCHEMA@, LIST_FINDINGS_BY_PARTY_RESPONSE_SCHEMA@,
                    DataClass::Personal)
                &&& is_query_definition(v@[5], LIST_ASSIGNED_FINDINGS_CAPABILITY@,
                    LIST_ASSIGNED_FINDINGS_REQUEST_SCHEMA@, LIST_ASSIGNED_FINDINGS_RESPONSE_SCHEMA@,
                    DataClass::Personal)
                &&& is_query_definition(v@[6], GET_PARTY_COMPLETENESS_RESULT_CAPABILITY@,
                    GET_PARTY_COMPLETENESS_RESULT_REQUEST_SCHEMA@, GET_PARTY_COMPLETENESS_RESULT_RESPONSE_SCHEMA@,
                    DataClass::Personal)
            },
            Err(_) => false,
        },
{
    let mut v = Vec::new();
    v.push(rule_set_query_capability_definition()?);
    v.push(completeness_profile_query_capability_definition()?);
    v.push(evaluation_job_query_capability_definition()?);
    v.push(finding_query_capability_definition()?);
    v.push(list_findings_by_party_query_capability_definition()?);
    v.push(list_assigned_findings_query_capability_definition()?);
    v.push(completeness_result_query_capability_definition()?);
    Ok(v)
}

} // verus!

verus! {

/// The byte that fills the development cursor key used when no signing
/// secret of full length is configured.
pub const DEVELOPMENT_CURSOR_KEY_BYTE: u8 = 0x44;

/// The cursor signing key for a configured secret: its first 32 bytes when
/// it has at least that many, the development key otherwise.
pub open spec fn cursor_key(configured: Option<Seq<u8>>) -> Seq<u8> {
    match configured {
        Some(bytes) => if bytes.len() >= 32 {
            bytes.take(32)
        } else {
            Seq::new(32, |i: int| DEVELOPMENT_CURSOR_KEY_BYTE)
        },
        None => Seq::new(32, |i: int| DEVELOPMENT_CURSOR_KEY_BYTE),
    }
}

/// The key that signs finding-list cursors, from the configured secret.
pub fn cursor_signing_key(configured: Option<&str>) -> (r: [u8; 32])
    ensures
        r@ == cursor_key(match configured {
            Some(v) => Some(v.spec_bytes()),
            None => None,
        }),
{
    let mut key: [u8; 32] = [DEVELOPMENT_CURSOR_KEY_BYTE; 32];
    assert(key@ =~= Seq::new(32, |i: int| DEVELOPMENT_CURSOR_KEY_BYTE));
    if let Some(value) = configured {
        let bytes = value.as_bytes();
        if bytes.len() >= 32 {
            let mut i: usize = 0;
            while i < 32
                invariant
                    i <= 32,
                    bytes@.len() >= 32,
                    key@.len() == 32,
                    forall|j: int| 0 <= j < i ==> key@[j] == bytes@[j],
                decreases 32 - i,
            {
                key[i] = bytes[i];
                i = i + 1;
            }
            assert(key@ =~= bytes@.take(32));
        }
    }
    key
}


/// Every Data Quality query definition is a read-only, low-risk coordinate
/// of the module, at the release contract version, authorized by its own
/// policy, that takes and returns Protobuf payloads admitting exactly its
/// data class.
pub proof fn query_definitions_are_read_only(d: CapabilityDefinition, id: Seq<char>, input: Seq<char>,
    output: Seq<char>, class: DataClass)
    requires
        is_query_definition(d, id, input, output, class),
    ensures
        !d.mutation && !d.requires_idempotency && !d.requires_approval,
        d.risk == CapabilityRisk::Low,
        d.owner_module_id@ == MODULE_ID@ && d.capability_id@ == id && d.authorization_policy_id@ == id,
        d.capability_version@ == CONTRACT_VERSION@,
        d.input_contract.schema_id@ == input && d.input_contract.allowed_data_classes@ == seq![class],
        d.input_contract.allowed_encodings@ == seq![PayloadEncoding::Protobuf],
        d.output_contract is Some && d.output_contract->0.schema_id@ == output
            && d.output_contract->0.allowed_data_classes@ == seq![class],
{
}

} // verus!
