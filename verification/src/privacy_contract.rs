//! The frozen coordinates and bounds of the Data Quality privacy-scope
//! contribution, and the failures it reports.
use vstd::prelude::*;
use crate::capability::{CapabilityDefinition, CapabilityRisk, DataClass, PayloadContract, PayloadEncoding};
use crate::dq_model::MODULE_ID;
use crate::errors::ErrorCategory;
use crate::text::str_eq;

verus! {

pub const CAPABILITY_ID: &'static str = "data_quality.privacy.scope.contribute";
pub const CAPABILITY_VERSION: &'static str = "1.0.0";
pub const INPUT_SCHEMA_ID: &'static str = "crm.customer_privacy.v1.DataQualityPrivacyScopeContributionRequest";
pub const OUTPUT_SCHEMA_ID: &'static str = "crm.customer_privacy.v1.DataQualityPrivacyScopeContributionResponse";
pub const CONTRACT_SCHEMA_VERSION: &'static str = "1.0.0";
pub const INPUT_MAXIMUM_BYTES: u64 = 16 * 1024;
pub const OUTPUT_MAXIMUM_BYTES: u64 = 256 * 1024;
pub const INPUT_RETENTION_POLICY_ID: &'static str = "crm.data-quality.privacy.scope.request";
pub const OUTPUT_RETENTION_POLICY_ID: &'static str = "crm.data-quality.privacy.scope.response";
pub const DEFAULT_PAGE_SIZE: u32 = 64;
pub const MAXIMUM_PAGE_SIZE: u32 = 128;
pub const MAXIMUM_CURSOR_BYTES: usize = 2_048;

pub const MAX_PRIVACY_EVALUATION_JOBS_SCANNED: usize = 8_192;
pub const MAX_PRIVACY_EVALUATION_INPUTS_SCANNED: usize = 8_192;
pub const MAX_PRIVACY_RULE_OUTCOMES_SCANNED: usize = 32_768;
pub const MAX_PRIVACY_FINDINGS_SCANNED: usize = 16_384;
pub const MAX_PRIVACY_FINDING_OBSERVATIONS_SCANNED: usize = 32_768;
pub const MAX_PRIVACY_COMPLETENESS_RESULTS_SCANNED: usize = 8_192;
pub const MAX_PRIVACY_REMEDIATION_ATTEMPTS_SCANNED: usize = 8_192;
pub const MAX_PRIVACY_DEFINITION_RECORDS_REHYDRATED: usize = 8_192;
pub const MAX_PRIVACY_ASSOCIATION_RECORDS_REHYDRATED: usize = 65_536;
pub const MAX_PRIVACY_CANONICAL_PARTY_RESOLUTIONS: usize = 65_536;
pub const MAX_PRIVACY_OWNER_RECORDS_SCANNED: usize = 65_536;
pub const PRIVACY_OWNER_SCAN_BATCH_SIZE: i64 = 512;

/// Why a privacy-scope contribution could not be produced.
#[derive(Debug, Clone, Copy, PartialEq, Eq, Structural)]
pub enum PrivacyScopeError {
    /// Records disagree with the lineage that binds them together.
    AssociationStateInvalid,
    /// A frozen scan or rehydration bound was exceeded.
    ScanLimitExceeded,
    /// A persisted record does not match its authoritative contract.
    StoredStateInvalid,
    /// A canonical Party could not be resolved.
    CanonicalResolutionUnavailable,
    /// The Identity Resolution topology changed during discovery.
    TopologyGenerationStale,
    /// The capability definition is not the contribution's own.
    DefinitionMismatch,
}

impl PrivacyScopeError {
    /// The code reported for this refusal.
    pub open spec fn error_code(self) -> &'static str {
        match self {
            PrivacyScopeError::AssociationStateInvalid => "DATA_QUALITY_PRIVACY_ASSOCIATION_STATE_INVALID",
            PrivacyScopeError::ScanLimitExceeded => "DATA_QUALITY_PRIVACY_SCAN_LIMIT_EXCEEDED",
            PrivacyScopeError::StoredStateInvalid => "DATA_QUALITY_PRIVACY_STORED_STATE_INVALID",
            PrivacyScopeError::CanonicalResolutionUnavailable => "DATA_QUALITY_PRIVACY_CANONICAL_RESOLUTION_UNAVAILABLE",
            PrivacyScopeError::TopologyGenerationStale => "DATA_QUALITY_PRIVACY_LINEAGE_INVALID",
            PrivacyScopeError::DefinitionMismatch => "DATA_QUALITY_PRIVACY_SCOPE_DEFINITION_MISMATCH",
        }
    }

    /// The stable error code reported to callers.
    pub fn code(&self) -> (r: &'static str)
        ensures
            r == self.error_code(),
    {
        match self {
            PrivacyScopeError::AssociationStateInvalid => "DATA_QUALITY_PRIVACY_ASSOCIATION_STATE_INVALID",
            PrivacyScopeError::ScanLimitExceeded => "DATA_QUALITY_PRIVACY_SCAN_LIMIT_EXCEEDED",
            PrivacyScopeError::StoredStateInvalid => "DATA_QUALITY_PRIVACY_STORED_STATE_INVALID",
            PrivacyScopeError::CanonicalResolutionUnavailable => "DATA_QUALITY_PRIVACY_CANONICAL_RESOLUTION_UNAVAILABLE",
            PrivacyScopeError::TopologyGenerationStale => "DATA_QUALITY_PRIVACY_LINEAGE_INVALID",
            PrivacyScopeError::DefinitionMismatch => "DATA_QUALITY_PRIVACY_SCOPE_DEFINITION_MISMATCH",
        }
    }

    /// The category under which the failure is reported.
    pub fn category(&self) -> (r: ErrorCategory)
        ensures
            r == self.spec_category(),
    {
        match self {
            PrivacyScopeError::AssociationStateInvalid => ErrorCategory::Internal,
            PrivacyScopeError::ScanLimitExceeded => ErrorCategory::Unavailable,
            PrivacyScopeError::StoredStateInvalid => ErrorCategory::Internal,
            PrivacyScopeError::CanonicalResolutionUnavailable => ErrorCategory::Unavailable,
            PrivacyScopeError::TopologyGenerationStale => ErrorCategory::Conflict,
            PrivacyScopeError::DefinitionMismatch => ErrorCategory::InvalidArgument,
        }
    }

    pub open spec fn spec_category(&self) -> ErrorCategory {
        match self {
            PrivacyScopeError::AssociationStateInvalid => ErrorCategory::Internal,
            PrivacyScopeError::ScanLimitExceeded => ErrorCategory::Unavailable,
            PrivacyScopeError::StoredStateInvalid => ErrorCategory::Internal,
            PrivacyScopeError::CanonicalResolutionUnavailable => ErrorCategory::Unavailable,
            PrivacyScopeError::TopologyGenerationStale => ErrorCategory::Conflict,
            PrivacyScopeError::DefinitionMismatch => ErrorCategory::InvalidArgument,
        }
    }
}


/// `c` is the contribution's confidential Protobuf contract for `schema`,
/// bounded to `maximum` bytes.
pub open spec fn is_scope_contract(c: PayloadContract, schema: Seq<char>, maximum: u64) -> bool {
    &&& c.owner@ == MODULE_ID@
    &&& c.schema_id@ == schema
    &&& c.schema_version@ == CONTRACT_SCHEMA_VERSION@
    &&& c.allowed_data_classes@ == seq![DataClass::Confidential]
    &&& c.allowed_encodings@ == seq![PayloadEncoding::Protobuf]
    &&& c.maximum_size_bytes == Some(maximum)
}

/// `d` is the privacy-scope contribution definition: a read-only,
/// medium-risk query of Data Quality with bounded confidential contracts.
pub open spec fn is_privacy_scope_definition(d: CapabilityDefinition) -> bool {
    &&& d.capability_id@ == CAPABILITY_ID@
    &&& d.capability_version@ == CAPABILITY_VERSION@
    &&& d.owner_module_id@ == MODULE_ID@
    &&& is_scope_contract(d.input_contract, INPUT_SCHEMA_ID@, INPUT_MAXIMUM_BYTES)
    &&& d.output_contract matches Some(out) && is_scope_contract(out, OUTPUT_SCHEMA_ID@, OUTPUT_MAXIMUM_BYTES)
    &&& d.risk == CapabilityRisk::Medium
    &&& !d.mutation
    &&& !d.requires_idempotency
    &&& !d.requires_approval
    &&& d.authorization_policy_id@ == CAPABILITY_ID@
    &&& d.rate_limit_policy_id is None
}

fn scope_contract(schema: &str, maximum: u64) -> (r: PayloadContract)
    ensures
        is_scope_contract(r, schema@, maximum),
{
    let mut classes = Vec::new();
    classes.push(DataClass::Confidential);
    let mut encodings = Vec::new();
    encodings.push(PayloadEncoding::Protobuf);
    PayloadContract {
        owner: MODULE_ID.to_owned(),
        schema_id: schema.to_owned(),
        schema_version: CONTRACT_SCHEMA_VERSION.to_owned(),
        allowed_data_classes: classes,
        allowed_encodings: encodings,
        maximum_size_bytes: Some(maximum),
    }
}

/// The privacy-scope contribution definition.
pub fn data_quality_privacy_scope_definition() -> (r: Result<CapabilityDefinition, PrivacyScopeError>)
    ensures
        match r {
            Ok(d) => is_privacy_scope_definition(d),
            Err(_) => false,
        },
{
    Ok(CapabilityDefinition {
        capability_id: CAPABILITY_ID.to_owned(),
        capability_version: CAPABILITY_VERSION.to_owned(),
        owner_module_id: MODULE_ID.to_owned(),
        input_contract: scope_contract(INPUT_SCHEMA_ID, INPUT_MAXIMUM_BYTES),
        output_contract: Some(scope_contract(OUTPUT_SCHEMA_ID, OUTPUT_MAXIMUM_BYTES)),
        risk: CapabilityRisk::Medium,
        mutation: false,
        requires_idempotency: false,
        requires_approval: false,
        authorization_policy_id: CAPABILITY_ID.to_owned(),
        rate_limit_policy_id: None,
    })
}

fn contract_is(c: &PayloadContract, schema: &str, maximum: u64) -> (r: bool)
    ensures
        r == is_scope_contract(*c, schema@, maximum),
{
    let classes_ok = c.allowed_data_classes.len() == 1 && c.allowed_data_classes[0] == DataClass::Confidential;
    let encodings_ok = c.allowed_encodings.len() == 1 && c.allowed_encodings[0] == PayloadEncoding::Protobuf;
    let size_ok = match c.maximum_size_bytes {
        Some(m) => m == maximum,
        None => false,
    };
    proof {
        if classes_ok {
            assert(c.allowed_data_classes@ =~= seq![DataClass::Confidential]);
        }
        if encodings_ok {
            assert(c.allowed_encodings@ =~= seq![PayloadEncoding::Protobuf]);
        }
    }
    str_eq(c.owner.as_str(), MODULE_ID) && str_eq(c.schema_id.as_str(), schema)
        && str_eq(c.schema_version.as_str(), CONTRACT_SCHEMA_VERSION) && classes_ok && encodings_ok && size_ok
}

/// Refuses any definition but the privacy-scope contribution definition.
pub fn validate_definition(d: &CapabilityDefinition) -> (r: Result<(), PrivacyScopeError>)
    ensures
        r is Ok <==> is_privacy_scope_definition(*d),
        r is Err ==> r == Err::<(), PrivacyScopeError>(PrivacyScopeError::DefinitionMismatch),
{
    let output_ok = match &d.output_contract {
        Some(out) => contract_is(out, OUTPUT_SCHEMA_ID, OUTPUT_MAXIMUM_BYTES),
        None => false,
    };
    if str_eq(d.capability_id.as_str(), CAPABILITY_ID) && str_eq(d.capability_version.as_str(), CAPABILITY_VERSION)
        && str_eq(d.owner_module_id.as_str(), MODULE_ID) && contract_is(&d.input_contract, INPUT_SCHEMA_ID, INPUT_MAXIMUM_BYTES)
        && output_ok && d.risk == CapabilityRisk::Medium && !d.mutation && !d.requires_idempotency
        && !d.requires_approval && str_eq(d.authorization_policy_id.as_str(), CAPABILITY_ID)
        && d.rate_limit_policy_id.is_none()
    {
        Ok(())
    } else {
        Err(PrivacyScopeError::DefinitionMismatch)
    }
}


/// The privacy-scope contribution is a read-only query of the module: no
/// mutation, no idempotency key, no approval, medium risk, authorized by its
/// own policy, with confidential Protobuf payloads of bounded size.
pub proof fn the_scope_contribution_is_a_read_only_query(d: CapabilityDefinition)
    requires
        is_privacy_scope_definition(d),
    ensures
        !d.mutation && !d.requires_idempotency && !d.requires_approval,
        d.risk == CapabilityRisk::Medium,
        d.capability_id@ == CAPABILITY_ID@ && d.authorization_policy_id@ == CAPABILITY_ID@,
        d.owner_module_id@ == MODULE_ID@,
        d.rate_limit_policy_id is None,
        d.input_contract.allowed_data_classes@ == seq![DataClass::Confidential],
        d.input_contract.maximum_size_bytes == Some(INPUT_MAXIMUM_BYTES),
        d.output_contract is Some && d.output_contract->0.maximum_size_bytes == Some(OUTPUT_MAXIMUM_BYTES),
{
}

} // verus!
