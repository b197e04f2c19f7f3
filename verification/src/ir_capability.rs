//! The governed Identity Resolution mutation surface: duplicate-candidate
//! cases and reversible Party merges, their coordinates, catalog and errors.
use vstd::prelude::*;
use crate::capability::{CapabilityDefinition, CapabilityRisk, DataClass, is_protobuf_definition, protobuf_definition};
use crate::errors::ErrorCategory;
use crate::text::{names_contain, names_view, str_eq};

verus! {

pub const MODULE_ID: &'static str = "crm.identity-resolution";
pub const RECORD_TYPE: &'static str = "identity_resolution.candidate_case";
pub const MERGE_OPERATION_RECORD_TYPE: &'static str = "identity_resolution.merge_operation";

pub const REGISTER_CAPABILITY: &'static str = "identity_resolution.candidate.register";
pub const REFRESH_CAPABILITY: &'static str = "identity_resolution.candidate.evidence.refresh";
pub const DISMISS_CAPABILITY: &'static str = "identity_resolution.candidate.dismiss";
pub const CONFIRM_CAPABILITY: &'static str = "identity_resolution.candidate.confirm_duplicate";
pub const MERGE_CAPABILITY: &'static str = "identity_resolution.merge.execute";
pub const UNMERGE_CAPABILITY: &'static str = "identity_resolution.merge.unmerge";

pub const REGISTER_REQUEST_SCHEMA: &'static str = "crm.identity_resolution.v1.RegisterDuplicateCandidateRequest";
pub const REGISTER_RESPONSE_SCHEMA: &'static str = "crm.identity_resolution.v1.RegisterDuplicateCandidateResponse";
pub const REFRESH_REQUEST_SCHEMA: &'static str = "crm.identity_resolution.v1.RefreshDuplicateCandidateEvidenceRequest";
pub const REFRESH_RESPONSE_SCHEMA: &'static str = "crm.identity_resolution.v1.RefreshDuplicateCandidateEvidenceResponse";
pub const DISMISS_REQUEST_SCHEMA: &'static str = "crm.identity_resolution.v1.DismissDuplicateCandidateRequest";
pub const DISMISS_RESPONSE_SCHEMA: &'static str = "crm.identity_resolution.v1.DismissDuplicateCandidateResponse";
pub const CONFIRM_REQUEST_SCHEMA: &'static str = "crm.identity_resolution.v1.ConfirmDuplicateCandidateRequest";
pub const CONFIRM_RESPONSE_SCHEMA: &'static str = "crm.identity_resolution.v1.ConfirmDuplicateCandidateResponse";
pub const MERGE_REQUEST_SCHEMA: &'static str = "crm.identity_resolution.v1.MergePartyRequest";
pub const MERGE_RESPONSE_SCHEMA: &'static str = "crm.identity_resolution.v1.MergePartyResponse";
pub const UNMERGE_REQUEST_SCHEMA: &'static str = "crm.identity_resolution.v1.UnmergePartyRequest";
pub const UNMERGE_RESPONSE_SCHEMA: &'static str = "crm.identity_resolution.v1.UnmergePartyResponse";

pub const REGISTERED_EVENT_TYPE: &'static str = "identity_resolution.candidate.registered";
pub const REGISTERED_EVENT_SCHEMA: &'static str = "crm.identity_resolution.v1.DuplicateCandidateRegisteredEvent";
pub const REFRESHED_EVENT_TYPE: &'static str = "identity_resolution.candidate.evidence_refreshed";
pub const REFRESHED_EVENT_SCHEMA: &'static str = "crm.identity_resolution.v1.DuplicateCandidateEvidenceRefreshedEvent";
pub const DISMISSED_EVENT_TYPE: &'static str = "identity_resolution.candidate.dismissed";
pub const DISMISSED_EVENT_SCHEMA: &'static str = "crm.identity_resolution.v1.DuplicateCandidateDismissedEvent";
pub const CONFIRMED_EVENT_TYPE: &'static str = "identity_resolution.candidate.confirmed_duplicate";
pub const CONFIRMED_EVENT_SCHEMA: &'static str = "crm.identity_resolution.v1.DuplicateCandidateConfirmedEvent";
pub const MERGE_EVENT_TYPE: &'static str = "identity_resolution.party.merged";
pub const MERGE_EVENT_SCHEMA: &'static str = "crm.identity_resolution.v1.PartyMergedEvent";
pub const UNMERGE_EVENT_TYPE: &'static str = "identity_resolution.party.unmerged";
pub const UNMERGE_EVENT_SCHEMA: &'static str = "crm.identity_resolution.v1.PartyUnmergedEvent";

pub const CANDIDATE_MUTATION_CAPABILITY_IDS: [&'static str; 4] = [
    REGISTER_CAPABILITY,
    REFRESH_CAPABILITY,
    DISMISS_CAPABILITY,
    CONFIRM_CAPABILITY,
];
pub const MERGE_MUTATION_CAPABILITY_IDS: [&'static str; 2] = [MERGE_CAPABILITY, UNMERGE_CAPABILITY];
pub const MUTATION_CAPABILITY_IDS: [&'static str; 6] = [
    REGISTER_CAPABILITY,
    REFRESH_CAPABILITY,
    DISMISS_CAPABILITY,
    CONFIRM_CAPABILITY,
    MERGE_CAPABILITY,
    UNMERGE_CAPABILITY,
];

/// Why an Identity Resolution mutation could not be catalogued, planned or
/// validated.
#[derive(Debug, Clone, Copy, PartialEq, Eq, Structural)]
pub enum IdentityResolutionError {
    /// The catalog was asked for a coordinate it does not publish.
    CatalogUnsupported,
    /// A candidate planner was handed a capability it does not plan.
    CapabilityUnsupported,
    MutationPlanInvalid,
    /// A stored candidate case is not the record it was read from, or not at
    /// that record's version.
    PersistedCaseIdentityInvalid,
    RegistrationScopeInvalid,
    /// A required request reference is absent.
    MissingReference,
    /// A numeric evidence or version field is out of its admitted range.
    ValueOutOfRange,
    /// An unmerge names a merge operation other than the one loaded.
    MergeOperationMismatch,
    MergePlanInvalid,
    MergeCapabilityUnsupported,
    /// A referenced Party or case is missing, or the evidence pair is not two
    /// distinct Parties.
    ReferenceUnavailable,
    /// Evidence names a Party version that is no longer current.
    EvidenceStale,
    /// The composition boundary was handed a capability it does not compose.
    CompositionCapabilityUnsupported,
    /// A lineage update is not an exact unmerge of the active lineage.
    UnmergeTransitionInvalid,
}

impl IdentityResolutionError {
    /// The code reported for this refusal.
    pub open spec fn error_code(self) -> &'static str {
        match self {
            IdentityResolutionError::CatalogUnsupported
            | IdentityResolutionError::CapabilityUnsupported => "IDENTITY_RESOLUTION_CAPABILITY_UNSUPPORTED",
            IdentityResolutionError::MutationPlanInvalid => "IDENTITY_RESOLUTION_MUTATION_PLAN_INVALID",
            IdentityResolutionError::PersistedCaseIdentityInvalid => "IDENTITY_RESOLUTION_PERSISTED_CASE_IDENTITY_INVALID",
            IdentityResolutionError::RegistrationScopeInvalid => "IDENTITY_RESOLUTION_REGISTRATION_SCOPE_INVALID",
            IdentityResolutionError::MissingReference
            | IdentityResolutionError::ValueOutOfRange
            | IdentityResolutionError::MergeOperationMismatch => "SDK_INVALID_ARGUMENT",
            IdentityResolutionError::MergePlanInvalid => "IDENTITY_RESOLUTION_MERGE_PLAN_INVALID",
            IdentityResolutionError::MergeCapabilityUnsupported => "IDENTITY_RESOLUTION_MERGE_CAPABILITY_UNSUPPORTED",
            IdentityResolutionError::ReferenceUnavailable => "IDENTITY_RESOLUTION_REFERENCE_UNAVAILABLE",
            IdentityResolutionError::EvidenceStale => "IDENTITY_RESOLUTION_EVIDENCE_STALE",
            IdentityResolutionError::CompositionCapabilityUnsupported =>
                "IDENTITY_RESOLUTION_COMPOSITION_CAPABILITY_UNSUPPORTED",
            IdentityResolutionError::UnmergeTransitionInvalid => "IDENTITY_RESOLUTION_MERGE_UNMERGE_TRANSITION_INVALID",
        }
    }

    /// The stable error code reported to callers.
    pub fn code(&self) -> (r: &'static str)
        ensures
            r == self.error_code(),
    {
        match self {
            IdentityResolutionError::CatalogUnsupported
            | IdentityResolutionError::CapabilityUnsupported => "IDENTITY_RESOLUTION_CAPABILITY_UNSUPPORTED",
            IdentityResolutionError::MutationPlanInvalid => "IDENTITY_RESOLUTION_MUTATION_PLAN_INVALID",
            IdentityResolutionError::PersistedCaseIdentityInvalid => "IDENTITY_RESOLUTION_PERSISTED_CASE_IDENTITY_INVALID",
            IdentityResolutionError::RegistrationScopeInvalid => "IDENTITY_RESOLUTION_REGISTRATION_SCOPE_INVALID",
            IdentityResolutionError::MissingReference
            | IdentityResolutionError::ValueOutOfRange
            | IdentityResolutionError::MergeOperationMismatch => "SDK_INVALID_ARGUMENT",
            IdentityResolutionError::MergePlanInvalid => "IDENTITY_RESOLUTION_MERGE_PLAN_INVALID",
            IdentityResolutionError::MergeCapabilityUnsupported => "IDENTITY_RESOLUTION_MERGE_CAPABILITY_UNSUPPORTED",
            IdentityResolutionError::ReferenceUnavailable => "IDENTITY_RESOLUTION_REFERENCE_UNAVAILABLE",
            IdentityResolutionError::EvidenceStale => "IDENTITY_RESOLUTION_EVIDENCE_STALE",
            IdentityResolutionError::CompositionCapabilityUnsupported =>
                "IDENTITY_RESOLUTION_COMPOSITION_CAPABILITY_UNSUPPORTED",
            IdentityResolutionError::UnmergeTransitionInvalid => "IDENTITY_RESOLUTION_MERGE_UNMERGE_TRANSITION_INVALID",
        }
    }

    /// The category under which this refusal is reported.
    pub open spec fn error_category(self) -> ErrorCategory {
        match self {
            IdentityResolutionError::CapabilityUnsupported
            | IdentityResolutionError::MissingReference
            | IdentityResolutionError::ValueOutOfRange
            | IdentityResolutionError::MergeOperationMismatch
            | IdentityResolutionError::ReferenceUnavailable => ErrorCategory::InvalidArgument,
            IdentityResolutionError::EvidenceStale => ErrorCategory::Conflict,
            _ => ErrorCategory::Internal,
        }
    }

    /// The category under which the failure is reported.
    pub fn category(&self) -> (r: ErrorCategory)
        ensures
            r == self.error_category(),
    {
        match self {
            IdentityResolutionError::CapabilityUnsupported
            | IdentityResolutionError::MissingReference
            | IdentityResolutionError::ValueOutOfRange
            | IdentityResolutionError::MergeOperationMismatch
            | IdentityResolutionError::ReferenceUnavailable => ErrorCategory::InvalidArgument,
            IdentityResolutionError::EvidenceStale => ErrorCategory::Conflict,
            _ => ErrorCategory::Internal,
        }
    }

    /// Whether the caller may retry the refused request: no Identity
    /// Resolution refusal is retryable.
    pub fn retryable(&self) -> (r: bool)
        ensures
            !r,
    {
        false
    }
}

/// The request schema, response schema, risk and approval requirement of a
/// published mutation coordinate.
pub open spec fn mutation_coordinates(id: Seq<char>) -> Option<(Seq<char>, Seq<char>, CapabilityRisk, bool)> {
    if id == REGISTER_CAPABILITY@ {
        Some((REGISTER_REQUEST_SCHEMA@, REGISTER_RESPONSE_SCHEMA@, CapabilityRisk::Medium, false))
    } else if id == REFRESH_CAPABILITY@ {
        Some((REFRESH_REQUEST_SCHEMA@, REFRESH_RESPONSE_SCHEMA@, CapabilityRisk::Medium, false))
    } else if id == DISMISS_CAPABILITY@ {
        Some((DISMISS_REQUEST_SCHEMA@, DISMISS_RESPONSE_SCHEMA@, CapabilityRisk::High, false))
    } else if id == CONFIRM_CAPABILITY@ {
        Some((CONFIRM_REQUEST_SCHEMA@, CONFIRM_RESPONSE_SCHEMA@, CapabilityRisk::High, false))
    } else if id == MERGE_CAPABILITY@ {
        Some((MERGE_REQUEST_SCHEMA@, MERGE_RESPONSE_SCHEMA@, CapabilityRisk::High, true))
    } else if id == UNMERGE_CAPABILITY@ {
        Some((UNMERGE_REQUEST_SCHEMA@, UNMERGE_RESPONSE_SCHEMA@, CapabilityRisk::High, true))
    } else {
        None
    }
}

/// `d` is the personal, idempotent Identity Resolution mutation `id` with
/// the given schemas, risk and approval requirement.
pub open spec fn is_identity_mutation(d: CapabilityDefinition, id: Seq<char>, input: Seq<char>, output: Seq<char>,
    risk: CapabilityRisk, approval: bool) -> bool
{
    &&& is_protobuf_definition(d, id, MODULE_ID@, input, output, DataClass::Personal)
    &&& d.risk == risk
    &&& d.mutation
    &&& d.requires_idempotency
    &&& d.requires_approval == approval
}

/// `d` is the catalogued definition of the coordinate `id`.
pub open spec fn is_catalogued(d: CapabilityDefinition, id: Seq<char>) -> bool {
    match mutation_coordinates(id) {
        Some((input, output, risk, approval)) => is_identity_mutation(d, id, input, output, risk, approval),
        None => false,
    }
}

/// The definition of one mutation coordinate; merges and unmerges alone
/// require approval, and every coordinate but registration and refresh is
/// of high risk.
pub fn capability_definition(capability_id: &str) -> (r: Result<CapabilityDefinition, IdentityResolutionError>)
    ensures
        mutation_coordinates(capability_id@) is None ==> r == Err::<CapabilityDefinition, IdentityResolutionError>(
            IdentityResolutionError::CatalogUnsupported),
        mutation_coordinates(capability_id@) is Some ==> (r matches Ok(d) && is_catalogued(d, capability_id@)),
{
    let (input, output, risk, approval) = if str_eq(capability_id, REGISTER_CAPABILITY) {
        (REGISTER_REQUEST_SCHEMA, REGISTER_RESPONSE_SCHEMA, CapabilityRisk::Medium, false)
    } else if str_eq(capability_id, REFRESH_CAPABILITY) {
        (REFRESH_REQUEST_SCHEMA, REFRESH_RESPONSE_SCHEMA, CapabilityRisk::Medium, false)
    } else if str_eq(capability_id, DISMISS_CAPABILITY) {
        (DISMISS_REQUEST_SCHEMA, DISMISS_RESPONSE_SCHEMA, CapabilityRisk::High, false)
    } else if str_eq(capability_id, CONFIRM_CAPABILITY) {
        (CONFIRM_REQUEST_SCHEMA, CONFIRM_RESPONSE_SCHEMA, CapabilityRisk::High, false)
    } else if str_eq(capability_id, MERGE_CAPABILITY) {
        (MERGE_REQUEST_SCHEMA, MERGE_RESPONSE_SCHEMA, CapabilityRisk::High, true)
    } else if str_eq(capability_id, UNMERGE_CAPABILITY) {
        (UNMERGE_REQUEST_SCHEMA, UNMERGE_RESPONSE_SCHEMA, CapabilityRisk::High, true)
    } else {
        return Err(IdentityResolutionError::CatalogUnsupported);
    };
    let mut d = protobuf_definition(capability_id, MODULE_ID, input, output, DataClass::Personal, risk, true, true);
    d.requires_approval = approval;
    Ok(d)
}

/// The full mutation catalog, in the order of [`MUTATION_CAPABILITY_IDS`].
pub fn capability_definitions() -> (r: Result<Vec<CapabilityDefinition>, IdentityResolutionError>)
    ensures
        match r {
            Ok(v) => {
                &&& v@.len() == 6
                &&& is_catalogued(v@[0], REGISTER_CAPABILITY@)
                &&& is_catalogued(v@[1], REFRESH_CAPABILITY@)
                &&& is_catalogued(v@[2], DISMISS_CAPABILITY@)
                &&& is_catalogued(v@[3], CONFIRM_CAPABILITY@)
                &&& is_catalogued(v@[4], MERGE_CAPABILITY@)
                &&& is_catalogued(v@[5], UNMERGE_CAPABILITY@)
            },
            Err(_) => false,
        },
{
    let mut v = Vec::new();
    v.push(capability_definition(REGISTER_CAPABILITY)?);
    v.push(capability_definition(REFRESH_CAPABILITY)?);
    v.push(capability_definition(DISMISS_CAPABILITY)?);
    v.push(capability_definition(CONFIRM_CAPABILITY)?);
    v.push(capability_definition(MERGE_CAPABILITY)?);
    v.push(capability_definition(UNMERGE_CAPABILITY)?);
    Ok(v)
}

/// The definitions among `defs` whose capability is one of `ids`, in
/// catalog order.
pub open spec fn selected(defs: Seq<CapabilityDefinition>, ids: Seq<Seq<char>>) -> Seq<CapabilityDefinition>
    decreases defs.len(),
{
    if defs.len() == 0 {
        Seq::empty()
    } else {
        let rest = selected(defs.drop_last(), ids);
        if ids.contains(defs.last().capability_id@) {
            rest.push(defs.last())
        } else {
            rest
        }
    }
}

/// Keeps the definitions of a catalog whose capability is one of
/// `capability_ids`, in catalog order.
pub fn select_definitions(definitions: Vec<CapabilityDefinition>, capability_ids: &[&'static str])
    -> (r: Vec<CapabilityDefinition>)
    ensures
        r@ == selected(definitions@, names_view(capability_ids@)),
{
    let ghost all = definitions@;
    let total = definitions.len();
    let mut rest = definitions;
    let mut kept: Vec<CapabilityDefinition> = Vec::new();
    let mut taken: usize = 0;
    while rest.len() > 0
        invariant
            taken <= all.len(),
            all.len() == total,
            rest@ == all.skip(taken as int),
            kept@ == selected(all.take(taken as int), names_view(capability_ids@)),
        decreases rest@.len(),
    {
        let definition = rest.remove(0);
        assert(all.take(taken + 1).drop_last() =~= all.take(taken as int));
        assert(all.take(taken + 1).last() == definition);
        assert(rest@ =~= all.skip(taken + 1));
        if names_contain(capability_ids, definition.capability_id.as_str()) {
            kept.push(definition);
        }
        taken = taken + 1;
    }
    assert(all.take(taken as int) =~= all);
    kept
}


/// Every catalogued Identity Resolution coordinate is a personal,
/// idempotent mutation of the module; merges and unmerges alone require
/// approval, and every coordinate but registration and refresh is of high
/// risk. Nothing outside the six coordinates is catalogued.
pub proof fn catalogued_coordinates_are_governed_mutations(d: CapabilityDefinition, id: Seq<char>)
    requires
        is_catalogued(d, id),
    ensures
        d.mutation && d.requires_idempotency,
        d.owner_module_id@ == MODULE_ID@ && d.capability_id@ == id,
        d.input_contract.allowed_data_classes@ == seq![DataClass::Personal],
        d.requires_approval <==> (id == MERGE_CAPABILITY@ || id == UNMERGE_CAPABILITY@),
        (id == REGISTER_CAPABILITY@ || id == REFRESH_CAPABILITY@) ==> d.risk == CapabilityRisk::Medium,
        (id == DISMISS_CAPABILITY@ || id == CONFIRM_CAPABILITY@ || id == MERGE_CAPABILITY@ || id
            == UNMERGE_CAPABILITY@) ==> d.risk == CapabilityRisk::High,
        id == REGISTER_CAPABILITY@ || id == REFRESH_CAPABILITY@ || id == DISMISS_CAPABILITY@ || id
            == CONFIRM_CAPABILITY@ || id == MERGE_CAPABILITY@ || id == UNMERGE_CAPABILITY@,
{
    reveal_strlit("identity_resolution.candidate.register");
    reveal_strlit("identity_resolution.candidate.evidence.refresh");
    reveal_strlit("identity_resolution.candidate.dismiss");
    reveal_strlit("identity_resolution.candidate.confirm_duplicate");
    reveal_strlit("identity_resolution.merge.execute");
    reveal_strlit("identity_resolution.merge.unmerge");
    assert(REGISTER_CAPABILITY@.len() == 38 && REFRESH_CAPABILITY@.len() == 46 && DISMISS_CAPABILITY@.len() == 37
        && CONFIRM_CAPABILITY@.len() == 47 && MERGE_CAPABILITY@.len() == 33 && UNMERGE_CAPABILITY@.len() == 33);
    assert(MERGE_CAPABILITY@[26] != UNMERGE_CAPABILITY@[26]);
}

} // verus!
