//! Customer Privacy case mutations: submission of a draft case and
//! verification of its subject. Each is an optimistic, one-version advance of
//! one tenant-scoped case, planned only after the request, the stored case
//! and the transitioned case have each been checked.
use vstd::prelude::*;
use crate::capability::{CapabilityDefinition, CapabilityRisk, DataClass, CONTRACT_VERSION, is_protobuf_definition,
    protobuf_definition};
use crate::errors::ErrorCategory;
use crate::ir_candidate::RequestCoordinates;
use crate::text::str_eq;

verus! {

pub const SUBMIT_PRIVACY_CASE_CAPABILITY: &'static str = "customer_privacy.case.submit";
pub const SUBMIT_PRIVACY_CASE_REQUEST_SCHEMA: &'static str = "crm.customer_privacy.v1.SubmitPrivacyCaseRequest";
pub const SUBMIT_PRIVACY_CASE_RESPONSE_SCHEMA: &'static str = "crm.customer_privacy.v1.SubmitPrivacyCaseResponse";
pub const PRIVACY_CASE_STATUS_CHANGED_EVENT_TYPE: &'static str = "customer_privacy.case.status_changed";
pub const PRIVACY_CASE_STATUS_CHANGED_EVENT_SCHEMA: &'static str = "crm.customer_privacy.v1.PrivacyCaseStatusChangedEvent";

pub const VERIFY_PRIVACY_CASE_SUBJECT_CAPABILITY: &'static str = "customer_privacy.case.subject.verify";
pub const VERIFY_PRIVACY_CASE_SUBJECT_REQUEST_SCHEMA: &'static str = "crm.customer_privacy.v1.VerifyPrivacyCaseSubjectRequest";
pub const VERIFY_PRIVACY_CASE_SUBJECT_RESPONSE_SCHEMA: &'static str = "crm.customer_privacy.v1.VerifyPrivacyCaseSubjectResponse";
pub const PRIVACY_CASE_SUBJECT_VERIFIED_EVENT_TYPE: &'static str = "customer_privacy.case.subject_verified";
pub const PRIVACY_CASE_SUBJECT_VERIFIED_EVENT_SCHEMA: &'static str = "crm.customer_privacy.v1.PrivacyCaseSubjectVerifiedEvent";

/// Nanoseconds per millisecond.
pub const NANOS_PER_MILLISECOND: i64 = 1_000_000;

/// The owner module and record types of the Customer Privacy domain, as its
/// domain crate defines them.
pub struct CustomerPrivacyCoordinates {
    pub module_id: &'static str,
    pub privacy_case_record_type: &'static str,
    pub restriction_record_type: &'static str,
    pub legal_hold_record_type: &'static str,
}

/// Why a Customer Privacy case mutation or query was refused.
#[derive(Debug, Clone, Copy, PartialEq, Eq, Structural)]
pub enum CustomerPrivacyError {
    /// The case is absent, of another tenant, or not the one requested.
    CaseNotFound,
    /// The stored case could not be read back safely.
    CaseInvalid,
    SubmitPlanInvalid,
    SubjectVerifyPlanInvalid,
    /// A required reference is absent.
    MissingReference,
    ExpectedVersionNotPositive,
    GenerationNotPositive,
    UnsupportedVerificationMethod,
    /// A timestamp a response would carry is negative.
    TimestampNegative,
    /// The domain refused the transition: a version conflict.
    DomainVersionConflict,
    /// The domain refused the transition: the case is not in a state that
    /// allows it.
    DomainInvalidTransition,
    /// The domain refused an argument of the transition.
    DomainInvalidArgument,
}

impl CustomerPrivacyError {
    /// The code reported for this refusal.
    pub open spec fn error_code(self) -> &'static str {
        match self {
            CustomerPrivacyError::CaseNotFound => "CUSTOMER_PRIVACY_CASE_NOT_FOUND",
            CustomerPrivacyError::CaseInvalid => "CUSTOMER_PRIVACY_CASE_INVALID",
            CustomerPrivacyError::SubmitPlanInvalid => "CUSTOMER_PRIVACY_CASE_SUBMIT_PLAN_INVALID",
            CustomerPrivacyError::SubjectVerifyPlanInvalid => "CUSTOMER_PRIVACY_CASE_SUBJECT_VERIFY_PLAN_INVALID",
            CustomerPrivacyError::MissingReference
            | CustomerPrivacyError::ExpectedVersionNotPositive
            | CustomerPrivacyError::GenerationNotPositive
            | CustomerPrivacyError::UnsupportedVerificationMethod
            | CustomerPrivacyError::TimestampNegative => "SDK_INVALID_ARGUMENT",
            CustomerPrivacyError::DomainVersionConflict => "CUSTOMER_PRIVACY_VERSION_CONFLICT",
            CustomerPrivacyError::DomainInvalidTransition => "CUSTOMER_PRIVACY_INVALID_TRANSITION",
            CustomerPrivacyError::DomainInvalidArgument => "CUSTOMER_PRIVACY_INVALID_ARGUMENT",
        }
    }

    /// The stable error code reported to callers; a domain refusal carries
    /// the domain's own code instead.
    pub fn code(&self) -> (r: &'static str)
        ensures
            r == self.error_code(),
    {
        match self {
            CustomerPrivacyError::CaseNotFound => "CUSTOMER_PRIVACY_CASE_NOT_FOUND",
            CustomerPrivacyError::CaseInvalid => "CUSTOMER_PRIVACY_CASE_INVALID",
            CustomerPrivacyError::SubmitPlanInvalid => "CUSTOMER_PRIVACY_CASE_SUBMIT_PLAN_INVALID",
            CustomerPrivacyError::SubjectVerifyPlanInvalid => "CUSTOMER_PRIVACY_CASE_SUBJECT_VERIFY_PLAN_INVALID",
            CustomerPrivacyError::MissingReference
            | CustomerPrivacyError::ExpectedVersionNotPositive
            | CustomerPrivacyError::GenerationNotPositive
            | CustomerPrivacyError::UnsupportedVerificationMethod
            | CustomerPrivacyError::TimestampNegative => "SDK_INVALID_ARGUMENT",
            CustomerPrivacyError::DomainVersionConflict => "CUSTOMER_PRIVACY_VERSION_CONFLICT",
            CustomerPrivacyError::DomainInvalidTransition => "CUSTOMER_PRIVACY_INVALID_TRANSITION",
            CustomerPrivacyError::DomainInvalidArgument => "CUSTOMER_PRIVACY_INVALID_ARGUMENT",
        }
    }

    /// The category under which this refusal is reported.
    pub open spec fn error_category(self) -> ErrorCategory {
        match self {
            CustomerPrivacyError::CaseNotFound => ErrorCategory::NotFound,
            CustomerPrivacyError::CaseInvalid
            | CustomerPrivacyError::SubmitPlanInvalid
            | CustomerPrivacyError::SubjectVerifyPlanInvalid => ErrorCategory::Internal,
            CustomerPrivacyError::DomainVersionConflict
            | CustomerPrivacyError::DomainInvalidTransition => ErrorCategory::Conflict,
            _ => ErrorCategory::InvalidArgument,
        }
    }

    /// The category under which the failure is reported: domain conflicts
    /// and refused transitions are conflicts.
    pub fn category(&self) -> (r: ErrorCategory)
        ensures
            r == self.error_category(),
    {
        match self {
            CustomerPrivacyError::CaseNotFound => ErrorCategory::NotFound,
            CustomerPrivacyError::CaseInvalid
            | CustomerPrivacyError::SubmitPlanInvalid
            | CustomerPrivacyError::SubjectVerifyPlanInvalid => ErrorCategory::Internal,
            CustomerPrivacyError::DomainVersionConflict
            | CustomerPrivacyError::DomainInvalidTransition => ErrorCategory::Conflict,
            _ => ErrorCategory::InvalidArgument,
        }
    }

    /// Whether retrying the same request may succeed: only after a version
    /// conflict, when the case has moved on.
    pub open spec fn is_retryable(self) -> bool {
        self == CustomerPrivacyError::DomainVersionConflict
    }

    /// Whether the refusal may be retried.
    pub fn retryable(&self) -> (r: bool)
        ensures
            r == self.is_retryable(),
    {
        match self {
            CustomerPrivacyError::DomainVersionConflict => true,
            _ => false,
        }
    }
}

/// Reads an expected version: it must be positive.
pub fn positive_version(value: i64) -> (r: Result<u64, CustomerPrivacyError>)
    ensures
        value > 0 ==> r == Ok::<u64, CustomerPrivacyError>(value as u64),
        value <= 0 ==> r == Err::<u64, CustomerPrivacyError>(CustomerPrivacyError::ExpectedVersionNotPositive),
{
    if value <= 0 {
        return Err(CustomerPrivacyError::ExpectedVersionNotPositive);
    }
    Ok(value as u64)
}

/// Milliseconds of a non-negative nanosecond timestamp, truncated.
pub fn nanos_to_millis(value: i64) -> (r: Result<i64, CustomerPrivacyError>)
    ensures
        value >= 0 ==> r == Ok::<i64, CustomerPrivacyError>((value / NANOS_PER_MILLISECOND) as i64),
        value < 0 ==> r == Err::<i64, CustomerPrivacyError>(CustomerPrivacyError::TimestampNegative),
{
    if value < 0 {
        return Err(CustomerPrivacyError::TimestampNegative);
    }
    Ok(value / NANOS_PER_MILLISECOND)
}

/// How the subject of a privacy case was verified.
#[derive(Debug, Clone, Copy, PartialEq, Eq, Structural)]
pub enum SubjectVerificationMethod {
    AuthenticatedPortal,
    StaffAssisted,
    VerifiedDocument,
    ExistingHighAssuranceIdentity,
}

/// The verification method a wire number names; the unspecified number `0`
/// and unknown numbers name none.
pub open spec fn method_from_wire(value: i32) -> Option<SubjectVerificationMethod> {
    if value == 1 {
        Some(SubjectVerificationMethod::AuthenticatedPortal)
    } else if value == 2 {
        Some(SubjectVerificationMethod::StaffAssisted)
    } else if value == 3 {
        Some(SubjectVerificationMethod::VerifiedDocument)
    } else if value == 4 {
        Some(SubjectVerificationMethod::ExistingHighAssuranceIdentity)
    } else {
        None
    }
}

impl SubjectVerificationMethod {
    /// Reads a wire verification method; only a supported one is admitted.
    pub fn from_wire(value: i32) -> (r: Result<SubjectVerificationMethod, CustomerPrivacyError>)
        ensures
            match method_from_wire(value) {
                Some(m) => r == Ok::<SubjectVerificationMethod, CustomerPrivacyError>(m),
                None => r == Err::<SubjectVerificationMethod, CustomerPrivacyError>(
                    CustomerPrivacyError::UnsupportedVerificationMethod),
            },
    {
        if value == 1 {
            Ok(SubjectVerificationMethod::AuthenticatedPortal)
        } else if value == 2 {
            Ok(SubjectVerificationMethod::StaffAssisted)
        } else if value == 3 {
            Ok(SubjectVerificationMethod::VerifiedDocument)
        } else if value == 4 {
            Ok(SubjectVerificationMethod::ExistingHighAssuranceIdentity)
        } else {
            Err(CustomerPrivacyError::UnsupportedVerificationMethod)
        }
    }
}

/// Which case mutation a planner performs.
#[derive(Debug, Clone, Copy, PartialEq, Eq, Structural)]
pub enum CaseMutation {
    Submit,
    VerifySubject,
}

/// The capability coordinate of a case mutation.
pub open spec fn mutation_capability(m: CaseMutation) -> &'static str {
    match m {
        CaseMutation::Submit => SUBMIT_PRIVACY_CASE_CAPABILITY,
        CaseMutation::VerifySubject => VERIFY_PRIVACY_CASE_SUBJECT_CAPABILITY,
    }
}

/// The error a case mutation reports for a plan it cannot make safely.
pub open spec fn plan_invalid(m: CaseMutation) -> CustomerPrivacyError {
    match m {
        CaseMutation::Submit => CustomerPrivacyError::SubmitPlanInvalid,
        CaseMutation::VerifySubject => CustomerPrivacyError::SubjectVerifyPlanInvalid,
    }
}

fn plan_invalid_of(m: CaseMutation) -> (r: CustomerPrivacyError)
    ensures
        r == plan_invalid(m),
{
    match m {
        CaseMutation::Submit => CustomerPrivacyError::SubmitPlanInvalid,
        CaseMutation::VerifySubject => CustomerPrivacyError::SubjectVerifyPlanInvalid,
    }
}

fn capability_of(m: CaseMutation) -> (r: &'static str)
    ensures
        r == mutation_capability(m),
{
    match m {
        CaseMutation::Submit => SUBMIT_PRIVACY_CASE_CAPABILITY,
        CaseMutation::VerifySubject => VERIFY_PRIVACY_CASE_SUBJECT_CAPABILITY,
    }
}

/// Whether definition and request both carry exactly the coordinate of the
/// mutation, at the release contract version, owned by the privacy module.
pub open spec fn exact_coordinate(m: CaseMutation, coords: CustomerPrivacyCoordinates, d: CapabilityDefinition,
    request: RequestCoordinates) -> bool
{
    &&& d.owner_module_id@ == coords.module_id@
    &&& d.capability_id@ == mutation_capability(m)@
    &&& d.capability_version@ == CONTRACT_VERSION@
    &&& request.module_id@ == coords.module_id@
    &&& request.capability_id@ == mutation_capability(m)@
    &&& request.capability_version@ == CONTRACT_VERSION@
}

/// Refuses any definition or request that is not exactly the coordinate of
/// the mutation `m`.
pub fn ensure_exact_coordinate(m: CaseMutation, coords: &CustomerPrivacyCoordinates, definition: &CapabilityDefinition,
    request: &RequestCoordinates) -> (r: Result<(), CustomerPrivacyError>)
    ensures
        r is Ok <==> exact_coordinate(m, *coords, *definition, *request),
        r is Err ==> r == Err::<(), CustomerPrivacyError>(plan_invalid(m)),
{
    let capability = capability_of(m);
    if !str_eq(definition.owner_module_id.as_str(), coords.module_id)
        || !str_eq(definition.capability_id.as_str(), capability)
        || !str_eq(definition.capability_version.as_str(), CONTRACT_VERSION)
        || !str_eq(request.module_id.as_str(), coords.module_id)
        || !str_eq(request.capability_id.as_str(), capability)
        || !str_eq(request.capability_version.as_str(), CONTRACT_VERSION)
    {
        return Err(plan_invalid_of(m));
    }
    Ok(())
}

/// The fields of a case request that both mutations share.
pub struct CaseCommand {
    pub case_id: Option<String>,
    pub expected_version: i64,
}

/// The subject-verification request, as plain values.
pub struct SubjectCommand {
    pub case: CaseCommand,
    pub submitted_party_id: Option<String>,
    pub canonical_party_id: Option<String>,
    pub identity_resolution_generation: u64,
    pub verification_method: i32,
}

/// The stored case record a mutation locked: its reference and version.
pub struct CaseRecordRef {
    pub record_type: String,
    pub record_id: String,
    pub version: i64,
}

/// What is read of the case decoded from the locked record.
pub struct DecodedCase {
    pub case_id: String,
    pub tenant_id: String,
    pub version: u64,
}

/// The verdict on a located case: the request must name a case, and the
/// locked record must be that case's record.
pub open spec fn locate_outcome(coords: CustomerPrivacyCoordinates, command: CaseCommand, current: Option<CaseRecordRef>)
    -> Result<u64, CustomerPrivacyError>
{
    match command.case_id {
        None => Err(CustomerPrivacyError::MissingReference),
        Some(id) => match current {
            None => Err(CustomerPrivacyError::CaseNotFound),
            Some(c) => if c.record_type@ != coords.privacy_case_record_type@ || c.record_id@ != id@ {
                Err(CustomerPrivacyError::CaseNotFound)
            } else {
                Ok(command.expected_version as u64)
            },
        },
    }
}

fn locate(coords: &CustomerPrivacyCoordinates, command: &CaseCommand, current: Option<&CaseRecordRef>)
    -> (r: Result<u64, CustomerPrivacyError>)
    requires
        command.expected_version > 0,
    ensures
        r == locate_outcome(*coords, *command, match current { Some(c) => Some(*c), None => None }),
{
    let id = match &command.case_id {
        None => return Err(CustomerPrivacyError::MissingReference),
        Some(id) => id,
    };
    let c = match current {
        None => return Err(CustomerPrivacyError::CaseNotFound),
        Some(c) => c,
    };
    if !str_eq(c.record_type.as_str(), coords.privacy_case_record_type) || !str_eq(c.record_id.as_str(), id.as_str()) {
        return Err(CustomerPrivacyError::CaseNotFound);
    }
    Ok(command.expected_version as u64)
}

/// The verdict on the case decoded from a located record: it must be the
/// requested case, of the requesting tenant, at a version representable on
/// the wire. The version is the one the transition advances from.
pub open spec fn bind_outcome(m: CaseMutation, requested: Seq<char>, tenant: Seq<char>, decoded: DecodedCase)
    -> Result<i64, CustomerPrivacyError>
{
    if decoded.case_id@ != requested || decoded.tenant_id@ != tenant {
        Err(CustomerPrivacyError::CaseNotFound)
    } else if decoded.version > i64::MAX {
        Err(plan_invalid(m))
    } else {
        Ok(decoded.version as i64)
    }
}

/// What the planner reads of a case after the domain transition.
pub struct TransitionedCase {
    /// Whether the case reached the status the mutation leads to.
    pub reached_target_status: bool,
    pub version: u64,
    pub record_type: String,
    pub record_id: String,
    pub has_subject_binding: bool,
    pub has_pending_rescope: bool,
    pub has_scope_snapshot: bool,
    pub has_action_plan: bool,
    pub has_approval: bool,
    pub created_at_unix_nanos: i64,
    /// When the subject was verified, where a subject binding exists.
    pub verified_at_unix_nanos: Option<i64>,
}

/// What a case mutation writes: the update from the locked version to the
/// next one, and the timestamps its response carries.
#[derive(Debug, Clone, Copy, PartialEq, Eq, Structural)]
pub struct CasePlan {
    pub expected_version: i64,
    pub aggregate_version: i64,
    pub created_at_unix_ms: i64,
    pub updated_at_unix_ms: i64,
    pub verified_at_unix_ms: Option<i64>,
}

/// The verdict on a transitioned case: one version past the locked one, at
/// the target status, carrying exactly the evidence of its phase, stored
/// under the locked record, with non-negative timestamps.
pub open spec fn transition_outcome(m: CaseMutation, locked: CaseRecordRef, previous: i64, t: TransitionedCase,
    started_at: i64) -> Result<(i64, i64, i64, Option<i64>), CustomerPrivacyError>
{
    if t.version > i64::MAX {
        Err(plan_invalid(m))
    } else if !t.reached_target_status || locked.version != previous || t.version != previous + 1
        || (m == CaseMutation::VerifySubject && !t.has_subject_binding) {
        Err(plan_invalid(m))
    } else if (m == CaseMutation::Submit && t.has_subject_binding) || t.has_pending_rescope || t.has_scope_snapshot
        || t.has_action_plan || t.has_approval {
        Err(plan_invalid(m))
    } else if t.record_type@ != locked.record_type@ || t.record_id@ != locked.record_id@ {
        Err(CustomerPrivacyError::CaseNotFound)
    } else if m == CaseMutation::VerifySubject && t.verified_at_unix_nanos is None {
        Err(plan_invalid(m))
    } else if t.created_at_unix_nanos < 0 || started_at < 0
        || (m == CaseMutation::VerifySubject && t.verified_at_unix_nanos->0 < 0) {
        Err(CustomerPrivacyError::TimestampNegative)
    } else {
        Ok((t.version as i64, (t.created_at_unix_nanos / NANOS_PER_MILLISECOND) as i64,
            (started_at / NANOS_PER_MILLISECOND) as i64,
            if m == CaseMutation::VerifySubject {
                Some((t.verified_at_unix_nanos->0 / NANOS_PER_MILLISECOND) as i64)
            } else {
                None
            }))
    }
}

/// The plan of a checked transition: the expected version it was locked at,
/// and the next version and timestamps the verdict gives; a refusal is the
/// verdict's.
pub open spec fn case_plan_of(outcome: Result<(i64, i64, i64, Option<i64>), CustomerPrivacyError>, previous: i64)
    -> Result<CasePlan, CustomerPrivacyError> {
    match outcome {
        Ok((next, created, updated, verified)) => Ok(CasePlan {
            expected_version: previous,
            aggregate_version: next,
            created_at_unix_ms: created,
            updated_at_unix_ms: updated,
            verified_at_unix_ms: verified,
        }),
        Err(e) => Err(e),
    }
}

/// A case mutation that is planned advances the locked case by exactly one
/// version, from the version it was locked at.
pub proof fn case_plans_advance_one_version(m: CaseMutation, locked: CaseRecordRef, previous: i64, t: TransitionedCase,
    started_at: i64)
    requires
        transition_outcome(m, locked, previous, t, started_at) is Ok,
    ensures
        transition_outcome(m, locked, previous, t, started_at)->Ok_0.0 == locked.version + 1,
        previous == locked.version,
{
}

fn bind(m: CaseMutation, requested: &String, tenant: &String, decoded: &DecodedCase)
    -> (r: Result<i64, CustomerPrivacyError>)
    ensures
        r == bind_outcome(m, requested@, tenant@, *decoded),
{
    if !str_eq(decoded.case_id.as_str(), requested.as_str()) || !str_eq(decoded.tenant_id.as_str(), tenant.as_str()) {
        return Err(CustomerPrivacyError::CaseNotFound);
    }
    if decoded.version > 0x7fff_ffff_ffff_ffffu64 {
        return Err(plan_invalid_of(m));
    }
    Ok(decoded.version as i64)
}

fn check_transition(m: CaseMutation, locked: &CaseRecordRef, previous: i64, t: &TransitionedCase, started_at: i64)
    -> (r: Result<CasePlan, CustomerPrivacyError>)
    ensures
        r == case_plan_of(transition_outcome(m, *locked, previous, *t, started_at), previous),
{
    if t.version > 0x7fff_ffff_ffff_ffffu64 {
        return Err(plan_invalid_of(m));
    }
    let next = t.version as i64;
    if !t.reached_target_status || locked.version != previous || previous == i64::MAX || next != previous + 1
        || (m == CaseMutation::VerifySubject && !t.has_subject_binding)
    {
        return Err(plan_invalid_of(m));
    }
    if (m == CaseMutation::Submit && t.has_subject_binding) || t.has_pending_rescope || t.has_scope_snapshot
        || t.has_action_plan || t.has_approval
    {
        return Err(plan_invalid_of(m));
    }
    if !str_eq(t.record_type.as_str(), locked.record_type.as_str()) || !str_eq(t.record_id.as_str(), locked.record_id.as_str()) {
        return Err(CustomerPrivacyError::CaseNotFound);
    }
    let verified = if m == CaseMutation::VerifySubject {
        match t.verified_at_unix_nanos {
            None => return Err(plan_invalid_of(m)),
            Some(v) => Some(v),
        }
    } else {
        None
    };
    let created_at_unix_ms = nanos_to_millis(t.created_at_unix_nanos)?;
    let updated_at_unix_ms = nanos_to_millis(started_at)?;
    let verified_at_unix_ms = match verified {
        None => None,
        Some(v) => Some(nanos_to_millis(v)?),
    };
    Ok(CasePlan { expected_version: previous, aggregate_version: next, created_at_unix_ms, updated_at_unix_ms,
        verified_at_unix_ms })
}

/// `d` is the confidential, high-risk case mutation `id` of the privacy
/// module.
pub open spec fn is_case_mutation_definition(d: CapabilityDefinition, owner: Seq<char>, id: Seq<char>, input: Seq<char>,
    output: Seq<char>) -> bool
{
    &&& is_protobuf_definition(d, id, owner, input, output, DataClass::Confidential)
    &&& d.risk == CapabilityRisk::High
    &&& d.mutation
    &&& d.requires_idempotency
    &&& !d.requires_approval
}

/// Plans `Draft -> Submitted` transitions of privacy cases.
#[derive(Debug, Default, Clone, Copy)]
pub struct CustomerPrivacyCaseSubmitCapabilityPlanner;

impl CustomerPrivacyCaseSubmitCapabilityPlanner {
    /// The submission capability: confidential, high risk, idempotent.
    pub fn capability_definition(coords: &CustomerPrivacyCoordinates) -> (r: Result<CapabilityDefinition, CustomerPrivacyError>)
        ensures
            r matches Ok(d) && is_case_mutation_definition(d, coords.module_id@, SUBMIT_PRIVACY_CASE_CAPABILITY@,
                SUBMIT_PRIVACY_CASE_REQUEST_SCHEMA@, SUBMIT_PRIVACY_CASE_RESPONSE_SCHEMA@),
    {
        Ok(protobuf_definition(SUBMIT_PRIVACY_CASE_CAPABILITY, coords.module_id, SUBMIT_PRIVACY_CASE_REQUEST_SCHEMA,
            SUBMIT_PRIVACY_CASE_RESPONSE_SCHEMA, DataClass::Confidential, CapabilityRisk::High, true, true))
    }

    /// The case a submission must find: the case it names.
    pub fn target(&self, coords: &CustomerPrivacyCoordinates, definition: &CapabilityDefinition,
        request: &RequestCoordinates, command: &CaseCommand) -> (r: Result<String, CustomerPrivacyError>)
        ensures
            !exact_coordinate(CaseMutation::Submit, *coords, *definition, *request) ==> r
                == Err::<String, CustomerPrivacyError>(CustomerPrivacyError::SubmitPlanInvalid),
            exact_coordinate(CaseMutation::Submit, *coords, *definition, *request) ==> {
                if command.expected_version <= 0 {
                    r == Err::<String, CustomerPrivacyError>(CustomerPrivacyError::ExpectedVersionNotPositive)
                } else {
                    match command.case_id {
                        None => r == Err::<String, CustomerPrivacyError>(CustomerPrivacyError::MissingReference),
                        Some(id) => (r matches Ok(t) && t@ == id@),
                    }
                }
            },
    {
        ensure_exact_coordinate(CaseMutation::Submit, coords, definition, request)?;
        positive_version(command.expected_version)?;
        match &command.case_id {
            None => Err(CustomerPrivacyError::MissingReference),
            Some(id) => Ok(id.clone()),
        }
    }

    /// Admits a submission against the locked case record: the coordinate
    /// must be exact, the expected version positive, and the record the
    /// requested case's. Returns the expected version the domain transition
    /// is asked to match.
    pub fn locate(&self, coords: &CustomerPrivacyCoordinates, definition: &CapabilityDefinition,
        request: &RequestCoordinates, command: &CaseCommand, current: Option<&CaseRecordRef>)
        -> (r: Result<u64, CustomerPrivacyError>)
        ensures
            !exact_coordinate(CaseMutation::Submit, *coords, *definition, *request) ==> r
                == Err::<u64, CustomerPrivacyError>(CustomerPrivacyError::SubmitPlanInvalid),
            exact_coordinate(CaseMutation::Submit, *coords, *definition, *request) ==> {
                if command.expected_version <= 0 {
                    r == Err::<u64, CustomerPrivacyError>(CustomerPrivacyError::ExpectedVersionNotPositive)
                } else {
                    r == locate_outcome(*coords, *command, match current { Some(c) => Some(*c), None => None })
                }
            },
    {
        ensure_exact_coordinate(CaseMutation::Submit, coords, definition, request)?;
        positive_version(command.expected_version)?;
        locate(coords, command, current)
    }

    /// Binds the case decoded from the locked record to the request; returns
    /// the version the submission advances from.
    pub fn bind(&self, requested: &String, tenant: &String, decoded: &DecodedCase) -> (r: Result<i64, CustomerPrivacyError>)
        ensures
            r == bind_outcome(CaseMutation::Submit, requested@, tenant@, *decoded),
    {
        bind(CaseMutation::Submit, requested, tenant, decoded)
    }

    /// Checks the submitted case before it is written: submitted, one
    /// version past the locked one, free of every later phase's evidence,
    /// stored under the locked record, with non-negative timestamps.
    pub fn check_transition(&self, locked: &CaseRecordRef, previous: i64, submitted: &TransitionedCase, started_at: i64)
        -> (r: Result<CasePlan, CustomerPrivacyError>)
        ensures
            r == case_plan_of(transition_outcome(CaseMutation::Submit, *locked, previous, *submitted, started_at), previous),
    {
        check_transition(CaseMutation::Submit, locked, previous, submitted, started_at)
    }
}

/// The verdict on a subject-verification request before any case is read:
/// positive expected version, positive generation, supported method.
pub open spec fn subject_command_outcome(command: SubjectCommand) -> Result<SubjectVerificationMethod, CustomerPrivacyError> {
    if command.case.expected_version <= 0 {
        Err(CustomerPrivacyError::ExpectedVersionNotPositive)
    } else if command.identity_resolution_generation == 0 {
        Err(CustomerPrivacyError::GenerationNotPositive)
    } else {
        match method_from_wire(command.verification_method) {
            None => Err(CustomerPrivacyError::UnsupportedVerificationMethod),
            Some(m) => Ok(m),
        }
    }
}

/// Plans `Submitted -> SubjectVerified` transitions of privacy cases.
#[derive(Debug, Default, Clone, Copy)]
pub struct CustomerPrivacyCaseSubjectVerifyCapabilityPlanner;

impl CustomerPrivacyCaseSubjectVerifyCapabilityPlanner {
    /// The subject-verification capability: confidential, high risk,
    /// idempotent.
    pub fn capability_definition(coords: &CustomerPrivacyCoordinates) -> (r: Result<CapabilityDefinition, CustomerPrivacyError>)
        ensures
            r matches Ok(d) && is_case_mutation_definition(d, coords.module_id@, VERIFY_PRIVACY_CASE_SUBJECT_CAPABILITY@,
                VERIFY_PRIVACY_CASE_SUBJECT_REQUEST_SCHEMA@, VERIFY_PRIVACY_CASE_SUBJECT_RESPONSE_SCHEMA@),
    {
        Ok(protobuf_definition(VERIFY_PRIVACY_CASE_SUBJECT_CAPABILITY, coords.module_id,
            VERIFY_PRIVACY_CASE_SUBJECT_REQUEST_SCHEMA, VERIFY_PRIVACY_CASE_SUBJECT_RESPONSE_SCHEMA,
            DataClass::Confidential, CapabilityRisk::High, true, true))
    }

    /// Checks a verification request's own fields.
    pub fn check_command(&self, command: &SubjectCommand) -> (r: Result<SubjectVerificationMethod, CustomerPrivacyError>)
        ensures
            r == subject_command_outcome(*command),
    {
        positive_version(command.case.expected_version)?;
        if command.identity_resolution_generation == 0 {
            return Err(CustomerPrivacyError::GenerationNotPositive);
        }
        SubjectVerificationMethod::from_wire(command.verification_method)
    }

    /// The case a verification must find: the case it names.
    pub fn target(&self, coords: &CustomerPrivacyCoordinates, definition: &CapabilityDefinition,
        request: &RequestCoordinates, command: &SubjectCommand) -> (r: Result<String, CustomerPrivacyError>)
        ensures
            !exact_coordinate(CaseMutation::VerifySubject, *coords, *definition, *request) ==> r
                == Err::<String, CustomerPrivacyError>(CustomerPrivacyError::SubjectVerifyPlanInvalid),
            exact_coordinate(CaseMutation::VerifySubject, *coords, *definition, *request) ==> {
                if subject_command_outcome(*command) is Err {
                    r == Err::<String, CustomerPrivacyError>(subject_command_outcome(*command)->Err_0)
                } else {
                    match command.case.case_id {
                        None => r == Err::<String, CustomerPrivacyError>(CustomerPrivacyError::MissingReference),
                        Some(id) => (r matches Ok(t) && t@ == id@),
                    }
                }
            },
    {
        ensure_exact_coordinate(CaseMutation::VerifySubject, coords, definition, request)?;
        self.check_command(command)?;
        match &command.case.case_id {
            None => Err(CustomerPrivacyError::MissingReference),
            Some(id) => Ok(id.clone()),
        }
    }

    /// Admits a verification against the locked case record; returns the
    /// expected version the domain transition is asked to match.
    pub fn locate(&self, coords: &CustomerPrivacyCoordinates, definition: &CapabilityDefinition,
        request: &RequestCoordinates, command: &SubjectCommand, current: Option<&CaseRecordRef>)
        -> (r: Result<u64, CustomerPrivacyError>)
        ensures
            !exact_coordinate(CaseMutation::VerifySubject, *coords, *definition, *request) ==> r
                == Err::<u64, CustomerPrivacyError>(CustomerPrivacyError::SubjectVerifyPlanInvalid),
            exact_coordinate(CaseMutation::VerifySubject, *coords, *definition, *request) ==> {
                if subject_command_outcome(*command) is Err {
                    r == Err::<u64, CustomerPrivacyError>(subject_command_outcome(*command)->Err_0)
                } else {
                    r == locate_outcome(*coords, command.case, match current { Some(c) => Some(*c), None => None })
                }
            },
    {
        ensure_exact_coordinate(CaseMutation::VerifySubject, coords, definition, request)?;
        self.check_command(command)?;
        locate(coords, &command.case, current)
    }

    /// Binds the decoded case to the request and requires both Party
    /// references; returns the version the verification advances from.
    pub fn bind(&self, requested: &String, tenant: &String, decoded: &DecodedCase, command: &SubjectCommand)
        -> (r: Result<i64, CustomerPrivacyError>)
        ensures
            bind_outcome(CaseMutation::VerifySubject, requested@, tenant@, *decoded) is Err
                && (decoded.case_id@ != requested@ || decoded.tenant_id@ != tenant@)
                ==> r == Err::<i64, CustomerPrivacyError>(CustomerPrivacyError::CaseNotFound),
            (decoded.case_id@ == requested@ && decoded.tenant_id@ == tenant@) ==> {
                if command.submitted_party_id is None || command.canonical_party_id is None {
                    r == Err::<i64, CustomerPrivacyError>(CustomerPrivacyError::MissingReference)
                } else {
                    r == bind_outcome(CaseMutation::VerifySubject, requested@, tenant@, *decoded)
                }
            },
    {
        if !str_eq(decoded.case_id.as_str(), requested.as_str()) || !str_eq(decoded.tenant_id.as_str(), tenant.as_str()) {
            return Err(CustomerPrivacyError::CaseNotFound);
        }
        if command.submitted_party_id.is_none() || command.canonical_party_id.is_none() {
            return Err(CustomerPrivacyError::MissingReference);
        }
        bind(CaseMutation::VerifySubject, requested, tenant, decoded)
    }

    /// Checks the verified case before it is written: subject-verified with
    /// a binding, one version past the locked one, free of later evidence,
    /// stored under the locked record, with non-negative timestamps.
    pub fn check_transition(&self, locked: &CaseRecordRef, previous: i64, verified: &TransitionedCase, started_at: i64)
        -> (r: Result<CasePlan, CustomerPrivacyError>)
        ensures
            r == case_plan_of(transition_outcome(CaseMutation::VerifySubject, *locked, previous, *verified, started_at), previous),
    {
        check_transition(CaseMutation::VerifySubject, locked, previous, verified, started_at)
    }
}


/// A case is only ever bound when it is the requested case of the
/// requesting tenant; a case of another tenant, or another case, is not
/// found, and the bound version is the decoded one.
pub proof fn cases_bind_only_within_the_requesting_tenant(m: CaseMutation, requested: Seq<char>, tenant: Seq<char>,
    decoded: DecodedCase)
    ensures
        bind_outcome(m, requested, tenant, decoded) matches Ok(v) ==> (decoded.case_id@ == requested
            && decoded.tenant_id@ == tenant && v as int == decoded.version as int),
        decoded.tenant_id@ != tenant ==> bind_outcome(m, requested, tenant, decoded) == Err::<i64, CustomerPrivacyError>(
            CustomerPrivacyError::CaseNotFound),
        decoded.case_id@ != requested ==> bind_outcome(m, requested, tenant, decoded) == Err::<i64, CustomerPrivacyError>(
            CustomerPrivacyError::CaseNotFound),
{
}

/// A case is only located through the record of the case the request names;
/// a missing record, or the record of another case, is not found.
pub proof fn cases_are_located_by_their_own_record(coords: CustomerPrivacyCoordinates, command: CaseCommand,
    current: Option<CaseRecordRef>)
    ensures
        locate_outcome(coords, command, current) is Ok ==> (command.case_id is Some && current is Some
            && current->0.record_id@ == command.case_id->0@ && current->0.record_type@
            == coords.privacy_case_record_type@),
        command.case_id is Some && current is None ==> locate_outcome(coords, command, current) == Err::<
            u64,
            CustomerPrivacyError,
        >(CustomerPrivacyError::CaseNotFound),
{
}

/// A planned case mutation updates the locked case from the version it was
/// locked at to the next one, stored under the locked record, reports its
/// creation time and the request's start time in whole milliseconds, and
/// reports a verification time exactly for a subject verification.
pub proof fn case_plans_report_the_transition(m: CaseMutation, locked: CaseRecordRef, previous: i64,
    t: TransitionedCase, started_at: i64)
    ensures
        case_plan_of(transition_outcome(m, locked, previous, t, started_at), previous) matches Ok(p) ==> {
            &&& p.expected_version == previous
            &&& previous == locked.version
            &&& p.aggregate_version == previous + 1
            &&& t.reached_target_status
            &&& t.record_id@ == locked.record_id@
            &&& t.record_type@ == locked.record_type@
            &&& p.created_at_unix_ms as int == t.created_at_unix_nanos as int / 1_000_000
            &&& p.updated_at_unix_ms as int == started_at as int / 1_000_000
            &&& (m == CaseMutation::VerifySubject <==> p.verified_at_unix_ms is Some)
            &&& (m == CaseMutation::VerifySubject ==> p.verified_at_unix_ms->0 as int
                == t.verified_at_unix_nanos->0 as int / 1_000_000)
            &&& (m == CaseMutation::VerifySubject ==> t.has_subject_binding)
            &&& (m == CaseMutation::Submit ==> !t.has_subject_binding)
            &&& !t.has_pending_rescope && !t.has_scope_snapshot && !t.has_action_plan && !t.has_approval
        },
{
}


/// A subject verification is only admitted with a positive expected
/// version, a positive Identity Resolution generation and a known
/// verification method, which is the method it plans.
pub proof fn subject_commands_need_positive_versions_and_a_known_method(command: SubjectCommand)
    ensures
        subject_command_outcome(command) matches Ok(m) ==> (command.case.expected_version > 0
            && command.identity_resolution_generation > 0 && method_from_wire(command.verification_method) == Some(m)),
        command.case.expected_version <= 0 ==> subject_command_outcome(command) == Err::<
            SubjectVerificationMethod,
            CustomerPrivacyError,
        >(CustomerPrivacyError::ExpectedVersionNotPositive),
        command.case.expected_version > 0 && command.identity_resolution_generation == 0 ==> subject_command_outcome(
            command) == Err::<SubjectVerificationMethod, CustomerPrivacyError>(CustomerPrivacyError::GenerationNotPositive),
{
}

} // verus!
