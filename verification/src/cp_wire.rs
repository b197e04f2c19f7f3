//! The public forms of a privacy case, a processing restriction and a
//! customer-data legal hold as the Customer Privacy queries return them:
//! the domain record is read as plain values, its timestamps are turned
//! into milliseconds and its enumerations into wire numbers, and each field
//! the caller may not see is cleared.
use vstd::prelude::*;
use crate::capability::DataClass;
use crate::cp_case::{NANOS_PER_MILLISECOND, SubjectVerificationMethod};
use crate::cp_query::{QueryRefusal, LEGAL_HOLD_STATUS_ACTIVE, LEGAL_HOLD_STATUS_RELEASED};
use crate::text::{strings_contain, strings_view};

verus! {

/// The kind of a privacy case.
#[derive(Debug, Clone, Copy, PartialEq, Eq, Structural)]
pub enum PrivacyCaseKind {
    Access,
    PortabilityExport,
    RestrictProcessing,
    Erasure,
}

/// The stage at which a retryable failure resumes.
#[derive(Debug, Clone, Copy, PartialEq, Eq, Structural)]
pub enum ResumeStage {
    Scoping,
    Planning,
    Executing,
    Converging,
}

/// The lifecycle status of a privacy case.
#[derive(Debug, Clone, Copy, PartialEq, Eq, Structural)]
pub enum PrivacyCaseStatus {
    Draft,
    Submitted,
    SubjectVerified,
    Scoping,
    Scoped,
    Planned,
    AwaitingApproval,
    Executing,
    Converging,
    RescopeRequired,
    FailedRetryable(ResumeStage),
    Completed,
    PartiallyCompleted,
    Denied,
    Cancelled,
    FailedTerminal,
}

/// Wire number of a case kind.
pub open spec fn kind_number(k: PrivacyCaseKind) -> i32 {
    match k {
        PrivacyCaseKind::Access => 1,
        PrivacyCaseKind::PortabilityExport => 2,
        PrivacyCaseKind::RestrictProcessing => 3,
        PrivacyCaseKind::Erasure => 4,
    }
}

/// Wire number of a resume stage.
pub open spec fn resume_stage_number(s: ResumeStage) -> i32 {
    match s {
        ResumeStage::Scoping => 1,
        ResumeStage::Planning => 2,
        ResumeStage::Executing => 3,
        ResumeStage::Converging => 4,
    }
}

/// Wire number of a case status.
pub open spec fn status_number(s: PrivacyCaseStatus) -> i32 {
    match s {
        PrivacyCaseStatus::Draft => 1,
        PrivacyCaseStatus::Submitted => 2,
        PrivacyCaseStatus::SubjectVerified => 3,
        PrivacyCaseStatus::Scoping => 4,
        PrivacyCaseStatus::Scoped => 5,
        PrivacyCaseStatus::Planned => 6,
        PrivacyCaseStatus::AwaitingApproval => 7,
        PrivacyCaseStatus::Executing => 8,
        PrivacyCaseStatus::Converging => 9,
        PrivacyCaseStatus::RescopeRequired => 10,
        PrivacyCaseStatus::FailedRetryable(_) => 11,
        PrivacyCaseStatus::Completed => 12,
        PrivacyCaseStatus::PartiallyCompleted => 13,
        PrivacyCaseStatus::Denied => 14,
        PrivacyCaseStatus::Cancelled => 15,
        PrivacyCaseStatus::FailedTerminal => 16,
    }
}

/// The resume stage a status carries on the wire: only a retryable failure
/// has one.
pub open spec fn status_resume_stage(s: PrivacyCaseStatus) -> Option<i32> {
    match s {
        PrivacyCaseStatus::FailedRetryable(stage) => Some(resume_stage_number(stage)),
        _ => None,
    }
}

/// Wire number of a verification method.
pub open spec fn method_number(m: SubjectVerificationMethod) -> i32 {
    match m {
        SubjectVerificationMethod::AuthenticatedPortal => 1,
        SubjectVerificationMethod::StaffAssisted => 2,
        SubjectVerificationMethod::VerifiedDocument => 3,
        SubjectVerificationMethod::ExistingHighAssuranceIdentity => 4,
    }
}

impl PrivacyCaseKind {
    /// The kind's wire number.
    pub fn to_wire(self) -> (r: i32)
        ensures
            r == kind_number(self),
    {
        match self {
            PrivacyCaseKind::Access => 1,
            PrivacyCaseKind::PortabilityExport => 2,
            PrivacyCaseKind::RestrictProcessing => 3,
            PrivacyCaseKind::Erasure => 4,
        }
    }
}

impl ResumeStage {
    /// The stage's wire number.
    pub fn to_wire(self) -> (r: i32)
        ensures
            r == resume_stage_number(self),
    {
        match self {
            ResumeStage::Scoping => 1,
            ResumeStage::Planning => 2,
            ResumeStage::Executing => 3,
            ResumeStage::Converging => 4,
        }
    }
}

impl PrivacyCaseStatus {
    /// The status's wire number and, for a retryable failure, the wire
    /// number of the stage it resumes at.
    pub fn to_wire(self) -> (r: (i32, Option<i32>))
        ensures
            r.0 == status_number(self),
            r.1 == status_resume_stage(self),
    {
        match self {
            PrivacyCaseStatus::Draft => (1, None),
            PrivacyCaseStatus::Submitted => (2, None),
            PrivacyCaseStatus::SubjectVerified => (3, None),
            PrivacyCaseStatus::Scoping => (4, None),
            PrivacyCaseStatus::Scoped => (5, None),
            PrivacyCaseStatus::Planned => (6, None),
            PrivacyCaseStatus::AwaitingApproval => (7, None),
            PrivacyCaseStatus::Executing => (8, None),
            PrivacyCaseStatus::Converging => (9, None),
            PrivacyCaseStatus::RescopeRequired => (10, None),
            PrivacyCaseStatus::FailedRetryable(stage) => (11, Some(stage.to_wire())),
            PrivacyCaseStatus::Completed => (12, None),
            PrivacyCaseStatus::PartiallyCompleted => (13, None),
            PrivacyCaseStatus::Denied => (14, None),
            PrivacyCaseStatus::Cancelled => (15, None),
            PrivacyCaseStatus::FailedTerminal => (16, None),
        }
    }
}

impl SubjectVerificationMethod {
    /// The method's wire number.
    pub fn to_wire(self) -> (r: i32)
        ensures
            r == method_number(self),
    {
        match self {
            SubjectVerificationMethod::AuthenticatedPortal => 1,
            SubjectVerificationMethod::StaffAssisted => 2,
            SubjectVerificationMethod::VerifiedDocument => 3,
            SubjectVerificationMethod::ExistingHighAssuranceIdentity => 4,
        }
    }
}

/// How a case's subject was bound, as the domain records it.
pub struct SubjectBindingFacts {
    pub submitted_party_id: String,
    pub canonical_party_id: String,
    pub identity_resolution_generation: u64,
    pub verification_method: SubjectVerificationMethod,
    pub verified_by: String,
    pub verified_at_unix_nanos: i64,
}

/// A pending change of a case's canonical subject, as the domain records it.
pub struct RescopeFacts {
    pub previous_canonical_party_id: String,
    pub proposed_canonical_party_id: String,
    pub previous_identity_resolution_generation: u64,
    pub proposed_identity_resolution_generation: u64,
    pub detected_at_unix_nanos: i64,
}

/// The approval of a case, as the domain records it.
pub struct ApprovalFacts {
    pub approved_by: String,
    pub approved_at_unix_nanos: i64,
}

/// A privacy case as the domain holds it, as plain values.
pub struct PrivacyCaseFacts {
    pub case_id: String,
    pub kind: PrivacyCaseKind,
    pub status: PrivacyCaseStatus,
    pub version: u64,
    pub policy_version: String,
    pub created_at_unix_nanos: i64,
    pub last_transition_at_unix_nanos: i64,
    pub previous_case_id: Option<String>,
    pub subject_binding: Option<SubjectBindingFacts>,
    pub pending_rescope: Option<RescopeFacts>,
    pub scope_snapshot_id: Option<String>,
    pub action_plan_id: Option<String>,
    pub approval: Option<ApprovalFacts>,
}

/// The public form of a subject binding.
pub struct PublicSubjectBinding {
    pub submitted_party_id: Option<String>,
    pub canonical_party_id: Option<String>,
    pub identity_resolution_generation: u64,
    pub verification_method: i32,
    pub verified_by_actor_id: String,
    pub verified_at_unix_ms: i64,
}

/// The public form of a pending rescope.
pub struct PublicRescope {
    pub previous_canonical_party_id: Option<String>,
    pub proposed_canonical_party_id: Option<String>,
    pub previous_identity_resolution_generation: u64,
    pub proposed_identity_resolution_generation: u64,
    pub detected_at_unix_ms: i64,
}

/// The public form of an approval.
pub struct PublicApproval {
    pub approved_by_actor_id: String,
    pub approved_at_unix_ms: i64,
}

/// The public form of a privacy case; references are given by identity.
pub struct PublicPrivacyCase {
    pub privacy_case_id: Option<String>,
    pub kind: i32,
    pub status: i32,
    pub version: i64,
    pub policy_version: String,
    pub created_at_unix_ms: i64,
    pub updated_at_unix_ms: i64,
    pub previous_privacy_case_id: Option<String>,
    pub subject_binding: Option<PublicSubjectBinding>,
    pub pending_rescope: Option<PublicRescope>,
    pub scope_snapshot_id: String,
    pub privacy_action_plan_id: Option<String>,
    pub approval: Option<PublicApproval>,
    pub retry_resume_stage: Option<i32>,
}

/// Milliseconds of a non-negative nanosecond timestamp.
pub open spec fn millis(nanos: i64) -> i64 {
    (nanos / NANOS_PER_MILLISECOND) as i64
}

/// The optional characters of an optional string.
pub open spec fn opt_view(s: Option<String>) -> Option<Seq<char>> {
    match s {
        Some(v) => Some(v@),
        None => None,
    }
}

/// A case can be made public: its version fits the wire and none of its
/// timestamps is negative.
pub open spec fn case_publishable(f: PrivacyCaseFacts) -> bool {
    &&& f.version <= i64::MAX
    &&& f.created_at_unix_nanos >= 0
    &&& f.last_transition_at_unix_nanos >= 0
    &&& (f.subject_binding matches Some(b) ==> b.verified_at_unix_nanos >= 0)
    &&& (f.pending_rescope matches Some(r) ==> r.detected_at_unix_nanos >= 0)
    &&& (f.approval matches Some(a) ==> a.approved_at_unix_nanos >= 0)
}

/// `p` is the public form of the subject binding `b`.
pub open spec fn is_public_binding(p: PublicSubjectBinding, b: SubjectBindingFacts) -> bool {
    &&& opt_view(p.submitted_party_id) == Some(b.submitted_party_id@)
    &&& opt_view(p.canonical_party_id) == Some(b.canonical_party_id@)
    &&& p.identity_resolution_generation == b.identity_resolution_generation
    &&& p.verification_method == method_number(b.verification_method)
    &&& p.verified_by_actor_id@ == b.verified_by@
    &&& p.verified_at_unix_ms == millis(b.verified_at_unix_nanos)
}

/// `p` is the public form of the pending rescope `r`.
pub open spec fn is_public_rescope(p: PublicRescope, r: RescopeFacts) -> bool {
    &&& opt_view(p.previous_canonical_party_id) == Some(r.previous_canonical_party_id@)
    &&& opt_view(p.proposed_canonical_party_id) == Some(r.proposed_canonical_party_id@)
    &&& p.previous_identity_resolution_generation == r.previous_identity_resolution_generation
    &&& p.proposed_identity_resolution_generation == r.proposed_identity_resolution_generation
    &&& p.detected_at_unix_ms == millis(r.detected_at_unix_nanos)
}

/// `p` is the public form of the approval `a`.
pub open spec fn is_public_approval(p: PublicApproval, a: ApprovalFacts) -> bool {
    &&& p.approved_by_actor_id@ == a.approved_by@
    &&& p.approved_at_unix_ms == millis(a.approved_at_unix_nanos)
}

/// `p` is the public form of the case `f`, with every field shown.
pub open spec fn is_public_case(p: PublicPrivacyCase, f: PrivacyCaseFacts) -> bool {
    &&& opt_view(p.privacy_case_id) == Some(f.case_id@)
    &&& p.kind == kind_number(f.kind)
    &&& p.status == status_number(f.status)
    &&& p.retry_resume_stage == status_resume_stage(f.status)
    &&& p.version == f.version as i64
    &&& p.policy_version@ == f.policy_version@
    &&& p.created_at_unix_ms == millis(f.created_at_unix_nanos)
    &&& p.updated_at_unix_ms == millis(f.last_transition_at_unix_nanos)
    &&& opt_view(p.previous_privacy_case_id) == opt_view(f.previous_case_id)
    &&& match (p.subject_binding, f.subject_binding) {
        (Some(pb), Some(fb)) => is_public_binding(pb, fb),
        (None, None) => true,
        _ => false,
    }
    &&& match (p.pending_rescope, f.pending_rescope) {
        (Some(pr), Some(fr)) => is_public_rescope(pr, fr),
        (None, None) => true,
        _ => false,
    }
    &&& p.scope_snapshot_id@ == match f.scope_snapshot_id {
        Some(s) => s@,
        None => Seq::<char>::empty(),
    }
    &&& opt_view(p.privacy_action_plan_id) == opt_view(f.action_plan_id)
    &&& match (p.approval, f.approval) {
        (Some(pa), Some(fa)) => is_public_approval(pa, fa),
        (None, None) => true,
        _ => false,
    }
}

fn clone_opt(s: &Option<String>) -> (r: Option<String>)
    ensures
        opt_view(r) == opt_view(*s),
{
    match s {
        Some(v) => Some(v.clone()),
        None => None,
    }
}

fn case_millis(nanos: i64) -> (r: Result<i64, QueryRefusal>)
    ensures
        nanos >= 0 ==> r == Ok::<i64, QueryRefusal>(millis(nanos)),
        nanos < 0 ==> r == Err::<i64, QueryRefusal>(QueryRefusal::CaseStateInvalid),
{
    if nanos < 0 {
        return Err(QueryRefusal::CaseStateInvalid);
    }
    Ok(nanos / NANOS_PER_MILLISECOND)
}

/// The public form of a case, with every field shown; a version beyond the
/// wire's range or a negative timestamp is corrupt case state.
pub fn privacy_case_to_public(f: &PrivacyCaseFacts) -> (r: Result<PublicPrivacyCase, QueryRefusal>)
    ensures
        case_publishable(*f) ==> (r matches Ok(p) && is_public_case(p, *f)),
        !case_publishable(*f) ==> r == Err::<PublicPrivacyCase, QueryRefusal>(QueryRefusal::CaseStateInvalid),
{
    let (status, retry_resume_stage) = f.status.to_wire();
    if f.version > 0x7fff_ffff_ffff_ffffu64 {
        return Err(QueryRefusal::CaseStateInvalid);
    }
    let created_at_unix_ms = case_millis(f.created_at_unix_nanos)?;
    let updated_at_unix_ms = case_millis(f.last_transition_at_unix_nanos)?;
    let subject_binding = match &f.subject_binding {
        None => None,
        Some(b) => Some(PublicSubjectBinding {
            submitted_party_id: Some(b.submitted_party_id.clone()),
            canonical_party_id: Some(b.canonical_party_id.clone()),
            identity_resolution_generation: b.identity_resolution_generation,
            verification_method: b.verification_method.to_wire(),
            verified_by_actor_id: b.verified_by.clone(),
            verified_at_unix_ms: case_millis(b.verified_at_unix_nanos)?,
        }),
    };
    let pending_rescope = match &f.pending_rescope {
        None => None,
        Some(x) => Some(PublicRescope {
            previous_canonical_party_id: Some(x.previous_canonical_party_id.clone()),
            proposed_canonical_party_id: Some(x.proposed_canonical_party_id.clone()),
            previous_identity_resolution_generation: x.previous_identity_resolution_generation,
            proposed_identity_resolution_generation: x.proposed_identity_resolution_generation,
            detected_at_unix_ms: case_millis(x.detected_at_unix_nanos)?,
        }),
    };
    let approval = match &f.approval {
        None => None,
        Some(a) => Some(PublicApproval {
            approved_by_actor_id: a.approved_by.clone(),
            approved_at_unix_ms: case_millis(a.approved_at_unix_nanos)?,
        }),
    };
    let scope_snapshot_id = match &f.scope_snapshot_id {
        Some(s) => s.clone(),
        None => String::new(),
    };
    Ok(PublicPrivacyCase {
        privacy_case_id: Some(f.case_id.clone()),
        kind: f.kind.to_wire(),
        status,
        version: f.version as i64,
        policy_version: f.policy_version.clone(),
        created_at_unix_ms,
        updated_at_unix_ms,
        previous_privacy_case_id: clone_opt(&f.previous_case_id),
        subject_binding,
        pending_rescope,
        scope_snapshot_id,
        privacy_action_plan_id: clone_opt(&f.action_plan_id),
        approval,
        retry_resume_stage,
    })
}

/// Whether the field `name` is among the fields a caller may see.
pub open spec fn shown(allowed: Seq<String>, name: &'static str) -> bool {
    strings_view(allowed).contains(name@)
}

/// `after` is `before` with each field not in `allowed` cleared: numbers to
/// zero (enumerations to unspecified), strings to empty, parts to absent;
/// the case's identity is always kept.
pub open spec fn is_redacted_case(after: PublicPrivacyCase, before: PublicPrivacyCase, allowed: Seq<String>) -> bool {
    &&& after.privacy_case_id == before.privacy_case_id
    &&& after.kind == if shown(allowed, "kind") { before.kind } else { 0 }
    &&& after.status == if shown(allowed, "status") { before.status } else { 0 }
    &&& after.version == if shown(allowed, "version") { before.version } else { 0 }
    &&& after.policy_version@ == if shown(allowed, "policy_version") { before.policy_version@ } else { Seq::empty() }
    &&& after.created_at_unix_ms == if shown(allowed, "created_at_unix_ms") { before.created_at_unix_ms } else { 0 }
    &&& after.updated_at_unix_ms == if shown(allowed, "updated_at_unix_ms") { before.updated_at_unix_ms } else { 0 }
    &&& after.previous_privacy_case_id == if shown(allowed, "previous_privacy_case_ref") {
        before.previous_privacy_case_id
    } else {
        None
    }
    &&& after.subject_binding == if shown(allowed, "subject_binding") { before.subject_binding } else { None }
    &&& after.pending_rescope == if shown(allowed, "pending_rescope") { before.pending_rescope } else { None }
    &&& after.scope_snapshot_id@ == if shown(allowed, "scope_snapshot_id") {
        before.scope_snapshot_id@
    } else {
        Seq::empty()
    }
    &&& after.privacy_action_plan_id == if shown(allowed, "privacy_action_plan_ref") {
        before.privacy_action_plan_id
    } else {
        None
    }
    &&& after.approval == if shown(allowed, "approval") { before.approval } else { None }
    &&& after.retry_resume_stage == if shown(allowed, "retry_resume_stage") { before.retry_resume_stage } else { None }
}

/// Clears each field of a public case that is not among the `allowed`
/// fields; the case's identity stays.
pub fn redact_privacy_case(output: &mut PublicPrivacyCase, allowed: &Vec<String>)
    ensures
        is_redacted_case(*final(output), *old(output), allowed@),
{
    if !strings_contain(allowed, "kind") {
        output.kind = 0;
    }
    if !strings_contain(allowed, "status") {
        output.status = 0;
    }
    if !strings_contain(allowed, "version") {
        output.version = 0;
    }
    if !strings_contain(allowed, "policy_version") {
        output.policy_version = String::new();
    }
    if !strings_contain(allowed, "created_at_unix_ms") {
        output.created_at_unix_ms = 0;
    }
    if !strings_contain(allowed, "updated_at_unix_ms") {
        output.updated_at_unix_ms = 0;
    }
    if !strings_contain(allowed, "previous_privacy_case_ref") {
        output.previous_privacy_case_id = None;
    }
    if !strings_contain(allowed, "subject_binding") {
        output.subject_binding = None;
    }
    if !strings_contain(allowed, "pending_rescope") {
        output.pending_rescope = None;
    }
    if !strings_contain(allowed, "scope_snapshot_id") {
        output.scope_snapshot_id = String::new();
    }
    if !strings_contain(allowed, "privacy_action_plan_ref") {
        output.privacy_action_plan_id = None;
    }
    if !strings_contain(allowed, "approval") {
        output.approval = None;
    }
    if !strings_contain(allowed, "retry_resume_stage") {
        output.retry_resume_stage = None;
    }
}

/// What a processing restriction restricts.
#[derive(Debug, Clone, Copy, PartialEq, Eq, Structural)]
pub enum RestrictionScope {
    Processing,
    Communication,
    ProcessingAndCommunication,
}

/// The status of a processing restriction.
#[derive(Debug, Clone, Copy, PartialEq, Eq, Structural)]
pub enum RestrictionStatus {
    Active,
    Released,
    Expired,
}

/// Wire number of a restriction scope.
pub open spec fn restriction_scope_number(s: RestrictionScope) -> i32 {
    match s {
        RestrictionScope::Processing => 1,
        RestrictionScope::Communication => 2,
        RestrictionScope::ProcessingAndCommunication => 3,
    }
}

/// Wire number of a restriction status.
pub open spec fn restriction_status_number(s: RestrictionStatus) -> i32 {
    match s {
        RestrictionStatus::Active => 1,
        RestrictionStatus::Released => 2,
        RestrictionStatus::Expired => 3,
    }
}

/// A processing restriction as the domain holds it, as plain values.
pub struct RestrictionFacts {
    pub restriction_id: String,
    pub canonical_party_id: String,
    pub scope: RestrictionScope,
    pub status: RestrictionStatus,
    pub version: u64,
    pub policy_version: String,
    pub placed_by: String,
    pub placed_at_unix_nanos: i64,
    pub effective_from_unix_nanos: i64,
    pub expires_at_unix_nanos: Option<i64>,
    pub released_by: Option<String>,
    pub released_at_unix_nanos: Option<i64>,
}

/// The public form of a processing restriction; references are given by
/// identity.
pub struct PublicRestriction {
    pub processing_restriction_id: Option<String>,
    pub canonical_party_id: Option<String>,
    pub scope: i32,
    pub status: i32,
    pub version: i64,
    pub policy_version: String,
    pub placed_by_actor_id: String,
    pub placed_at_unix_ms: i64,
    pub effective_from_unix_ms: i64,
    pub expires_at_unix_ms: Option<i64>,
    pub released_by_actor_id: Option<String>,
    pub released_at_unix_ms: Option<i64>,
}

/// Milliseconds of an optional non-negative nanosecond timestamp.
pub open spec fn opt_millis(nanos: Option<i64>) -> Option<i64> {
    match nanos {
        Some(n) => Some(millis(n)),
        None => None,
    }
}

/// An optional timestamp is absent or not negative.
pub open spec fn opt_non_negative(nanos: Option<i64>) -> bool {
    nanos matches Some(n) ==> n >= 0
}

/// A restriction can be made public: its version fits the wire and none of
/// its timestamps is negative.
pub open spec fn restriction_publishable(f: RestrictionFacts) -> bool {
    &&& f.version <= i64::MAX
    &&& f.placed_at_unix_nanos >= 0
    &&& f.effective_from_unix_nanos >= 0
    &&& opt_non_negative(f.expires_at_unix_nanos)
    &&& opt_non_negative(f.released_at_unix_nanos)
}

/// `p` is the public form of the restriction `f`, with every field shown.
pub open spec fn is_public_restriction(p: PublicRestriction, f: RestrictionFacts) -> bool {
    &&& opt_view(p.processing_restriction_id) == Some(f.restriction_id@)
    &&& opt_view(p.canonical_party_id) == Some(f.canonical_party_id@)
    &&& p.scope == restriction_scope_number(f.scope)
    &&& p.status == restriction_status_number(f.status)
    &&& p.version == f.version as i64
    &&& p.policy_version@ == f.policy_version@
    &&& p.placed_by_actor_id@ == f.placed_by@
    &&& p.placed_at_unix_ms == millis(f.placed_at_unix_nanos)
    &&& p.effective_from_unix_ms == millis(f.effective_from_unix_nanos)
    &&& p.expires_at_unix_ms == opt_millis(f.expires_at_unix_nanos)
    &&& opt_view(p.released_by_actor_id) == opt_view(f.released_by)
    &&& p.released_at_unix_ms == opt_millis(f.released_at_unix_nanos)
}

fn control_millis(nanos: i64) -> (r: Result<i64, QueryRefusal>)
    ensures
        nanos >= 0 ==> r == Ok::<i64, QueryRefusal>(millis(nanos)),
        nanos < 0 ==> r == Err::<i64, QueryRefusal>(QueryRefusal::ControlStateInvalid),
{
    if nanos < 0 {
        return Err(QueryRefusal::ControlStateInvalid);
    }
    Ok(nanos / NANOS_PER_MILLISECOND)
}

fn control_opt_millis(nanos: Option<i64>) -> (r: Result<Option<i64>, QueryRefusal>)
    ensures
        opt_non_negative(nanos) ==> r == Ok::<Option<i64>, QueryRefusal>(opt_millis(nanos)),
        !opt_non_negative(nanos) ==> r == Err::<Option<i64>, QueryRefusal>(QueryRefusal::ControlStateInvalid),
{
    match nanos {
        None => Ok(None),
        Some(n) => Ok(Some(control_millis(n)?)),
    }
}

/// The public form of a processing restriction, with every field shown; a
/// version beyond the wire's range or a negative timestamp is corrupt
/// control state.
pub fn processing_restriction_to_public(f: &RestrictionFacts) -> (r: Result<PublicRestriction, QueryRefusal>)
    ensures
        restriction_publishable(*f) ==> (r matches Ok(p) && is_public_restriction(p, *f)),
        !restriction_publishable(*f) ==> r == Err::<PublicRestriction, QueryRefusal>(
            QueryRefusal::ControlStateInvalid),
{
    let scope = match f.scope {
        RestrictionScope::Processing => 1,
        RestrictionScope::Communication => 2,
        RestrictionScope::ProcessingAndCommunication => 3,
    };
    let status = match f.status {
        RestrictionStatus::Active => 1,
        RestrictionStatus::Released => 2,
        RestrictionStatus::Expired => 3,
    };
    if f.version > 0x7fff_ffff_ffff_ffffu64 {
        return Err(QueryRefusal::ControlStateInvalid);
    }
    Ok(PublicRestriction {
        processing_restriction_id: Some(f.restriction_id.clone()),
        canonical_party_id: Some(f.canonical_party_id.clone()),
        scope,
        status,
        version: f.version as i64,
        policy_version: f.policy_version.clone(),
        placed_by_actor_id: f.placed_by.clone(),
        placed_at_unix_ms: control_millis(f.placed_at_unix_nanos)?,
        effective_from_unix_ms: control_millis(f.effective_from_unix_nanos)?,
        expires_at_unix_ms: control_opt_millis(f.expires_at_unix_nanos)?,
        released_by_actor_id: clone_opt(&f.released_by),
        released_at_unix_ms: control_opt_millis(f.released_at_unix_nanos)?,
    })
}

/// `after` is `before` with each field not in `allowed` cleared; the
/// restriction's identity is always kept.
pub open spec fn is_redacted_restriction(after: PublicRestriction, before: PublicRestriction, allowed: Seq<String>)
    -> bool
{
    &&& after.processing_restriction_id == before.processing_restriction_id
    &&& after.canonical_party_id == if shown(allowed, "canonical_party_ref") { before.canonical_party_id } else { None }
    &&& after.scope == if shown(allowed, "scope") { before.scope } else { 0 }
    &&& after.status == if shown(allowed, "status") { before.status } else { 0 }
    &&& after.version == if shown(allowed, "version") { before.version } else { 0 }
    &&& after.policy_version@ == if shown(allowed, "policy_version") { before.policy_version@ } else { Seq::empty() }
    &&& after.placed_by_actor_id@ == if shown(allowed, "placed_by_actor_id") {
        before.placed_by_actor_id@
    } else {
        Seq::empty()
    }
    &&& after.placed_at_unix_ms == if shown(allowed, "placed_at_unix_ms") { before.placed_at_unix_ms } else { 0 }
    &&& after.effective_from_unix_ms == if shown(allowed, "effective_from_unix_ms") {
        before.effective_from_unix_ms
    } else {
        0
    }
    &&& after.expires_at_unix_ms == if shown(allowed, "expires_at_unix_ms") { before.expires_at_unix_ms } else { None }
    &&& after.released_by_actor_id == if shown(allowed, "released_by_actor_id") {
        before.released_by_actor_id
    } else {
        None
    }
    &&& after.released_at_unix_ms == if shown(allowed, "released_at_unix_ms") {
        before.released_at_unix_ms
    } else {
        None
    }
}

/// Clears each field of a public restriction that is not among the
/// `allowed` fields; the restriction's identity stays.
pub fn redact_restriction(value: &mut PublicRestriction, allowed: &Vec<String>)
    ensures
        is_redacted_restriction(*final(value), *old(value), allowed@),
{
    if !strings_contain(allowed, "canonical_party_ref") {
        value.canonical_party_id = None;
    }
    if !strings_contain(allowed, "scope") {
        value.scope = 0;
    }
    if !strings_contain(allowed, "status") {
        value.status = 0;
    }
    if !strings_contain(allowed, "version") {
        value.version = 0;
    }
    if !strings_contain(allowed, "policy_version") {
        value.policy_version = String::new();
    }
    if !strings_contain(allowed, "placed_by_actor_id") {
        value.placed_by_actor_id = String::new();
    }
    if !strings_contain(allowed, "placed_at_unix_ms") {
        value.placed_at_unix_ms = 0;
    }
    if !strings_contain(allowed, "effective_from_unix_ms") {
        value.effective_from_unix_ms = 0;
    }
    if !strings_contain(allowed, "expires_at_unix_ms") {
        value.expires_at_unix_ms = None;
    }
    if !strings_contain(allowed, "released_by_actor_id") {
        value.released_by_actor_id = None;
    }
    if !strings_contain(allowed, "released_at_unix_ms") {
        value.released_at_unix_ms = None;
    }
}

/// What a legal hold preserves.
#[derive(Debug, Clone, PartialEq, Eq)]
pub enum LegalHoldScope {
    AllCustomerData,
    DataClass(DataClass),
    /// Every record of one owner module.
    Owner(String),
}

/// The public form of a legal-hold scope.
#[derive(Debug, Clone, PartialEq, Eq)]
pub enum PublicLegalHoldScope {
    AllCustomerData,
    /// The wire number of the preserved data class.
    DataClass(i32),
    OwnerModuleId(String),
}

/// Wire number of a data class.
pub open spec fn data_class_number(c: DataClass) -> i32 {
    match c {
        DataClass::Public => 1,
        DataClass::Internal => 2,
        DataClass::Confidential => 3,
        DataClass::Restricted => 4,
        DataClass::Personal => 5,
        DataClass::SensitivePersonal => 6,
        DataClass::Biometric => 7,
        DataClass::Financial => 8,
        DataClass::Credential => 9,
    }
}

/// `p` is the public form of the legal-hold scope `s`.
pub open spec fn is_public_hold_scope(p: PublicLegalHoldScope, s: LegalHoldScope) -> bool {
    match (p, s) {
        (PublicLegalHoldScope::AllCustomerData, LegalHoldScope::AllCustomerData) => true,
        (PublicLegalHoldScope::DataClass(n), LegalHoldScope::DataClass(c)) => n == data_class_number(c),
        (PublicLegalHoldScope::OwnerModuleId(a), LegalHoldScope::Owner(b)) => a@ == b@,
        _ => false,
    }
}

/// The public form of a legal-hold scope.
pub fn legal_hold_scope_to_public(s: &LegalHoldScope) -> (r: PublicLegalHoldScope)
    ensures
        is_public_hold_scope(r, *s),
{
    match s {
        LegalHoldScope::AllCustomerData => PublicLegalHoldScope::AllCustomerData,
        LegalHoldScope::DataClass(c) => PublicLegalHoldScope::DataClass(match c {
            DataClass::Public => 1,
            DataClass::Internal => 2,
            DataClass::Confidential => 3,
            DataClass::Restricted => 4,
            DataClass::Personal => 5,
            DataClass::SensitivePersonal => 6,
            DataClass::Biometric => 7,
            DataClass::Financial => 8,
            DataClass::Credential => 9,
        }),
        LegalHoldScope::Owner(o) => PublicLegalHoldScope::OwnerModuleId(o.clone()),
    }
}

/// A customer-data legal hold as the domain holds it, as plain values.
pub struct LegalHoldFacts {
    pub hold_id: String,
    pub canonical_party_id: String,
    pub scope: LegalHoldScope,
    pub authority_reference: String,
    pub reason_code: String,
    pub policy_version: String,
    /// Whether the hold is active; a hold that is not is released.
    pub active: bool,
    pub version: u64,
    pub placed_by: String,
    pub effective_from_unix_nanos: i64,
    pub effective_until_unix_nanos: Option<i64>,
    pub released_by: Option<String>,
    pub released_at_unix_nanos: Option<i64>,
}

/// The public form of a legal hold; references are given by identity.
pub struct PublicLegalHold {
    pub customer_data_legal_hold_id: Option<String>,
    pub canonical_party_id: Option<String>,
    pub scope: Option<PublicLegalHoldScope>,
    pub authority_reference_id: String,
    pub reason_code: String,
    pub policy_version: String,
    pub status: i32,
    pub version: i64,
    pub placed_by_actor_id: String,
    pub effective_from_unix_ms: i64,
    pub effective_until_unix_ms: Option<i64>,
    pub released_by_actor_id: Option<String>,
    pub released_at_unix_ms: Option<i64>,
}

/// A legal hold can be made public: its version fits the wire and none of
/// its timestamps is negative.
pub open spec fn hold_publishable(f: LegalHoldFacts) -> bool {
    &&& f.version <= i64::MAX
    &&& f.effective_from_unix_nanos >= 0
    &&& opt_non_negative(f.effective_until_unix_nanos)
    &&& opt_non_negative(f.released_at_unix_nanos)
}

/// `p` is the public form of the legal hold `f`, with every field shown.
pub open spec fn is_public_hold(p: PublicLegalHold, f: LegalHoldFacts) -> bool {
    &&& opt_view(p.customer_data_legal_hold_id) == Some(f.hold_id@)
    &&& opt_view(p.canonical_party_id) == Some(f.canonical_party_id@)
    &&& (p.scope matches Some(s) && is_public_hold_scope(s, f.scope))
    &&& p.authority_reference_id@ == f.authority_reference@
    &&& p.reason_code@ == f.reason_code@
    &&& p.policy_version@ == f.policy_version@
    &&& p.status == if f.active { LEGAL_HOLD_STATUS_ACTIVE } else { LEGAL_HOLD_STATUS_RELEASED }
    &&& p.version == f.version as i64
    &&& p.placed_by_actor_id@ == f.placed_by@
    &&& p.effective_from_unix_ms == millis(f.effective_from_unix_nanos)
    &&& p.effective_until_unix_ms == opt_millis(f.effective_until_unix_nanos)
    &&& opt_view(p.released_by_actor_id) == opt_view(f.released_by)
    &&& p.released_at_unix_ms == opt_millis(f.released_at_unix_nanos)
}

/// The public form of a legal hold, with every field shown; a version
/// beyond the wire's range or a negative timestamp is corrupt control state.
pub fn legal_hold_to_public(f: &LegalHoldFacts) -> (r: Result<PublicLegalHold, QueryRefusal>)
    ensures
        hold_publishable(*f) ==> (r matches Ok(p) && is_public_hold(p, *f)),
        !hold_publishable(*f) ==> r == Err::<PublicLegalHold, QueryRefusal>(QueryRefusal::ControlStateInvalid),
{
    if f.version > 0x7fff_ffff_ffff_ffffu64 {
        return Err(QueryRefusal::ControlStateInvalid);
    }
    Ok(PublicLegalHold {
        customer_data_legal_hold_id: Some(f.hold_id.clone()),
        canonical_party_id: Some(f.canonical_party_id.clone()),
        scope: Some(legal_hold_scope_to_public(&f.scope)),
        authority_reference_id: f.authority_reference.clone(),
        reason_code: f.reason_code.clone(),
        policy_version: f.policy_version.clone(),
        status: if f.active { LEGAL_HOLD_STATUS_ACTIVE } else { LEGAL_HOLD_STATUS_RELEASED },
        version: f.version as i64,
        placed_by_actor_id: f.placed_by.clone(),
        effective_from_unix_ms: control_millis(f.effective_from_unix_nanos)?,
        effective_until_unix_ms: control_opt_millis(f.effective_until_unix_nanos)?,
        released_by_actor_id: clone_opt(&f.released_by),
        released_at_unix_ms: control_opt_millis(f.released_at_unix_nanos)?,
    })
}

/// `after` is `before` with each field not in `allowed` cleared; the hold's
/// identity is always kept.
pub open spec fn is_redacted_hold(after: PublicLegalHold, before: PublicLegalHold, allowed: Seq<String>) -> bool {
    &&& after.customer_data_legal_hold_id == before.customer_data_legal_hold_id
    &&& after.canonical_party_id == if shown(allowed, "canonical_party_ref") { before.canonical_party_id } else { None }
    &&& after.scope == if shown(allowed, "scope") { before.scope } else { None }
    &&& after.authority_reference_id@ == if shown(allowed, "authority_reference_id") {
        before.authority_reference_id@
    } else {
        Seq::empty()
    }
    &&& after.reason_code@ == if shown(allowed, "reason_code") { before.reason_code@ } else { Seq::empty() }
    &&& after.policy_version@ == if shown(allowed, "policy_version") { before.policy_version@ } else { Seq::empty() }
    &&& after.status == if shown(allowed, "status") { before.status } else { 0 }
    &&& after.version == if shown(allowed, "version") { before.version } else { 0 }
    &&& after.placed_by_actor_id@ == if shown(allowed, "placed_by_actor_id") {
        before.placed_by_actor_id@
    } else {
        Seq::empty()
    }
    &&& after.effective_from_unix_ms == if shown(allowed, "effective_from_unix_ms") {
        before.effective_from_unix_ms
    } else {
        0
    }
    &&& after.effective_until_unix_ms == if shown(allowed, "effective_until_unix_ms") {
        before.effective_until_unix_ms
    } else {
        None
    }
    &&& after.released_by_actor_id == if shown(allowed, "released_by_actor_id") {
        before.released_by_actor_id
    } else {
        None
    }
    &&& after.released_at_unix_ms == if shown(allowed, "released_at_unix_ms") {
        before.released_at_unix_ms
    } else {
        None
    }
}

/// Clears each field of a public legal hold that is not among the
/// `allowed` fields; the hold's identity stays.
pub fn redact_legal_hold(value: &mut PublicLegalHold, allowed: &Vec<String>)
    ensures
        is_redacted_hold(*final(value), *old(value), allowed@),
{
    if !strings_contain(allowed, "canonical_party_ref") {
        value.canonical_party_id = None;
    }
    if !strings_contain(allowed, "scope") {
        value.scope = None;
    }
    if !strings_contain(allowed, "authority_reference_id") {
        value.authority_reference_id = String::new();
    }
    if !strings_contain(allowed, "reason_code") {
        value.reason_code = String::new();
    }
    if !strings_contain(allowed, "policy_version") {
        value.policy_version = String::new();
    }
    if !strings_contain(allowed, "status") {
        value.status = 0;
    }
    if !strings_contain(allowed, "version") {
        value.version = 0;
    }
    if !strings_contain(allowed, "placed_by_actor_id") {
        value.placed_by_actor_id = String::new();
    }
    if !strings_contain(allowed, "effective_from_unix_ms") {
        value.effective_from_unix_ms = 0;
    }
    if !strings_contain(allowed, "effective_until_unix_ms") {
        value.effective_until_unix_ms = None;
    }
    if !strings_contain(allowed, "released_by_actor_id") {
        value.released_by_actor_id = None;
    }
    if !strings_contain(allowed, "released_at_unix_ms") {
        value.released_at_unix_ms = None;
    }
}


/// The public form of a case shows what the case records, each in its own
/// place: its identity, version and policy version; the submitted and the
/// canonical Party of its subject binding, with the binding's generation and
/// verifier; the previous and the proposed canonical Party of a pending
/// rescope, with the previous and the proposed generation and the time the
/// rescope was detected in whole milliseconds; and its approver.
pub proof fn public_case_shows_the_recorded_case(p: PublicPrivacyCase, f: PrivacyCaseFacts)
    requires
        is_public_case(p, f),
    ensures
        p.privacy_case_id is Some && p.privacy_case_id->0@ == f.case_id@,
        p.version as int == f.version as int || f.version > i64::MAX,
        p.policy_version@ == f.policy_version@,
        p.created_at_unix_ms as int == f.created_at_unix_nanos as int / 1_000_000 || f.created_at_unix_nanos < 0,
        p.updated_at_unix_ms as int == f.last_transition_at_unix_nanos as int / 1_000_000
            || f.last_transition_at_unix_nanos < 0,
        p.previous_privacy_case_id is Some <==> f.previous_case_id is Some,
        f.previous_case_id is Some ==> p.previous_privacy_case_id->0@ == f.previous_case_id->0@,
        p.subject_binding is Some <==> f.subject_binding is Some,
        f.subject_binding is Some ==> ({
            let pb = p.subject_binding->0;
            let fb = f.subject_binding->0;
            &&& pb.submitted_party_id is Some && pb.submitted_party_id->0@ == fb.submitted_party_id@
            &&& pb.canonical_party_id is Some && pb.canonical_party_id->0@ == fb.canonical_party_id@
            &&& pb.identity_resolution_generation == fb.identity_resolution_generation
            &&& pb.verified_by_actor_id@ == fb.verified_by@
        }),
        p.pending_rescope is Some <==> f.pending_rescope is Some,
        f.pending_rescope is Some ==> ({
            let pr = p.pending_rescope->0;
            let fr = f.pending_rescope->0;
            &&& pr.previous_canonical_party_id is Some
            &&& pr.previous_canonical_party_id->0@ == fr.previous_canonical_party_id@
            &&& pr.proposed_canonical_party_id is Some
            &&& pr.proposed_canonical_party_id->0@ == fr.proposed_canonical_party_id@
            &&& pr.previous_identity_resolution_generation == fr.previous_identity_resolution_generation
            &&& pr.proposed_identity_resolution_generation == fr.proposed_identity_resolution_generation
            &&& (pr.detected_at_unix_ms as int == fr.detected_at_unix_nanos as int / 1_000_000
                || fr.detected_at_unix_nanos < 0)
        }),
        p.privacy_action_plan_id is Some <==> f.action_plan_id is Some,
        f.action_plan_id is Some ==> p.privacy_action_plan_id->0@ == f.action_plan_id->0@,
        p.approval is Some <==> f.approval is Some,
        f.approval is Some ==> p.approval->0.approved_by_actor_id@ == f.approval->0.approved_by@,
        f.scope_snapshot_id is Some ==> p.scope_snapshot_id@ == f.scope_snapshot_id->0@,
        f.scope_snapshot_id is None ==> p.scope_snapshot_id@ == Seq::<char>::empty(),
{
}

/// The public form of a processing restriction shows what it records:
/// its identity, the canonical Party it protects, version and policy, who
/// placed it and when, and who released it and when, if anyone did.
pub proof fn public_restriction_shows_the_recorded_restriction(p: PublicRestriction, f: RestrictionFacts)
    requires
        is_public_restriction(p, f),
    ensures
        p.processing_restriction_id is Some && p.processing_restriction_id->0@ == f.restriction_id@,
        p.canonical_party_id is Some && p.canonical_party_id->0@ == f.canonical_party_id@,
        p.version as int == f.version as int || f.version > i64::MAX,
        p.policy_version@ == f.policy_version@,
        p.placed_by_actor_id@ == f.placed_by@,
        p.placed_at_unix_ms as int == f.placed_at_unix_nanos as int / 1_000_000 || f.placed_at_unix_nanos < 0,
        p.effective_from_unix_ms as int == f.effective_from_unix_nanos as int / 1_000_000
            || f.effective_from_unix_nanos < 0,
        p.expires_at_unix_ms is Some <==> f.expires_at_unix_nanos is Some,
        p.released_by_actor_id is Some <==> f.released_by is Some,
        f.released_by is Some ==> p.released_by_actor_id->0@ == f.released_by->0@,
        p.released_at_unix_ms is Some <==> f.released_at_unix_nanos is Some,
{
}

/// The public form of a legal hold shows what it records: its identity, the
/// canonical Party it holds data of, its authority, reason, policy, status
/// (active or released), version, who placed it, and who released it.
pub proof fn public_hold_shows_the_recorded_hold(p: PublicLegalHold, f: LegalHoldFacts)
    requires
        is_public_hold(p, f),
    ensures
        p.customer_data_legal_hold_id is Some && p.customer_data_legal_hold_id->0@ == f.hold_id@,
        p.canonical_party_id is Some && p.canonical_party_id->0@ == f.canonical_party_id@,
        p.scope is Some,
        p.authority_reference_id@ == f.authority_reference@,
        p.reason_code@ == f.reason_code@,
        p.policy_version@ == f.policy_version@,
        f.active ==> p.status == LEGAL_HOLD_STATUS_ACTIVE,
        !f.active ==> p.status == LEGAL_HOLD_STATUS_RELEASED,
        p.version as int == f.version as int || f.version > i64::MAX,
        p.placed_by_actor_id@ == f.placed_by@,
        p.released_by_actor_id is Some <==> f.released_by is Some,
        f.released_by is Some ==> p.released_by_actor_id->0@ == f.released_by->0@,
        p.effective_until_unix_ms is Some <==> f.effective_until_unix_nanos is Some,
        p.released_at_unix_ms is Some <==> f.released_at_unix_nanos is Some,
{
}


/// Redacting a public case keeps its identity, keeps each part the caller
/// may see exactly as it was and clears the others; redacting it again for
/// the same caller changes nothing.
pub proof fn case_redaction_keeps_only_what_is_allowed(before: PublicPrivacyCase, once: PublicPrivacyCase,
    twice: PublicPrivacyCase, allowed: Seq<String>)
    requires
        is_redacted_case(once, before, allowed),
        is_redacted_case(twice, once, allowed),
    ensures
        once.privacy_case_id == before.privacy_case_id,
        strings_view(allowed).contains("pending_rescope"@) ==> once.pending_rescope == before.pending_rescope,
        !strings_view(allowed).contains("pending_rescope"@) ==> once.pending_rescope is None,
        strings_view(allowed).contains("subject_binding"@) ==> once.subject_binding == before.subject_binding,
        !strings_view(allowed).contains("subject_binding"@) ==> once.subject_binding is None,
        strings_view(allowed).contains("status"@) ==> once.status == before.status,
        !strings_view(allowed).contains("status"@) ==> once.status == 0,
        strings_view(allowed).contains("approval"@) ==> once.approval == before.approval,
        !strings_view(allowed).contains("approval"@) ==> once.approval is None,
        twice.privacy_case_id == once.privacy_case_id && twice.kind == once.kind && twice.status == once.status
            && twice.version == once.version && twice.policy_version@ == once.policy_version@
            && twice.created_at_unix_ms == once.created_at_unix_ms && twice.updated_at_unix_ms
            == once.updated_at_unix_ms && twice.previous_privacy_case_id == once.previous_privacy_case_id
            && twice.subject_binding == once.subject_binding && twice.pending_rescope == once.pending_rescope
            && twice.scope_snapshot_id@ == once.scope_snapshot_id@ && twice.privacy_action_plan_id
            == once.privacy_action_plan_id && twice.approval == once.approval && twice.retry_resume_stage
            == once.retry_resume_stage,
{
}

/// Redacting a public restriction keeps its identity, shows the protected
/// Party exactly when the caller may see it, and changes nothing when
/// repeated.
pub proof fn restriction_redaction_keeps_only_what_is_allowed(before: PublicRestriction, once: PublicRestriction,
    twice: PublicRestriction, allowed: Seq<String>)
    requires
        is_redacted_restriction(once, before, allowed),
        is_redacted_restriction(twice, once, allowed),
    ensures
        once.processing_restriction_id == before.processing_restriction_id,
        strings_view(allowed).contains("canonical_party_ref"@) ==> once.canonical_party_id == before.canonical_party_id,
        !strings_view(allowed).contains("canonical_party_ref"@) ==> once.canonical_party_id is None,
        strings_view(allowed).contains("released_by_actor_id"@) ==> once.released_by_actor_id
            == before.released_by_actor_id,
        twice.processing_restriction_id == once.processing_restriction_id && twice.canonical_party_id
            == once.canonical_party_id && twice.scope == once.scope && twice.status == once.status && twice.version
            == once.version && twice.placed_by_actor_id@ == once.placed_by_actor_id@ && twice.released_by_actor_id
            == once.released_by_actor_id && twice.expires_at_unix_ms == once.expires_at_unix_ms,
{
}

/// Redacting a public legal hold keeps its identity, shows the held Party
/// and the hold's authority exactly when the caller may see them, and
/// changes nothing when repeated.
pub proof fn hold_redaction_keeps_only_what_is_allowed(before: PublicLegalHold, once: PublicLegalHold,
    twice: PublicLegalHold, allowed: Seq<String>)
    requires
        is_redacted_hold(once, before, allowed),
        is_redacted_hold(twice, once, allowed),
    ensures
        once.customer_data_legal_hold_id == before.customer_data_legal_hold_id,
        strings_view(allowed).contains("canonical_party_ref"@) ==> once.canonical_party_id == before.canonical_party_id,
        !strings_view(allowed).contains("canonical_party_ref"@) ==> once.canonical_party_id is None,
        strings_view(allowed).contains("authority_reference_id"@) ==> once.authority_reference_id@
            == before.authority_reference_id@,
        !strings_view(allowed).contains("authority_reference_id"@) ==> once.authority_reference_id@.len() == 0,
        twice.customer_data_legal_hold_id == once.customer_data_legal_hold_id && twice.canonical_party_id
            == once.canonical_party_id && twice.scope == once.scope && twice.status == once.status
            && twice.reason_code@ == once.reason_code@ && twice.released_by_actor_id == once.released_by_actor_id,
{
}

} // verus!
