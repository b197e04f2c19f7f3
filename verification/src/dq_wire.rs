//! The public forms of Data Quality records as the capabilities and the
//! queries return them: findings, their observations, evaluation jobs and
//! completeness results. Each is built from the domain record read as plain
//! values; a query then clears each field the caller may not see, keeping
//! the record's identity.
use vstd::prelude::*;
use crate::dq_model::{severity_to_wire, status_to_wire, FindingStatus, QualitySeverity};
use crate::privacy_associations::EvaluationJobStatus;
use crate::text::{strings_contain, strings_view};

verus! {

/// A version of a record, with the times it was created and last updated
/// where the version carries them (nanoseconds since the epoch).
pub struct ResourceVersionStamp {
    pub version: i64,
    pub created_at: Option<i64>,
    pub updated_at: Option<i64>,
}

/// A bare version, without times.
pub open spec fn bare_version(version: i64) -> ResourceVersionStamp {
    ResourceVersionStamp { version, created_at: None, updated_at: None }
}

/// A version stamped with the record's creation and update times.
pub open spec fn stamped_version(version: i64, created_at: i64, updated_at: i64) -> ResourceVersionStamp {
    ResourceVersionStamp { version, created_at: Some(created_at), updated_at: Some(updated_at) }
}

fn bare(version: i64) -> (r: ResourceVersionStamp)
    ensures
        r == bare_version(version),
{
    ResourceVersionStamp { version, created_at: None, updated_at: None }
}

fn stamped(version: i64, created_at: i64, updated_at: i64) -> (r: ResourceVersionStamp)
    ensures
        r == stamped_version(version, created_at, updated_at),
{
    ResourceVersionStamp { version, created_at: Some(created_at), updated_at: Some(updated_at) }
}

fn clone_opt(s: &Option<String>) -> (r: Option<String>)
    ensures
        r == *s,
{
    match s {
        Some(v) => Some(v.clone()),
        None => None,
    }
}

/// Whether the field `name` is among the fields a caller may see.
pub open spec fn shown(allowed: Seq<String>, name: &'static str) -> bool {
    strings_view(allowed).contains(name@)
}

/// A finding as stored, as plain values.
pub struct StoredFinding {
    pub finding_id: String,
    pub party_id: String,
    pub rule_set_version_id: String,
    pub rule_key: String,
    pub severity: QualitySeverity,
    pub status: FindingStatus,
    pub current_observation_id: String,
    pub evaluated_party_resource_version: i64,
    pub assigned_actor_id: Option<String>,
    pub waiver_reason: Option<String>,
    pub created_at: i64,
    pub updated_at: i64,
    pub remediated_by_rule_outcome_id: Option<String>,
}

/// The public form of a finding; references are given by identity.
pub struct PublicFinding {
    pub finding_id: Option<String>,
    pub party_id: Option<String>,
    pub rule_set_version_id: Option<String>,
    pub rule_key: String,
    pub severity: i32,
    pub status: i32,
    pub current_observation_id: Option<String>,
    pub evaluated_party_resource_version: Option<ResourceVersionStamp>,
    pub assigned_actor_id: Option<String>,
    pub waiver_reason: Option<String>,
    pub created_at: Option<i64>,
    pub updated_at: Option<i64>,
    pub resource_version: Option<ResourceVersionStamp>,
    pub remediated_by_rule_outcome_id: Option<String>,
}

/// The public form of the finding `f` stored at `version`, with every
/// field shown.
pub open spec fn public_finding(f: StoredFinding, version: i64) -> PublicFinding {
    PublicFinding {
        finding_id: Some(f.finding_id),
        party_id: Some(f.party_id),
        rule_set_version_id: Some(f.rule_set_version_id),
        rule_key: f.rule_key,
        severity: severity_to_wire(f.severity),
        status: status_to_wire(f.status),
        current_observation_id: Some(f.current_observation_id),
        evaluated_party_resource_version: Some(bare_version(f.evaluated_party_resource_version)),
        assigned_actor_id: f.assigned_actor_id,
        waiver_reason: f.waiver_reason,
        created_at: Some(f.created_at),
        updated_at: Some(f.updated_at),
        resource_version: Some(stamped_version(version, f.created_at, f.updated_at)),
        remediated_by_rule_outcome_id: f.remediated_by_rule_outcome_id,
    }
}

/// The public form of a finding stored at `version`, with every field shown.
pub fn finding_to_public(f: &StoredFinding, version: i64) -> (r: PublicFinding)
    ensures
        r == public_finding(*f, version),
{
    PublicFinding {
        finding_id: Some(f.finding_id.clone()),
        party_id: Some(f.party_id.clone()),
        rule_set_version_id: Some(f.rule_set_version_id.clone()),
        rule_key: f.rule_key.clone(),
        severity: f.severity.to_wire(),
        status: f.status.to_wire(),
        current_observation_id: Some(f.current_observation_id.clone()),
        evaluated_party_resource_version: Some(bare(f.evaluated_party_resource_version)),
        assigned_actor_id: clone_opt(&f.assigned_actor_id),
        waiver_reason: clone_opt(&f.waiver_reason),
        created_at: Some(f.created_at),
        updated_at: Some(f.updated_at),
        resource_version: Some(stamped(version, f.created_at, f.updated_at)),
        remediated_by_rule_outcome_id: clone_opt(&f.remediated_by_rule_outcome_id),
    }
}

/// `after` is `before` with each field not in `allowed` cleared: numbers
/// to zero (enumerations to unspecified), strings to empty, parts to
/// absent; the finding's identity is always kept.
pub open spec fn is_redacted_finding(after: PublicFinding, before: PublicFinding, allowed: Seq<String>) -> bool {
    &&& after.finding_id == before.finding_id
    &&& after.party_id == if shown(allowed, "party_ref") { before.party_id } else { None }
    &&& after.rule_set_version_id == if shown(allowed, "rule_set_version_ref") {
        before.rule_set_version_id
    } else {
        None
    }
    &&& after.rule_key@ == if shown(allowed, "rule_key") { before.rule_key@ } else { Seq::empty() }
    &&& after.severity == if shown(allowed, "severity") { before.severity } else { 0 }
    &&& after.status == if shown(allowed, "status") { before.status } else { 0 }
    &&& after.current_observation_id == if shown(allowed, "current_observation_ref") {
        before.current_observation_id
    } else {
        None
    }
    &&& after.evaluated_party_resource_version == if shown(allowed, "evaluated_party_resource_version") {
        before.evaluated_party_resource_version
    } else {
        None
    }
    &&& after.assigned_actor_id == if shown(allowed, "assigned_actor_id") { before.assigned_actor_id } else { None }
    &&& after.waiver_reason == if shown(allowed, "waiver_reason") { before.waiver_reason } else { None }
    &&& after.created_at == if shown(allowed, "created_at") { before.created_at } else { None }
    &&& after.updated_at == if shown(allowed, "updated_at") { before.updated_at } else { None }
    &&& after.resource_version == if shown(allowed, "resource_version") { before.resource_version } else { None }
    &&& after.remediated_by_rule_outcome_id == if shown(allowed, "remediated_by_rule_outcome_ref") {
        before.remediated_by_rule_outcome_id
    } else {
        None
    }
}

/// The public form of a finding stored at `version`, with only the
/// `allowed` fields shown.
pub fn finding_to_public_with_visibility(f: &StoredFinding, version: i64, allowed: &Vec<String>) -> (r: PublicFinding)
    ensures
        is_redacted_finding(r, public_finding(*f, version), allowed@),
{
    let mut output = finding_to_public(f, version);
    if !strings_contain(allowed, "party_ref") {
        output.party_id = None;
    }
    if !strings_contain(allowed, "rule_set_version_ref") {
        output.rule_set_version_id = None;
    }
    if !strings_contain(allowed, "rule_key") {
        output.rule_key = String::new();
    }
    if !strings_contain(allowed, "severity") {
        output.severity = 0;
    }
    if !strings_contain(allowed, "status") {
        output.status = 0;
    }
    if !strings_contain(allowed, "current_observation_ref") {
        output.current_observation_id = None;
    }
    if !strings_contain(allowed, "evaluated_party_resource_version") {
        output.evaluated_party_resource_version = None;
    }
    if !strings_contain(allowed, "assigned_actor_id") {
        output.assigned_actor_id = None;
    }
    if !strings_contain(allowed, "waiver_reason") {
        output.waiver_reason = None;
    }
    if !strings_contain(allowed, "created_at") {
        output.created_at = None;
    }
    if !strings_contain(allowed, "updated_at") {
        output.updated_at = None;
    }
    if !strings_contain(allowed, "resource_version") {
        output.resource_version = None;
    }
    if !strings_contain(allowed, "remediated_by_rule_outcome_ref") {
        output.remediated_by_rule_outcome_id = None;
    }
    output
}

/// An observation of a finding as stored, as plain values.
pub struct StoredObservation {
    pub observation_id: String,
    pub finding_id: String,
    pub party_id: String,
    pub rule_set_version_id: String,
    pub rule_key: String,
    pub party_resource_version: i64,
    pub reason_code: String,
    pub observed_at: i64,
}

/// The public form of an observation; references are given by identity.
pub struct PublicObservation {
    pub finding_observation_id: Option<String>,
    pub finding_id: Option<String>,
    pub party_id: Option<String>,
    pub rule_set_version_id: Option<String>,
    pub rule_key: String,
    pub evaluated_party_resource_version: Option<ResourceVersionStamp>,
    pub reason_code: String,
    pub observed_at: Option<i64>,
}

/// The public form of the observation `o`, with only the `allowed` fields
/// shown; its identity is always kept.
pub open spec fn is_visible_observation(p: PublicObservation, o: StoredObservation, allowed: Seq<String>) -> bool {
    &&& p.finding_observation_id == Some(o.observation_id)
    &&& p.finding_id == if shown(allowed, "finding_ref") { Some(o.finding_id) } else { None }
    &&& p.party_id == if shown(allowed, "party_ref") { Some(o.party_id) } else { None }
    &&& p.rule_set_version_id == if shown(allowed, "rule_set_version_ref") {
        Some(o.rule_set_version_id)
    } else {
        None
    }
    &&& p.rule_key@ == if shown(allowed, "rule_key") { o.rule_key@ } else { Seq::empty() }
    &&& p.evaluated_party_resource_version == if shown(allowed, "evaluated_party_resource_version") {
        Some(bare_version(o.party_resource_version))
    } else {
        None
    }
    &&& p.reason_code@ == if shown(allowed, "reason_code") { o.reason_code@ } else { Seq::empty() }
    &&& p.observed_at == if shown(allowed, "observed_at") { Some(o.observed_at) } else { None }
}

/// The public form of an observation, with only the `allowed` fields shown.
pub fn observation_to_public_with_visibility(o: &StoredObservation, allowed: &Vec<String>) -> (r: PublicObservation)
    ensures
        is_visible_observation(r, *o, allowed@),
{
    PublicObservation {
        finding_observation_id: Some(o.observation_id.clone()),
        finding_id: if strings_contain(allowed, "finding_ref") { Some(o.finding_id.clone()) } else { None },
        party_id: if strings_contain(allowed, "party_ref") { Some(o.party_id.clone()) } else { None },
        rule_set_version_id: if strings_contain(allowed, "rule_set_version_ref") {
            Some(o.rule_set_version_id.clone())
        } else {
            None
        },
        rule_key: if strings_contain(allowed, "rule_key") { o.rule_key.clone() } else { String::new() },
        evaluated_party_resource_version: if strings_contain(allowed, "evaluated_party_resource_version") {
            Some(bare(o.party_resource_version))
        } else {
            None
        },
        reason_code: if strings_contain(allowed, "reason_code") { o.reason_code.clone() } else { String::new() },
        observed_at: if strings_contain(allowed, "observed_at") { Some(o.observed_at) } else { None },
    }
}

/// Wire number of an evaluation job status.
pub open spec fn job_status_number(s: EvaluationJobStatus) -> i32 {
    match s {
        EvaluationJobStatus::Created => 1,
        EvaluationJobStatus::Staged => 2,
        EvaluationJobStatus::Completed => 3,
    }
}

/// An evaluation job as stored, as plain values.
pub struct StoredEvaluationJob {
    pub job_id: String,
    pub party_id: String,
    pub rule_set_version_id: String,
    pub profile_version_id: String,
    pub status: EvaluationJobStatus,
    /// The Party version the job evaluated, once staged.
    pub party_resource_version: Option<i64>,
    pub evaluated_rules: u32,
    pub failed_rules: u32,
    pub created_at: i64,
    pub updated_at: i64,
}

/// The public form of an evaluation job; references are given by identity.
pub struct PublicEvaluationJob {
    pub evaluation_job_id: Option<String>,
    pub party_id: Option<String>,
    pub rule_set_version_id: Option<String>,
    pub completeness_profile_version_id: Option<String>,
    pub status: i32,
    pub evaluated_party_resource_version: Option<ResourceVersionStamp>,
    pub evaluated_rules: u32,
    pub failed_rules: u32,
    pub created_at: Option<i64>,
    pub updated_at: Option<i64>,
    pub resource_version: Option<ResourceVersionStamp>,
}

/// The public form of the job `j` stored at `version`, with every field
/// shown.
pub open spec fn public_job(j: StoredEvaluationJob, version: i64) -> PublicEvaluationJob {
    PublicEvaluationJob {
        evaluation_job_id: Some(j.job_id),
        party_id: Some(j.party_id),
        rule_set_version_id: Some(j.rule_set_version_id),
        completeness_profile_version_id: Some(j.profile_version_id),
        status: job_status_number(j.status),
        evaluated_party_resource_version: match j.party_resource_version {
            Some(v) => Some(bare_version(v)),
            None => None,
        },
        evaluated_rules: j.evaluated_rules,
        failed_rules: j.failed_rules,
        created_at: Some(j.created_at),
        updated_at: Some(j.updated_at),
        resource_version: Some(stamped_version(version, j.created_at, j.updated_at)),
    }
}

/// The public form of an evaluation job stored at `version`, with every
/// field shown.
pub fn evaluation_job_to_public(j: &StoredEvaluationJob, version: i64) -> (r: PublicEvaluationJob)
    ensures
        r == public_job(*j, version),
{
    PublicEvaluationJob {
        evaluation_job_id: Some(j.job_id.clone()),
        party_id: Some(j.party_id.clone()),
        rule_set_version_id: Some(j.rule_set_version_id.clone()),
        completeness_profile_version_id: Some(j.profile_version_id.clone()),
        status: match j.status {
            EvaluationJobStatus::Created => 1,
            EvaluationJobStatus::Staged => 2,
            EvaluationJobStatus::Completed => 3,
        },
        evaluated_party_resource_version: match j.party_resource_version {
            Some(v) => Some(bare(v)),
            None => None,
        },
        evaluated_rules: j.evaluated_rules,
        failed_rules: j.failed_rules,
        created_at: Some(j.created_at),
        updated_at: Some(j.updated_at),
        resource_version: Some(stamped(version, j.created_at, j.updated_at)),
    }
}

/// `after` is `before` with each field not in `allowed` cleared; the job's
/// identity is always kept.
pub open spec fn is_redacted_job(after: PublicEvaluationJob, before: PublicEvaluationJob, allowed: Seq<String>) -> bool {
    &&& after.evaluation_job_id == before.evaluation_job_id
    &&& after.party_id == if shown(allowed, "party_ref") { before.party_id } else { None }
    &&& after.rule_set_version_id == if shown(allowed, "rule_set_version_ref") {
        before.rule_set_version_id
    } else {
        None
    }
    &&& after.completeness_profile_version_id == if shown(allowed, "completeness_profile_version_ref") {
        before.completeness_profile_version_id
    } else {
        None
    }
    &&& after.status == if shown(allowed, "status") { before.status } else { 0 }
    &&& after.evaluated_party_resource_version == if shown(allowed, "evaluated_party_resource_version") {
        before.evaluated_party_resource_version
    } else {
        None
    }
    &&& after.evaluated_rules == if shown(allowed, "evaluated_rules") { before.evaluated_rules } else { 0 }
    &&& after.failed_rules == if shown(allowed, "failed_rules") { before.failed_rules } else { 0 }
    &&& after.created_at == if shown(allowed, "created_at") { before.created_at } else { None }
    &&& after.updated_at == if shown(allowed, "updated_at") { before.updated_at } else { None }
    &&& after.resource_version == if shown(allowed, "resource_version") { before.resource_version } else { None }
}

/// The public form of an evaluation job stored at `version`, with only the
/// `allowed` fields shown.
pub fn evaluation_job_to_public_with_visibility(j: &StoredEvaluationJob, version: i64, allowed: &Vec<String>)
    -> (r: PublicEvaluationJob)
    ensures
        is_redacted_job(r, public_job(*j, version), allowed@),
{
    let mut output = evaluation_job_to_public(j, version);
    if !strings_contain(allowed, "party_ref") {
        output.party_id = None;
    }
    if !strings_contain(allowed, "rule_set_version_ref") {
        output.rule_set_version_id = None;
    }
    if !strings_contain(allowed, "completeness_profile_version_ref") {
        output.completeness_profile_version_id = None;
    }
    if !strings_contain(allowed, "status") {
        output.status = 0;
    }
    if !strings_contain(allowed, "evaluated_party_resource_version") {
        output.evaluated_party_resource_version = None;
    }
    if !strings_contain(allowed, "evaluated_rules") {
        output.evaluated_rules = 0;
    }
    if !strings_contain(allowed, "failed_rules") {
        output.failed_rules = 0;
    }
    if !strings_contain(allowed, "created_at") {
        output.created_at = None;
    }
    if !strings_contain(allowed, "updated_at") {
        output.updated_at = None;
    }
    if !strings_contain(allowed, "resource_version") {
        output.resource_version = None;
    }
    output
}

/// One component of a completeness result, as plain values.
pub struct CompletenessComponent {
    pub component_key: String,
    pub rule_key: String,
    pub rule_outcome_id: String,
    pub awarded_basis_points: u32,
}

/// A completeness result as stored, as plain values.
pub struct StoredCompletenessResult {
    pub result_id: String,
    pub job_id: String,
    pub party_id: String,
    pub party_resource_version: i64,
    pub profile_version_id: String,
    pub score_basis_points: u32,
    pub components: Vec<CompletenessComponent>,
    pub computed_at: i64,
}

/// The public form of a completeness result; references are given by
/// identity and its components keep their own form.
pub struct PublicCompletenessResult {
    pub completeness_result_id: Option<String>,
    pub evaluation_job_id: Option<String>,
    pub party_id: Option<String>,
    pub evaluated_party_resource_version: Option<ResourceVersionStamp>,
    pub completeness_profile_version_id: Option<String>,
    pub score_basis_points: u32,
    pub components: Vec<CompletenessComponent>,
    pub computed_at: Option<i64>,
    pub resource_version: Option<ResourceVersionStamp>,
}

/// The public form of the result `c` stored at `version`, with only the
/// `allowed` fields shown; its identity is always kept and its resource
/// version is stamped with its computation time.
pub open spec fn is_visible_result(p: PublicCompletenessResult, c: StoredCompletenessResult, version: i64,
    allowed: Seq<String>) -> bool
{
    &&& p.completeness_result_id == Some(c.result_id)
    &&& p.evaluation_job_id == if shown(allowed, "evaluation_job_ref") { Some(c.job_id) } else { None }
    &&& p.party_id == if shown(allowed, "party_ref") { Some(c.party_id) } else { None }
    &&& p.evaluated_party_resource_version == if shown(allowed, "evaluated_party_resource_version") {
        Some(bare_version(c.party_resource_version))
    } else {
        None
    }
    &&& p.completeness_profile_version_id == if shown(allowed, "completeness_profile_version_ref") {
        Some(c.profile_version_id)
    } else {
        None
    }
    &&& p.score_basis_points == if shown(allowed, "score_basis_points") { c.score_basis_points } else { 0 }
    &&& p.components@ == if shown(allowed, "components") {
        c.components@
    } else {
        Seq::<CompletenessComponent>::empty()
    }
    &&& p.computed_at == if shown(allowed, "computed_at") { Some(c.computed_at) } else { None }
    &&& p.resource_version == if shown(allowed, "resource_version") {
        Some(stamped_version(version, c.computed_at, c.computed_at))
    } else {
        None
    }
}

fn clone_component(c: &CompletenessComponent) -> (r: CompletenessComponent)
    ensures
        r == *c,
{
    CompletenessComponent {
        component_key: c.component_key.clone(),
        rule_key: c.rule_key.clone(),
        rule_outcome_id: c.rule_outcome_id.clone(),
        awarded_basis_points: c.awarded_basis_points,
    }
}

fn clone_components(s: &Vec<CompletenessComponent>) -> (r: Vec<CompletenessComponent>)
    ensures
        r@ == s@,
{
    let mut out: Vec<CompletenessComponent> = Vec::new();
    let mut i: usize = 0;
    while i < s.len()
        invariant
            i <= s@.len(),
            out@ == s@.take(i as int),
        decreases s@.len() - i,
    {
        out.push(clone_component(&s[i]));
        assert(s@.take(i + 1) =~= s@.take(i as int).push(s@[i as int]));
        i = i + 1;
    }
    assert(s@.take(s@.len() as int) =~= s@);
    out
}

/// The public form of a completeness result stored at `version`, with only
/// the `allowed` fields shown.
pub fn completeness_result_to_public_with_visibility(c: &StoredCompletenessResult, version: i64, allowed: &Vec<String>)
    -> (r: PublicCompletenessResult)
    ensures
        is_visible_result(r, *c, version, allowed@),
{
    PublicCompletenessResult {
        completeness_result_id: Some(c.result_id.clone()),
        evaluation_job_id: if strings_contain(allowed, "evaluation_job_ref") { Some(c.job_id.clone()) } else { None },
        party_id: if strings_contain(allowed, "party_ref") { Some(c.party_id.clone()) } else { None },
        evaluated_party_resource_version: if strings_contain(allowed, "evaluated_party_resource_version") {
            Some(bare(c.party_resource_version))
        } else {
            None
        },
        completeness_profile_version_id: if strings_contain(allowed, "completeness_profile_version_ref") {
            Some(c.profile_version_id.clone())
        } else {
            None
        },
        score_basis_points: if strings_contain(allowed, "score_basis_points") { c.score_basis_points } else { 0 },
        components: if strings_contain(allowed, "components") { clone_components(&c.components) } else { Vec::new() },
        computed_at: if strings_contain(allowed, "computed_at") { Some(c.computed_at) } else { None },
        resource_version: if strings_contain(allowed, "resource_version") {
            Some(stamped(version, c.computed_at, c.computed_at))
        } else {
            None
        },
    }
}


/// The public form of a stored finding shows what the finding records:
/// its identity, Party, rule set and rule, current observation, evaluated
/// Party version, assignee, waiver reason and remediating outcome unchanged,
/// its times, and its version stamped with those times.
pub proof fn public_finding_shows_the_stored_finding(f: StoredFinding, version: i64)
    ensures
        ({
            let p = public_finding(f, version);
            &&& p.finding_id == Some(f.finding_id)
            &&& p.party_id == Some(f.party_id)
            &&& p.rule_set_version_id == Some(f.rule_set_version_id)
            &&& p.rule_key == f.rule_key
            &&& p.current_observation_id == Some(f.current_observation_id)
            &&& p.evaluated_party_resource_version matches Some(v) && v.version == f.evaluated_party_resource_version
            &&& p.assigned_actor_id == f.assigned_actor_id
            &&& p.waiver_reason == f.waiver_reason
            &&& p.remediated_by_rule_outcome_id == f.remediated_by_rule_outcome_id
            &&& p.created_at == Some(f.created_at)
            &&& p.updated_at == Some(f.updated_at)
            &&& p.resource_version matches Some(v) && v.version == version && v.created_at == Some(f.created_at)
                && v.updated_at == Some(f.updated_at)
            &&& (f.severity != QualitySeverity::Info ==> p.severity != 1)
            &&& (f.status == FindingStatus::Waived <==> p.status == 3)
        }),
{
}

/// A finding shown to a query keeps its identity, shows each field the
/// query may see exactly as stored (its waiver reason among them), and
/// shows none of the others.
pub proof fn visible_finding_shows_only_allowed_stored_fields(after: PublicFinding, f: StoredFinding, version: i64,
    allowed: Seq<String>)
    requires
        is_redacted_finding(after, public_finding(f, version), allowed),
    ensures
        after.finding_id == Some(f.finding_id),
        strings_view(allowed).contains("waiver_reason"@) ==> after.waiver_reason == f.waiver_reason,
        !strings_view(allowed).contains("waiver_reason"@) ==> after.waiver_reason is None,
        strings_view(allowed).contains("party_ref"@) ==> after.party_id == Some(f.party_id),
        !strings_view(allowed).contains("party_ref"@) ==> after.party_id is None,
        strings_view(allowed).contains("assigned_actor_id"@) ==> after.assigned_actor_id == f.assigned_actor_id,
        !strings_view(allowed).contains("assigned_actor_id"@) ==> after.assigned_actor_id is None,
        strings_view(allowed).contains("rule_key"@) ==> after.rule_key@ == f.rule_key@,
        strings_view(allowed).contains("current_observation_ref"@) ==> after.current_observation_id == Some(
            f.current_observation_id,
        ),
        strings_view(allowed).contains("remediated_by_rule_outcome_ref"@) ==> after.remediated_by_rule_outcome_id
            == f.remediated_by_rule_outcome_id,
        strings_view(allowed).contains("created_at"@) ==> after.created_at == Some(f.created_at),
        !strings_view(allowed).contains("created_at"@) ==> after.created_at is None,
{
}

/// The public form of a stored evaluation job shows what the job records:
/// its identity, Party, rule set and profile, the Party version it
/// evaluated once staged, its tallies and its times.
pub proof fn public_job_shows_the_stored_job(j: StoredEvaluationJob, version: i64)
    ensures
        ({
            let p = public_job(j, version);
            &&& p.evaluation_job_id == Some(j.job_id)
            &&& p.party_id == Some(j.party_id)
            &&& p.rule_set_version_id == Some(j.rule_set_version_id)
            &&& p.completeness_profile_version_id == Some(j.profile_version_id)
            &&& p.evaluated_party_resource_version is Some <==> j.party_resource_version is Some
            &&& j.party_resource_version is Some ==> p.evaluated_party_resource_version->0.version
                == j.party_resource_version->0
            &&& p.evaluated_rules == j.evaluated_rules
            &&& p.failed_rules == j.failed_rules
            &&& p.created_at == Some(j.created_at)
            &&& p.updated_at == Some(j.updated_at)
            &&& p.resource_version matches Some(v) && v.version == version
        }),
{
}

/// An observation shown to a query keeps its identity and shows each field
/// the query may see exactly as stored.
pub proof fn visible_observation_shows_only_allowed_stored_fields(p: PublicObservation, o: StoredObservation,
    allowed: Seq<String>)
    requires
        is_visible_observation(p, o, allowed),
    ensures
        p.finding_observation_id == Some(o.observation_id),
        strings_view(allowed).contains("finding_ref"@) ==> p.finding_id == Some(o.finding_id),
        !strings_view(allowed).contains("finding_ref"@) ==> p.finding_id is None,
        strings_view(allowed).contains("party_ref"@) ==> p.party_id == Some(o.party_id),
        strings_view(allowed).contains("reason_code"@) ==> p.reason_code@ == o.reason_code@,
        strings_view(allowed).contains("observed_at"@) ==> p.observed_at == Some(o.observed_at),
{
}

/// A completeness result shown to a query keeps its identity and shows
/// each field the query may see exactly as stored.
pub proof fn visible_result_shows_only_allowed_stored_fields(p: PublicCompletenessResult,
    c: StoredCompletenessResult, version: i64, allowed: Seq<String>)
    requires
        is_visible_result(p, c, version, allowed),
    ensures
        p.completeness_result_id == Some(c.result_id),
        strings_view(allowed).contains("evaluation_job_ref"@) ==> p.evaluation_job_id == Some(c.job_id),
        strings_view(allowed).contains("party_ref"@) ==> p.party_id == Some(c.party_id),
        strings_view(allowed).contains("score_basis_points"@) ==> p.score_basis_points == c.score_basis_points,
        strings_view(allowed).contains("components"@) ==> p.components@ == c.components@,
        !strings_view(allowed).contains("components"@) ==> p.components@.len() == 0,
        strings_view(allowed).contains("computed_at"@) ==> p.computed_at == Some(c.computed_at),
{
}

} // verus!
