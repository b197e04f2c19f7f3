//! Staging of Party evaluation inputs: the minimized Party evidence a worker
//! reads, the staging command it derives from that evidence, the planner that
//! admits or refuses the command against the current evaluation job, and the
//! tally of one worker cycle over a tenant.
use vstd::prelude::*;
use crate::capability::CapabilityDefinition;
use crate::dq_capability::{DataQualityPlanError, STAGE_PARTY_EVALUATION_INPUT_CAPABILITY};
use crate::dq_model::MODULE_ID;
use crate::privacy_associations::EvaluationJobStatus;
use crate::text::{push_char, str_eq};

verus! {

/// Jobs read per page by the staging worker unless configured otherwise.
pub const DEFAULT_EVALUATION_STAGE_SCAN_PAGE_SIZE: u32 = 100;
/// The actor under which the staging worker acts.
pub const EVALUATION_WORKER_ACTOR_ID: &'static str = "crm-api-data-quality-evaluation-worker";
/// The capability version the staging worker requests.
pub const EVALUATION_WORKER_CAPABILITY_VERSION: &'static str = "1.0.0";
/// Prefix of the idempotency identity of a staging request.
pub const STAGE_IDENTITY_PREFIX: &'static str = "dq-evaluation-stage-";

/// Wire number of an unspecified Party kind.
pub const PARTY_KIND_UNSPECIFIED: i32 = 0;
/// Wire number of a person.
pub const PARTY_KIND_PERSON: i32 = 1;
/// Wire number of an organization.
pub const PARTY_KIND_ORGANIZATION: i32 = 2;

/// The kind of Party whose quality is evaluated.
#[derive(Debug, Clone, Copy, PartialEq, Eq, Structural)]
pub enum PartyQualitySourceKind {
    Person,
    Organization,
}

/// The kind a wire number names, if it names a specified kind.
pub open spec fn kind_from_wire(value: i32) -> Option<PartyQualitySourceKind> {
    if value == PARTY_KIND_PERSON {
        Some(PartyQualitySourceKind::Person)
    } else if value == PARTY_KIND_ORGANIZATION {
        Some(PartyQualitySourceKind::Organization)
    } else {
        None
    }
}

/// The wire number of a kind.
pub open spec fn kind_to_wire(kind: PartyQualitySourceKind) -> i32 {
    match kind {
        PartyQualitySourceKind::Person => PARTY_KIND_PERSON,
        PartyQualitySourceKind::Organization => PARTY_KIND_ORGANIZATION,
    }
}

impl PartyQualitySourceKind {
    /// Reads a wire Party kind; the unspecified and unknown numbers name no kind.
    pub fn from_wire(value: i32) -> (r: Option<PartyQualitySourceKind>)
        ensures
            r == kind_from_wire(value),
    {
        if value == PARTY_KIND_PERSON {
            Some(PartyQualitySourceKind::Person)
        } else if value == PARTY_KIND_ORGANIZATION {
            Some(PartyQualitySourceKind::Organization)
        } else {
            None
        }
    }

    /// The wire number of this kind.
    pub fn to_wire(self) -> (r: i32)
        ensures
            r == kind_to_wire(self),
    {
        match self {
            PartyQualitySourceKind::Person => PARTY_KIND_PERSON,
            PartyQualitySourceKind::Organization => PARTY_KIND_ORGANIZATION,
        }
    }
}

/// Every kind reads back from its own wire number, and the unspecified
/// number reads as no kind.
pub proof fn kind_wire_round_trip(kind: PartyQualitySourceKind)
    ensures
        kind_from_wire(kind_to_wire(kind)) == Some(kind),
        kind_from_wire(PARTY_KIND_UNSPECIFIED) is None,
{
}

/// Minimized Party evidence for one evaluation.
pub struct PartyQualitySourceSnapshot {
    pub party_id: String,
    pub kind: PartyQualitySourceKind,
    pub display_name: String,
    pub resource_version: i64,
}

/// What a governed Party read answered, as plain values: the Party, if one
/// came back, with its reference, kind, display name and resource version.
pub struct PartyReadAnswer {
    pub party_ref: Option<String>,
    pub kind: i32,
    pub display_name: String,
    pub resource_version: Option<i64>,
}

/// Why governed Party evidence was refused.
#[derive(Debug, Clone, Copy, PartialEq, Eq, Structural)]
pub enum PartySourceError {
    /// The Party is absent, kindless or nameless: evaluation is deferred.
    NotFound,
    /// The Party read contradicted its own request.
    ContractInvalid,
}

impl PartySourceError {
    /// The code reported for this refusal.
    pub open spec fn error_code(self) -> &'static str {
        match self {
            PartySourceError::NotFound => "QUERY_RESOURCE_NOT_FOUND",
            PartySourceError::ContractInvalid => "DATA_QUALITY_PARTY_SOURCE_CONTRACT_INVALID",
        }
    }

    /// The stable error code reported to callers.
    pub fn code(&self) -> (r: &'static str)
        ensures
            r == self.error_code(),
    {
        match self {
            PartySourceError::NotFound => "QUERY_RESOURCE_NOT_FOUND",
            PartySourceError::ContractInvalid => "DATA_QUALITY_PARTY_SOURCE_CONTRACT_INVALID",
        }
    }
}

/// The evidence a Party read yields for `requested`, or why it yields none.
pub open spec fn source_outcome(requested: Seq<char>, answer: Option<PartyReadAnswer>)
    -> Result<(PartyQualitySourceKind, i64), PartySourceError>
{
    match answer {
        None => Err(PartySourceError::NotFound),
        Some(party) => match party.party_ref {
            None => Err(PartySourceError::NotFound),
            Some(id) => if id@ != requested {
                Err(PartySourceError::ContractInvalid)
            } else if kind_from_wire(party.kind) is None {
                Err(PartySourceError::NotFound)
            } else if party.display_name@.len() == 0 {
                Err(PartySourceError::NotFound)
            } else {
                match party.resource_version {
                    None => Err(PartySourceError::ContractInvalid),
                    Some(v) => if v <= 0 {
                        Err(PartySourceError::ContractInvalid)
                    } else {
                        Ok((kind_from_wire(party.kind)->0, v))
                    },
                }
            },
        },
    }
}

/// Turns a governed Party read for `requested` into minimized evidence:
/// the identity must be the requested one, the kind specified, the display
/// name present and the resource version positive.
pub fn source_snapshot(requested: &String, answer: Option<PartyReadAnswer>)
    -> (r: Result<PartyQualitySourceSnapshot, PartySourceError>)
    ensures
        match (r, source_outcome(requested@, answer)) {
            (Ok(s), Ok((kind, version))) => {
                &&& s.party_id@ == requested@
                &&& s.kind == kind
                &&& s.resource_version == version
                &&& s.display_name@ == answer->0.display_name@
            },
            (Err(e), Err(f)) => e == f,
            _ => false,
        },
{
    let party = match answer {
        None => return Err(PartySourceError::NotFound),
        Some(party) => party,
    };
    let party_id = match &party.party_ref {
        None => return Err(PartySourceError::NotFound),
        Some(id) => id,
    };
    if !str_eq(party_id.as_str(), requested.as_str()) {
        return Err(PartySourceError::ContractInvalid);
    }
    let kind = match PartyQualitySourceKind::from_wire(party.kind) {
        None => return Err(PartySourceError::NotFound),
        Some(kind) => kind,
    };
    if party.display_name.unicode_len() == 0 {
        return Err(PartySourceError::NotFound);
    }
    let version = match party.resource_version {
        None => return Err(PartySourceError::ContractInvalid),
        Some(v) => v,
    };
    if version <= 0 {
        return Err(PartySourceError::ContractInvalid);
    }
    Ok(PartyQualitySourceSnapshot {
        party_id: requested.clone(),
        kind,
        display_name: party.display_name,
        resource_version: version,
    })
}

/// The request to stage one evaluation input, as plain values.
pub struct StageCommand {
    pub evaluation_job_id: Option<String>,
    pub expected_job_version: i64,
    pub party_id: Option<String>,
    pub party_kind: i32,
    pub display_name: String,
    pub party_resource_version: i64,
}

/// What the staging planner reads of the current evaluation job.
pub struct EvaluationJobRecord {
    pub version: i64,
    pub job_id: String,
    pub party_id: String,
    pub status: EvaluationJobStatus,
}

/// Builds the staging command for `job_id` of the Party `job_party_id` from
/// evidence read for that same Party; evidence of another Party is refused.
pub fn stage_command(
    job_id: &String,
    job_party_id: &String,
    expected_job_version: i64,
    source: &PartyQualitySourceSnapshot,
) -> (r: Result<StageCommand, DataQualityPlanError>)
    ensures
        source.party_id@ != job_party_id@ ==> r == Err::<StageCommand, DataQualityPlanError>(
            DataQualityPlanError::StagePlanInvalid),
        source.party_id@ == job_party_id@ ==> match r {
            Ok(c) => {
                &&& c.evaluation_job_id matches Some(id) && id@ == job_id@
                &&& c.expected_job_version == expected_job_version
                &&& c.party_id matches Some(p) && p@ == source.party_id@
                &&& c.party_kind == kind_to_wire(source.kind)
                &&& c.display_name@ == source.display_name@
                &&& c.party_resource_version == source.resource_version
            },
            Err(_) => false,
        },
{
    if !str_eq(source.party_id.as_str(), job_party_id.as_str()) {
        return Err(DataQualityPlanError::StagePlanInvalid);
    }
    Ok(StageCommand {
        evaluation_job_id: Some(job_id.clone()),
        expected_job_version,
        party_id: Some(source.party_id.clone()),
        party_kind: source.kind.to_wire(),
        display_name: source.display_name.clone(),
        party_resource_version: source.resource_version,
    })
}

/// What a staging plan writes: the evaluated Party kind, and the job update
/// from the version read to the next one.
pub struct StagePlan {
    pub kind: PartyQualitySourceKind,
    pub expected_version: i64,
    pub aggregate_version: i64,
}

/// Whether a capability definition, invoked under `requested`, is the
/// staging capability of this module.
pub open spec fn is_stage_definition(d: CapabilityDefinition, requested: Seq<char>) -> bool {
    &&& d.capability_id@ == STAGE_PARTY_EVALUATION_INPUT_CAPABILITY@
    &&& d.owner_module_id@ == MODULE_ID@
    &&& d.capability_id@ == requested
}

/// The staging decision: the kind and next job version, or the refusal, in
/// the order the planner checks them.
pub open spec fn stage_outcome(definition_matches: bool, current: Option<EvaluationJobRecord>, command: StageCommand)
    -> Result<(PartyQualitySourceKind, i64), DataQualityPlanError>
{
    if !definition_matches {
        Err(DataQualityPlanError::StagePlanInvalid)
    } else {
        match current {
            None => Err(DataQualityPlanError::StagePlanInvalid),
            Some(job) => if command.expected_job_version <= 0 || command.expected_job_version != job.version {
                Err(DataQualityPlanError::StageVersionConflict)
            } else if job.status != EvaluationJobStatus::Created {
                Err(DataQualityPlanError::StagePlanInvalid)
            } else {
                match command.party_id {
                    None => Err(DataQualityPlanError::MissingReference),
                    Some(p) => if p@ != job.party_id@ {
                        Err(DataQualityPlanError::StagePlanInvalid)
                    } else {
                        match kind_from_wire(command.party_kind) {
                            None => Err(DataQualityPlanError::InvalidPartyKind),
                            Some(kind) => if job.version == i64::MAX {
                                Err(DataQualityPlanError::StagePlanInvalid)
                            } else {
                                Ok((kind, (job.version + 1) as i64))
                            },
                        }
                    },
                }
            },
        }
    }
}

/// Plans the staging of Party evaluation inputs onto created evaluation jobs.
#[derive(Debug, Default, Clone, Copy)]
pub struct DataQualityEvaluationStagePlanner;

impl DataQualityEvaluationStagePlanner {
    /// Refuses any definition but the staging capability of this module,
    /// invoked under its own coordinate.
    pub fn ensure_definition(&self, definition: &CapabilityDefinition, requested: &str)
        -> (r: Result<(), DataQualityPlanError>)
        ensures
            r is Ok <==> is_stage_definition(*definition, requested@),
            r is Err ==> r == Err::<(), DataQualityPlanError>(DataQualityPlanError::StagePlanInvalid),
    {
        if !str_eq(definition.capability_id.as_str(), STAGE_PARTY_EVALUATION_INPUT_CAPABILITY)
            || !str_eq(definition.owner_module_id.as_str(), MODULE_ID)
            || !str_eq(definition.capability_id.as_str(), requested)
        {
            return Err(DataQualityPlanError::StagePlanInvalid);
        }
        Ok(())
    }

    /// The evaluation job a staging command must find: the job it names.
    pub fn target(&self, definition: &CapabilityDefinition, requested: &str, command: &StageCommand)
        -> (r: Result<String, DataQualityPlanError>)
        ensures
            !is_stage_definition(*definition, requested@) ==> r == Err::<String, DataQualityPlanError>(
                DataQualityPlanError::StagePlanInvalid),
            is_stage_definition(*definition, requested@) ==> match command.evaluation_job_id {
                Some(id) => r matches Ok(t) && t@ == id@,
                None => r == Err::<String, DataQualityPlanError>(DataQualityPlanError::MissingReference),
            },
    {
        self.ensure_definition(definition, requested)?;
        match &command.evaluation_job_id {
            Some(id) => Ok(id.clone()),
            None => Err(DataQualityPlanError::MissingReference),
        }
    }

    /// Admits a staging command against the current job: the expected version
    /// must be positive and current, the job still created, the Party the
    /// job's own and of a specified kind, and the next version representable.
    pub fn plan(
        &self,
        definition: &CapabilityDefinition,
        requested: &str,
        current: Option<&EvaluationJobRecord>,
        command: &StageCommand,
    ) -> (r: Result<StagePlan, DataQualityPlanError>)
        ensures
            match (r, stage_outcome(is_stage_definition(*definition, requested@),
                match current { Some(j) => Some(*j), None => None }, *command)) {
                (Ok(p), Ok((kind, next))) => {
                    &&& p.kind == kind
                    &&& p.aggregate_version == next
                    &&& p.expected_version == current->0.version
                },
                (Err(e), Err(f)) => e == f,
                _ => false,
            },
    {
        if self.ensure_definition(definition, requested).is_err() {
            return Err(DataQualityPlanError::StagePlanInvalid);
        }
        let job = match current {
            None => return Err(DataQualityPlanError::StagePlanInvalid),
            Some(job) => job,
        };
        if command.expected_job_version <= 0 || command.expected_job_version != job.version {
            return Err(DataQualityPlanError::StageVersionConflict);
        }
        if job.status != EvaluationJobStatus::Created {
            return Err(DataQualityPlanError::StagePlanInvalid);
        }
        let party_id = match &command.party_id {
            None => return Err(DataQualityPlanError::MissingReference),
            Some(p) => p,
        };
        if !str_eq(party_id.as_str(), job.party_id.as_str()) {
            return Err(DataQualityPlanError::StagePlanInvalid);
        }
        let kind = match PartyQualitySourceKind::from_wire(command.party_kind) {
            None => return Err(DataQualityPlanError::InvalidPartyKind),
            Some(kind) => kind,
        };
        let next = match job.version.checked_add(1) {
            None => return Err(DataQualityPlanError::StagePlanInvalid),
            Some(next) => next,
        };
        Ok(StagePlan { kind, expected_version: job.version, aggregate_version: next })
    }
}

/// A command built from evidence for a created job's own Party, at that
/// job's current version, is admitted by the planner and stages that kind.
pub proof fn stage_command_is_admitted(
    job: EvaluationJobRecord,
    source: PartyQualitySourceSnapshot,
    command: StageCommand,
)
    requires
        job.status == EvaluationJobStatus::Created,
        0 < job.version < i64::MAX,
        source.party_id@ == job.party_id@,
        command.expected_job_version == job.version,
        command.party_id matches Some(p) && p@ == source.party_id@,
        command.party_kind == kind_to_wire(source.kind),
    ensures
        stage_outcome(true, Some(job), command) == Ok::<(PartyQualitySourceKind, i64), DataQualityPlanError>(
            (source.kind, (job.version + 1) as i64)),
{
}

/// Why the staging worker could not run.
#[derive(Debug, Clone, Copy, PartialEq, Eq, Structural)]
pub enum StageWorkerError {
    /// The worker's page size is zero or above the store's maximum.
    InvalidPageSize,
    /// The worker's own state cannot be used; retry later.
    StateUnavailable,
}

impl StageWorkerError {
    /// The code reported for this refusal.
    pub open spec fn error_code(self) -> &'static str {
        match self {
            StageWorkerError::InvalidPageSize => "SDK_INVALID_ARGUMENT",
            StageWorkerError::StateUnavailable => "DATA_QUALITY_EVALUATION_WORKER_STATE_UNAVAILABLE",
        }
    }

    /// The stable error code reported to callers.
    pub fn code(&self) -> (r: &'static str)
        ensures
            r == self.error_code(),
    {
        match self {
            StageWorkerError::InvalidPageSize => "SDK_INVALID_ARGUMENT",
            StageWorkerError::StateUnavailable => "DATA_QUALITY_EVALUATION_WORKER_STATE_UNAVAILABLE",
        }
    }
}

/// A worker page size is admitted when it is positive and at most the
/// store's `maximum`.
pub fn validate_worker_page_size(page_size: u32, maximum: u32) -> (r: Result<u32, StageWorkerError>)
    ensures
        0 < page_size <= maximum ==> r == Ok::<u32, StageWorkerError>(page_size),
        !(0 < page_size <= maximum) ==> r == Err::<u32, StageWorkerError>(StageWorkerError::InvalidPageSize),
{
    if page_size == 0 || page_size > maximum {
        return Err(StageWorkerError::InvalidPageSize);
    }
    Ok(page_size)
}

/// Whether a job is one the worker stages: only created jobs are.
pub fn is_stageable(status: EvaluationJobStatus) -> (r: bool)
    ensures
        r == (status == EvaluationJobStatus::Created),
{
    status == EvaluationJobStatus::Created
}

/// The tally of one worker cycle over one tenant.
#[derive(Debug, Clone, Copy, PartialEq, Eq, Structural)]
pub struct EvaluationStageTenantCycle {
    pub scanned_jobs: u32,
    pub staged_jobs: u32,
    pub deferred_jobs: u32,
    pub has_more: bool,
}

/// `n` increased by one, held at the largest `u32`.
pub open spec fn saturating_succ(n: u32) -> u32 {
    if n == u32::MAX { n } else { (n + 1) as u32 }
}

impl EvaluationStageTenantCycle {
    /// Opens the tally of a page of `scanned` jobs; a page too large to count
    /// leaves the worker unavailable.
    pub fn begin(scanned: usize, has_more: bool) -> (r: Result<Self, StageWorkerError>)
        ensures
            scanned <= u32::MAX ==> match r {
                Ok(c) => c.scanned_jobs == scanned && c.staged_jobs == 0 && c.deferred_jobs == 0
                    && c.has_more == has_more,
                Err(_) => false,
            },
            scanned > u32::MAX ==> r == Err::<Self, StageWorkerError>(StageWorkerError::StateUnavailable),
    {
        if scanned > 0xffff_ffffusize {
            return Err(StageWorkerError::StateUnavailable);
        }
        Ok(EvaluationStageTenantCycle {
            scanned_jobs: scanned as u32,
            staged_jobs: 0,
            deferred_jobs: 0,
            has_more,
        })
    }

    /// Counts one staged job.
    pub fn record_staged(&mut self)
        ensures
            final(self).staged_jobs == saturating_succ(old(self).staged_jobs),
            final(self).scanned_jobs == old(self).scanned_jobs,
            final(self).deferred_jobs == old(self).deferred_jobs,
            final(self).has_more == old(self).has_more,
    {
        self.staged_jobs = self.staged_jobs.saturating_add(1);
    }

    /// Counts one job deferred because its Party could not be read.
    pub fn record_deferred(&mut self)
        ensures
            final(self).deferred_jobs == saturating_succ(old(self).deferred_jobs),
            final(self).scanned_jobs == old(self).scanned_jobs,
            final(self).staged_jobs == old(self).staged_jobs,
            final(self).has_more == old(self).has_more,
    {
        self.deferred_jobs = self.deferred_jobs.saturating_add(1);
    }
}

/// The lowercase hexadecimal digit of a nibble.
pub open spec fn hex_digit(n: u8) -> char {
    if n < 10 { ((n + 48) as u8) as char } else { ((n - 10 + 97) as u8) as char }
}

/// Lowercase hexadecimal spelling of `bytes`, two digits per byte, high
/// nibble first.
pub open spec fn hex_spec(bytes: Seq<u8>) -> Seq<char>
    decreases bytes.len(),
{
    if bytes.len() == 0 {
        Seq::empty()
    } else {
        hex_spec(bytes.drop_last()) + seq![hex_digit(bytes.last() / 16), hex_digit(bytes.last() % 16)]
    }
}

fn nibble_digit(n: u8) -> (c: char)
    requires
        n < 16,
    ensures
        c == hex_digit(n),
{
    if n < 10 {
        ((n + 48) as u8) as char
    } else {
        ((n - 10 + 97) as u8) as char
    }
}

/// Appends the lowercase hexadecimal spelling of `bytes` to `out`.
pub fn push_hex(out: &mut String, bytes: &[u8])
    ensures
        final(out)@ == old(out)@ + hex_spec(bytes@),
{
    let mut i: usize = 0;
    while i < bytes.len()
        invariant
            i <= bytes@.len(),
            out@ == old(out)@ + hex_spec(bytes@.take(i as int)),
        decreases bytes@.len() - i,
    {
        let b = bytes[i];
        assert(bytes@.take(i + 1).drop_last() =~= bytes@.take(i as int));
        push_char(out, nibble_digit(b / 16));
        push_char(out, nibble_digit(b % 16));
        assert(out@ =~= old(out)@ + hex_spec(bytes@.take(i + 1)));
        i = i + 1;
    }
    assert(bytes@.take(bytes@.len() as int) =~= bytes@);
}

/// Lowercase hexadecimal spelling of `bytes`.
pub fn hex(bytes: &[u8]) -> (r: String)
    ensures
        r@ == hex_spec(bytes@),
{
    let mut out = String::new();
    push_hex(&mut out, bytes);
    assert(out@ =~= hex_spec(bytes@));
    out
}

/// The idempotency identity of a staging request: its fixed prefix and the
/// hexadecimal digest of its input.
pub fn stage_identity(input_hash: &[u8]) -> (r: String)
    ensures
        r@ == STAGE_IDENTITY_PREFIX@ + hex_spec(input_hash@),
{
    let mut out = STAGE_IDENTITY_PREFIX.to_owned();
    push_hex(&mut out, input_hash);
    out
}


/// Staging is planned only onto the created job the command read, at the
/// positive version it expected, for that job's own Party and a known Party
/// kind, and advances the job by exactly one version; a job at another
/// version is a version conflict, and a job already staged or completed is
/// never staged again.
pub proof fn staging_advances_the_created_job_by_one_version(definition_matches: bool,
    current: Option<EvaluationJobRecord>, command: StageCommand)
    ensures
        stage_outcome(definition_matches, current, command) matches Ok((kind, next)) ==> (definition_matches
            && current is Some && command.expected_job_version > 0 && command.expected_job_version
            == current->0.version && next == current->0.version + 1 && current->0.status == EvaluationJobStatus::Created
            && command.party_id is Some && command.party_id->0@ == current->0.party_id@ && kind_from_wire(
            command.party_kind) == Some(kind)),
        definition_matches && current is Some && command.expected_job_version != current->0.version
            ==> stage_outcome(definition_matches, current, command) == Err::<
            (PartyQualitySourceKind, i64),
            DataQualityPlanError,
        >(DataQualityPlanError::StageVersionConflict),
        current matches Some(job) && job.status != EvaluationJobStatus::Created ==> stage_outcome(definition_matches,
            current, command) is Err,
{
}


/// Evidence is only taken from a Party read that answered for the requested
/// Party, with a known kind, a display name and a positive version; a read
/// that answered for another Party is a contract violation, and an absent,
/// kindless or nameless Party defers the evaluation as not found.
pub proof fn party_evidence_comes_from_the_requested_party(requested: Seq<char>, answer: Option<PartyReadAnswer>)
    ensures
        source_outcome(requested, answer) matches Ok((kind, version)) ==> (answer is Some && answer->0.party_ref
            is Some && answer->0.party_ref->0@ == requested && answer->0.display_name@.len() > 0 && answer->0.resource_version
            == Some(version) && version > 0 && kind_from_wire(answer->0.kind) == Some(kind)),
        answer is None ==> source_outcome(requested, answer) == Err::<(PartyQualitySourceKind, i64), PartySourceError>(
            PartySourceError::NotFound),
        answer is Some && answer->0.party_ref is Some && answer->0.party_ref->0@ != requested ==> source_outcome(
            requested, answer) == Err::<(PartyQualitySourceKind, i64), PartySourceError>(PartySourceError::ContractInvalid),
        answer is Some && answer->0.party_ref is Some && answer->0.party_ref->0@ == requested
            && answer->0.display_name@.len() == 0 ==> source_outcome(requested, answer) == Err::<
            (PartyQualitySourceKind, i64),
            PartySourceError,
        >(PartySourceError::NotFound),
{
}

proof fn hex_spec_digits(bytes: Seq<u8>)
    ensures
        hex_spec(bytes).len() == 2 * bytes.len(),
        forall|i: int| 0 <= i < bytes.len() ==> hex_spec(bytes)[2 * i] == hex_digit(#[trigger] bytes[i] / 16)
            && hex_spec(bytes)[2 * i + 1] == hex_digit(bytes[i] % 16),
    decreases bytes.len(),
{
    if bytes.len() > 0 {
        let t = bytes.drop_last();
        hex_spec_digits(t);
        assert forall|i: int| 0 <= i < bytes.len() implies hex_spec(bytes)[2 * i] == hex_digit(#[trigger] bytes[i] / 16)
            && hex_spec(bytes)[2 * i + 1] == hex_digit(bytes[i] % 16) by {
            if i < t.len() {
                assert(bytes[i] == t[i]);
            }
        }
    }
}

/// The hexadecimal spelling has two lowercase hexadecimal digits per byte,
/// and different bytes spell differently: two inputs with the same spelling
/// are the same input, so distinct inputs never share an identity.
pub proof fn hex_spelling_is_faithful(a: Seq<u8>, b: Seq<u8>)
    ensures
        hex_spec(a).len() == 2 * a.len(),
        forall|i: int| 0 <= i < hex_spec(a).len() ==> ('0' <= #[trigger] hex_spec(a)[i] <= '9' || 'a' <= hex_spec(a)[i]
            <= 'f'),
        hex_spec(a) == hex_spec(b) ==> a == b,
{
    hex_spec_digits(a);
    hex_spec_digits(b);
    assert forall|i: int| 0 <= i < hex_spec(a).len() implies ('0' <= #[trigger] hex_spec(a)[i] <= '9' || 'a'
        <= hex_spec(a)[i] <= 'f') by {
        let k = i / 2;
        assert(0 <= k < a.len());
        if i % 2 == 0 {
            assert(i == 2 * k);
            assert(hex_spec(a)[2 * k] == hex_digit(a[k] / 16));
        } else {
            assert(i == 2 * k + 1);
            assert(hex_spec(a)[2 * k + 1] == hex_digit(a[k] % 16));
        }
    }
    if hex_spec(a) == hex_spec(b) {
        assert(a.len() == b.len());
        assert forall|i: int| 0 <= i < a.len() implies a[i] == b[i] by {
            assert(hex_spec(a)[2 * i] == hex_digit(a[i] / 16));
            assert(hex_spec(b)[2 * i] == hex_digit(b[i] / 16));
            assert(hex_spec(a)[2 * i + 1] == hex_digit(a[i] % 16));
            assert(hex_spec(b)[2 * i + 1] == hex_digit(b[i] % 16));
            assert(a[i] / 16 == b[i] / 16);
            assert(a[i] % 16 == b[i] % 16);
        }
        assert(a =~= b);
    }
}

} // verus!
