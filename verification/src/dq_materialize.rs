//! Materialization of a staged Party evaluation: the admission of the exact
//! staged job and its inputs, the rule tallies, and the finding effects each
//! rule outcome has on the findings and observations already recorded.
use vstd::prelude::*;
use crate::capability::CapabilityDefinition;
use crate::dq_capability::{DataQualityPlanError, MATERIALIZE_PARTY_EVALUATION_CAPABILITY};
use crate::dq_model::MODULE_ID;
use crate::privacy_associations::{EvaluationJobStatus, InputFacts, JobFacts};
use crate::dq_stage::{hex_spec, push_hex};
use crate::text::{str_eq, strings_view};

verus! {

/// A finding already recorded, keyed by the identity it is stored under.
pub struct ExistingFindingEntry {
    pub key: String,
    pub finding_id: String,
    pub version: i64,
}

/// A finding observation already recorded, keyed by the identity it is
/// stored under.
pub struct ExistingObservationEntry {
    pub key: String,
    pub observation_id: String,
}

/// Whether the recorded findings and observations are each stored under
/// their own identity, findings at positive versions.
pub open spec fn recorded_evidence_valid(findings: Seq<ExistingFindingEntry>, observations: Seq<ExistingObservationEntry>)
    -> bool
{
    &&& forall|i: int| 0 <= i < findings.len() ==> #[trigger] findings[i].version > 0
        && findings[i].finding_id@ == findings[i].key@
    &&& forall|i: int| 0 <= i < observations.len() ==> #[trigger] observations[i].observation_id@ == observations[i].key@
}

/// Admits the definitions and recorded evidence a materialization planner
/// is built from: the profile must be bound to the rule set, and every
/// recorded finding and observation stored under its own identity.
pub fn admit_materialization_inputs(
    profile_rule_set_version_id: &String,
    rule_set_version_id: &String,
    findings: &Vec<ExistingFindingEntry>,
    observations: &Vec<ExistingObservationEntry>,
) -> (r: Result<(), DataQualityPlanError>)
    ensures
        r is Ok <==> profile_rule_set_version_id@ == rule_set_version_id@
            && recorded_evidence_valid(findings@, observations@),
        r is Err ==> r == Err::<(), DataQualityPlanError>(DataQualityPlanError::MaterializationPlanInvalid),
{
    if !str_eq(profile_rule_set_version_id.as_str(), rule_set_version_id.as_str()) {
        return Err(DataQualityPlanError::MaterializationPlanInvalid);
    }
    let mut i: usize = 0;
    while i < findings.len()
        invariant
            i <= findings@.len(),
            forall|j: int| 0 <= j < i ==> #[trigger] findings@[j].version > 0 && findings@[j].finding_id@ == findings@[j].key@,
        decreases findings@.len() - i,
    {
        if findings[i].version <= 0 || !str_eq(findings[i].finding_id.as_str(), findings[i].key.as_str()) {
            return Err(DataQualityPlanError::MaterializationPlanInvalid);
        }
        i = i + 1;
    }
    let mut k: usize = 0;
    while k < observations.len()
        invariant
            k <= observations@.len(),
            forall|j: int| 0 <= j < k ==> #[trigger] observations@[j].observation_id@ == observations@[j].key@,
        decreases observations@.len() - k,
    {
        if !str_eq(observations[k].observation_id.as_str(), observations[k].key.as_str()) {
            return Err(DataQualityPlanError::MaterializationPlanInvalid);
        }
        k = k + 1;
    }
    Ok(())
}

/// Whether a definition, invoked under `requested`, is the materialization
/// capability of this module.
pub open spec fn is_materialization_definition(d: CapabilityDefinition, requested: Seq<char>) -> bool {
    &&& d.capability_id@ == MATERIALIZE_PARTY_EVALUATION_CAPABILITY@
    &&& d.owner_module_id@ == MODULE_ID@
    &&& d.capability_id@ == requested
}

/// Whether the staged input and the loaded definitions are exactly those
/// of the job: the same job and Party, the Party version it staged (zero
/// where none is recorded), captured when the job was last updated, and
/// the job's own rule set and profile.
pub open spec fn inputs_match_job(job: JobFacts, input: InputFacts, rule_set: Seq<char>, profile: Seq<char>) -> bool {
    &&& input.job_id@ == job.job_id@
    &&& input.party_id@ == job.party_id@
    &&& input.party_resource_version == (match job.party_resource_version { Some(v) => v, None => 0 })
    &&& input.captured_at == job.updated_at
    &&& rule_set == job.rule_set_version_id@
    &&& profile == job.profile_version_id@
}

/// The admission of a materialization against the current job record, in
/// the order the planner checks; success gives the next job version.
pub open spec fn materialization_outcome(definition_matches: bool, current_version: Option<i64>, expected: i64,
    job: JobFacts, input: InputFacts, rule_set: Seq<char>, profile: Seq<char>) -> Result<i64, DataQualityPlanError>
{
    if !definition_matches {
        Err(DataQualityPlanError::MaterializationPlanInvalid)
    } else {
        match current_version {
            None => Err(DataQualityPlanError::MaterializationPlanInvalid),
            Some(v) => if expected <= 0 || expected != v {
                Err(DataQualityPlanError::MaterializationVersionConflict)
            } else if job.status != EvaluationJobStatus::Staged || job.outcomes_materialized {
                Err(DataQualityPlanError::MaterializationPlanInvalid)
            } else if !inputs_match_job(job, input, rule_set, profile) {
                Err(DataQualityPlanError::MaterializationPlanInvalid)
            } else if v == i64::MAX {
                Err(DataQualityPlanError::MaterializationPlanInvalid)
            } else {
                Ok((v + 1) as i64)
            },
        }
    }
}

/// Admits a materialization: the definition must match, the job exist at
/// the positive expected version, be staged and not yet materialized, and
/// the staged input and definitions be exactly the job's.
pub fn admit_materialization(
    definition: &CapabilityDefinition,
    requested: &str,
    current_version: Option<i64>,
    expected_job_version: i64,
    job: &JobFacts,
    input: &InputFacts,
    rule_set_version_id: &String,
    profile_version_id: &String,
) -> (r: Result<i64, DataQualityPlanError>)
    ensures
        r == materialization_outcome(is_materialization_definition(*definition, requested@), current_version,
            expected_job_version, *job, *input, rule_set_version_id@, profile_version_id@),
{
    if !str_eq(definition.capability_id.as_str(), MATERIALIZE_PARTY_EVALUATION_CAPABILITY)
        || !str_eq(definition.owner_module_id.as_str(), MODULE_ID)
        || !str_eq(definition.capability_id.as_str(), requested)
    {
        return Err(DataQualityPlanError::MaterializationPlanInvalid);
    }
    let version = match current_version {
        None => return Err(DataQualityPlanError::MaterializationPlanInvalid),
        Some(v) => v,
    };
    if expected_job_version <= 0 || expected_job_version != version {
        return Err(DataQualityPlanError::MaterializationVersionConflict);
    }
    if job.status != EvaluationJobStatus::Staged || job.outcomes_materialized {
        return Err(DataQualityPlanError::MaterializationPlanInvalid);
    }
    let staged_version = match job.party_resource_version { Some(v) => v, None => 0 };
    if !str_eq(input.job_id.as_str(), job.job_id.as_str()) || !str_eq(input.party_id.as_str(), job.party_id.as_str())
        || input.party_resource_version != staged_version || input.captured_at != job.updated_at
        || !str_eq(rule_set_version_id.as_str(), job.rule_set_version_id.as_str())
        || !str_eq(profile_version_id.as_str(), job.profile_version_id.as_str())
    {
        return Err(DataQualityPlanError::MaterializationPlanInvalid);
    }
    match version.checked_add(1) {
        None => Err(DataQualityPlanError::MaterializationPlanInvalid),
        Some(next) => Ok(next),
    }
}

/// What the planner knows of one rule outcome and of the recorded evidence
/// it touches.
pub struct MaterializedOutcome {
    pub passed: bool,
    pub finding_id: String,
    /// The version of the finding recorded for this rule, if there is one.
    pub existing_finding_version: Option<i64>,
    /// Whether applying this outcome changes the recorded finding.
    pub finding_changed: bool,
    /// Whether the rule set still holds the rule of a failed outcome.
    pub rule_available: bool,
    pub observation_id: String,
    /// For a failed outcome, whether an observation is already recorded under
    /// its identity and, if so, whether it is the very same observation.
    pub existing_observation_matches: Option<bool>,
}

/// The number of outcomes that failed.
pub open spec fn failed_count(s: Seq<MaterializedOutcome>) -> nat
    decreases s.len(),
{
    if s.len() == 0 { 0 } else { failed_count(s.drop_last()) + if s.last().passed { 0nat } else { 1nat } }
}

/// The evaluated and failed rule tallies of a materialization; more
/// outcomes than a tally can count are refused.
pub fn rule_tallies(outcomes: &Vec<MaterializedOutcome>) -> (r: Result<(u32, u32), DataQualityPlanError>)
    ensures
        outcomes@.len() <= u32::MAX ==> r == Ok::<(u32, u32), DataQualityPlanError>(
            (outcomes@.len() as u32, failed_count(outcomes@) as u32)),
        outcomes@.len() > u32::MAX ==> r == Err::<(u32, u32), DataQualityPlanError>(
            DataQualityPlanError::MaterializationPlanInvalid),
{
    if outcomes.len() > 0xffff_ffffusize {
        return Err(DataQualityPlanError::MaterializationPlanInvalid);
    }
    let mut failed: u32 = 0;
    let mut i: usize = 0;
    while i < outcomes.len()
        invariant
            outcomes@.len() <= u32::MAX,
            i <= outcomes@.len(),
            failed == failed_count(outcomes@.take(i as int)),
            failed <= i,
        decreases outcomes@.len() - i,
    {
        assert(outcomes@.take(i + 1).drop_last() =~= outcomes@.take(i as int));
        if !outcomes[i].passed {
            failed = failed + 1;
        }
        i = i + 1;
    }
    assert(outcomes@.take(outcomes@.len() as int) =~= outcomes@);
    Ok((outcomes.len() as u32, failed))
}

/// A record write a materialization makes to the finding evidence.
#[derive(Debug, Clone, PartialEq, Eq)]
pub enum FindingEffect {
    /// Update a recorded finding from the version it was read at.
    UpdateFinding { finding_id: String, expected_version: i64 },
    /// Record a new observation of a failed rule.
    CreateObservation { observation_id: String },
    /// Open a finding for a rule that failed for the first time.
    CreateFinding { finding_id: String },
}

/// A plain view of a finding effect: its kind (`0` update, `1` new
/// observation, `2` new finding), identity and expected version.
pub open spec fn effect_view(e: FindingEffect) -> (int, Seq<char>, i64) {
    match e {
        FindingEffect::UpdateFinding { finding_id, expected_version } => (0, finding_id@, expected_version),
        FindingEffect::CreateObservation { observation_id } => (1, observation_id@, 0),
        FindingEffect::CreateFinding { finding_id } => (2, finding_id@, 0),
    }
}

/// The finding references, observation references and effects one
/// outcome contributes, or why it cannot be materialized.
pub open spec fn outcome_contribution(o: MaterializedOutcome)
    -> Result<(Seq<Seq<char>>, Seq<Seq<char>>, Seq<(int, Seq<char>, i64)>), DataQualityPlanError>
{
    if o.passed {
        match o.existing_finding_version {
            None => Ok((Seq::empty(), Seq::empty(), Seq::empty())),
            Some(v) => Ok((seq![o.finding_id@], Seq::empty(),
                if o.finding_changed { seq![(0int, o.finding_id@, v)] } else { Seq::empty() })),
        }
    } else if !o.rule_available {
        Err(DataQualityPlanError::MaterializationPlanInvalid)
    } else if o.existing_observation_matches == Some(false) {
        Err(DataQualityPlanError::MaterializationPlanInvalid)
    } else {
        let observation: Seq<(int, Seq<char>, i64)> = if o.existing_observation_matches is None {
            seq![(1int, o.observation_id@, 0i64)]
        } else {
            Seq::empty()
        };
        let finding: Seq<(int, Seq<char>, i64)> = match o.existing_finding_version {
            Some(v) => if o.finding_changed { seq![(0int, o.finding_id@, v)] } else { Seq::empty() },
            None => seq![(2int, o.finding_id@, 0i64)],
        };
        Ok((seq![o.finding_id@], seq![o.observation_id@], observation + finding))
    }
}

/// The finding references, observation references and effects of all
/// outcomes, in outcome order; the first outcome that cannot be
/// materialized refuses the whole materialization.
pub open spec fn materialization_contribution(s: Seq<MaterializedOutcome>)
    -> Result<(Seq<Seq<char>>, Seq<Seq<char>>, Seq<(int, Seq<char>, i64)>), DataQualityPlanError>
    decreases s.len(),
{
    if s.len() == 0 {
        Ok((Seq::empty(), Seq::empty(), Seq::empty()))
    } else {
        match materialization_contribution(s.drop_last()) {
            Err(e) => Err(e),
            Ok((f, o, e)) => match outcome_contribution(s.last()) {
                Err(x) => Err(x),
                Ok((f2, o2, e2)) => Ok((f + f2, o + o2, e + e2)),
            },
        }
    }
}

/// The references and record writes a materialization emits for findings.
pub struct MaterializationEffects {
    pub finding_refs: Vec<String>,
    pub observation_refs: Vec<String>,
    pub effects: Vec<FindingEffect>,
}

/// The plain view of a list of effects.
pub open spec fn effects_view(s: Seq<FindingEffect>) -> Seq<(int, Seq<char>, i64)> {
    s.map_values(|e: FindingEffect| effect_view(e))
}

/// Once a prefix of the outcomes cannot be materialized, neither can any
/// longer prefix, for the same reason.
proof fn refusal_persists(s: Seq<MaterializedOutcome>, k: int)
    requires
        0 <= k <= s.len(),
        materialization_contribution(s.take(k)) is Err,
    ensures
        materialization_contribution(s) == materialization_contribution(s.take(k)),
    decreases s.len() - k,
{
    if k == s.len() {
        assert(s.take(k) =~= s);
    } else {
        assert(s.drop_last().take(k) =~= s.take(k));
        refusal_persists(s.drop_last(), k);
    }
}

/// Decides, outcome by outcome, what a materialization writes to the
/// finding evidence: a passing outcome touches only a finding already
/// recorded, and only if it changes it; a failing outcome records its
/// observation unless the very same one is recorded (a different one under
/// the same identity is refused), then updates the recorded finding if it
/// changes or opens a new one.
pub fn materialization_effects(outcomes: &Vec<MaterializedOutcome>)
    -> (r: Result<MaterializationEffects, DataQualityPlanError>)
    ensures
        match (r, materialization_contribution(outcomes@)) {
            (Ok(m), Ok((f, o, e))) => strings_view(m.finding_refs@) == f && strings_view(m.observation_refs@) == o
                && effects_view(m.effects@) == e,
            (Err(x), Err(y)) => x == y,
            _ => false,
        },
{
    let mut finding_refs: Vec<String> = Vec::new();
    let mut observation_refs: Vec<String> = Vec::new();
    let mut effects: Vec<FindingEffect> = Vec::new();
    let mut i: usize = 0;
    assert(outcomes@.take(0) =~= Seq::<MaterializedOutcome>::empty());
    assert(strings_view(finding_refs@) =~= Seq::<Seq<char>>::empty());
    assert(strings_view(observation_refs@) =~= Seq::<Seq<char>>::empty());
    assert(effects_view(effects@) =~= Seq::<(int, Seq<char>, i64)>::empty());
    while i < outcomes.len()
        invariant
            i <= outcomes@.len(),
            materialization_contribution(outcomes@.take(i as int)) == Ok::<(Seq<Seq<char>>, Seq<Seq<char>>,
                Seq<(int, Seq<char>, i64)>), DataQualityPlanError>(
                (strings_view(finding_refs@), strings_view(observation_refs@), effects_view(effects@))),
        decreases outcomes@.len() - i,
    {
        let o = &outcomes[i];
        let ghost prefix = outcomes@.take(i as int);
        let ghost before = (strings_view(finding_refs@), strings_view(observation_refs@), effects_view(effects@));
        assert(outcomes@.take(i + 1).drop_last() =~= prefix);
        assert(outcomes@.take(i + 1).last() == *o);
        let ghost fr0 = finding_refs@;
        let ghost or0 = observation_refs@;
        let ghost ef0 = effects@;
        if o.passed {
            match o.existing_finding_version {
                None => {},
                Some(v) => {
                    finding_refs.push(o.finding_id.clone());
                    if o.finding_changed {
                        effects.push(FindingEffect::UpdateFinding { finding_id: o.finding_id.clone(), expected_version: v });
                    }
                },
            }
        } else {
            if !o.rule_available {
                assert(outcome_contribution(*o) is Err);
                proof { refusal_persists(outcomes@, i + 1); }
                return Err(DataQualityPlanError::MaterializationPlanInvalid);
            }
            match o.existing_observation_matches {
                Some(false) => {
                    assert(outcome_contribution(*o) is Err);
                    proof { refusal_persists(outcomes@, i + 1); }
                    return Err(DataQualityPlanError::MaterializationPlanInvalid);
                },
                Some(true) => {},
                None => {
                    effects.push(FindingEffect::CreateObservation { observation_id: o.observation_id.clone() });
                },
            }
            finding_refs.push(o.finding_id.clone());
            observation_refs.push(o.observation_id.clone());
            match o.existing_finding_version {
                Some(v) => {
                    if o.finding_changed {
                        effects.push(FindingEffect::UpdateFinding { finding_id: o.finding_id.clone(), expected_version: v });
                    }
                },
                None => {
                    effects.push(FindingEffect::CreateFinding { finding_id: o.finding_id.clone() });
                },
            }
        }
        proof {
            let c = outcome_contribution(*o);
            assert(c is Ok);
            let (f2, o2, e2) = c->Ok_0;
            assert(strings_view(finding_refs@) =~= strings_view(fr0) + f2);
            assert(strings_view(observation_refs@) =~= strings_view(or0) + o2);
            assert(effects_view(effects@) =~= effects_view(ef0) + e2);
        }
        i = i + 1;
    }
    assert(outcomes@.take(outcomes@.len() as int) =~= outcomes@);
    Ok(MaterializationEffects { finding_refs, observation_refs, effects })
}

/// Whether an outcome finds all its evidence already recorded exactly as it
/// would record it: its finding exists and is unchanged by it, and a failed
/// outcome's rule is known and its very observation recorded.
pub open spec fn already_materialized(o: MaterializedOutcome) -> bool {
    &&& o.existing_finding_version is Some
    &&& !o.finding_changed
    &&& (!o.passed ==> o.rule_available && o.existing_observation_matches == Some(true))
}

/// Materializing outcomes whose evidence is all recorded already writes
/// nothing: replaying a materialization is free of effects.
pub proof fn replay_writes_nothing(s: Seq<MaterializedOutcome>)
    requires
        forall|i: int| 0 <= i < s.len() ==> already_materialized(#[trigger] s[i]),
    ensures
        materialization_contribution(s) is Ok,
        materialization_contribution(s)->Ok_0.2 == Seq::<(int, Seq<char>, i64)>::empty(),
    decreases s.len(),
{
    if s.len() > 0 {
        let t = s.drop_last();
        assert forall|i: int| 0 <= i < t.len() implies already_materialized(#[trigger] t[i]) by {
            assert(t[i] == s[i]);
        }
        replay_writes_nothing(t);
        assert(already_materialized(s[s.len() - 1]));
        let e = materialization_contribution(t)->Ok_0.2;
        assert(e + Seq::<(int, Seq<char>, i64)>::empty() =~= Seq::<(int, Seq<char>, i64)>::empty());
    }
}

/// A passing outcome with nothing recorded for its rule leaves the finding
/// evidence untouched, and a failing outcome for a rule never seen before
/// records exactly one new observation and opens exactly one finding.
pub proof fn first_failure_opens_a_finding(o: MaterializedOutcome)
    ensures
        o.passed && o.existing_finding_version is None ==> outcome_contribution(o)
            == Ok::<(Seq<Seq<char>>, Seq<Seq<char>>, Seq<(int, Seq<char>, i64)>), DataQualityPlanError>(
                (Seq::empty(), Seq::empty(), Seq::empty())),
        !o.passed && o.rule_available && o.existing_observation_matches is None && o.existing_finding_version is None
            ==> outcome_contribution(o) == Ok::<(Seq<Seq<char>>, Seq<Seq<char>>, Seq<(int, Seq<char>, i64)>),
                DataQualityPlanError>((seq![o.finding_id@], seq![o.observation_id@],
                seq![(1int, o.observation_id@, 0i64), (2int, o.finding_id@, 0i64)])),
{
    if !o.passed && o.rule_available && o.existing_observation_matches is None && o.existing_finding_version is None {
        assert(seq![(1int, o.observation_id@, 0i64)] + seq![(2int, o.finding_id@, 0i64)]
            =~= seq![(1int, o.observation_id@, 0i64), (2int, o.finding_id@, 0i64)]);
    }
}

/// What one outcome writes follows from the evidence recorded for its rule:
/// a failing outcome is refused when its rule is gone or a different
/// observation holds its identity; otherwise it references its finding and
/// observation, records its observation first when none is recorded, and
/// then updates its recorded finding from the version it was read at when it
/// changes it, or opens its finding when none is recorded. A passing outcome
/// references and updates only a recorded finding it changes.
pub proof fn outcome_effects_follow_the_recorded_evidence(o: MaterializedOutcome)
    ensures
        outcome_contribution(o) is Err <==> (!o.passed && (!o.rule_available || o.existing_observation_matches
            == Some(false))),
        outcome_contribution(o) is Err ==> outcome_contribution(o)->Err_0 == DataQualityPlanError::MaterializationPlanInvalid,
        outcome_contribution(o) matches Ok((f, obs, e)) ==> {
            &&& o.passed && o.existing_finding_version is None ==> f.len() == 0 && obs.len() == 0 && e.len() == 0
            &&& o.passed && o.existing_finding_version is Some ==> f == seq![o.finding_id@] && obs.len() == 0
            &&& !o.passed ==> f == seq![o.finding_id@] && obs == seq![o.observation_id@]
            &&& !o.passed && o.existing_observation_matches is None ==> e.len() >= 1 && e[0] == (1int,
                o.observation_id@, 0i64)
            &&& (!o.passed && o.existing_observation_matches is Some) || o.passed ==> forall|i: int| 0 <= i < e.len()
                ==> e[i].0 != 1
            &&& o.existing_finding_version is Some && o.finding_changed ==> e.len() >= 1 && e.last() == (0int,
                o.finding_id@, o.existing_finding_version->0)
            &&& o.existing_finding_version is Some && !o.finding_changed ==> forall|i: int| 0 <= i < e.len() ==> e[i].0
                != 0
            &&& o.existing_finding_version is Some ==> forall|i: int| 0 <= i < e.len() ==> e[i].0 != 2
            &&& !o.passed && o.existing_finding_version is None ==> e.len() >= 1 && e.last() == (2int, o.finding_id@,
                0i64)
            &&& o.passed && o.existing_finding_version is None ==> e.len() == 0
            &&& e.len() <= 2
        },
{
}

/// The number of effects of kind `kind` (`0` update, `1` new observation,
/// `2` new finding) among `e`.
pub open spec fn effect_count(e: Seq<(int, Seq<char>, i64)>, kind: int) -> nat
    decreases e.len(),
{
    if e.len() == 0 { 0 } else { effect_count(e.drop_last(), kind) + if e.last().0 == kind { 1nat } else { 0nat } }
}

proof fn effect_count_concat(a: Seq<(int, Seq<char>, i64)>, b: Seq<(int, Seq<char>, i64)>, kind: int)
    ensures
        effect_count(a + b, kind) == effect_count(a, kind) + effect_count(b, kind),
    decreases b.len(),
{
    if b.len() > 0 {
        assert((a + b).drop_last() =~= a + b.drop_last());
        effect_count_concat(a, b.drop_last(), kind);
    }
}

/// How many outcomes change a finding already recorded for their rule.
pub open spec fn changed_recorded_findings(s: Seq<MaterializedOutcome>) -> nat
    decreases s.len(),
{
    if s.len() == 0 {
        0
    } else {
        changed_recorded_findings(s.drop_last()) + if s.last().existing_finding_version is Some
            && s.last().finding_changed { 1nat } else { 0nat }
    }
}

/// How many failing outcomes find no finding recorded for their rule.
pub open spec fn first_failures(s: Seq<MaterializedOutcome>) -> nat
    decreases s.len(),
{
    if s.len() == 0 {
        0
    } else {
        first_failures(s.drop_last()) + if !s.last().passed && s.last().existing_finding_version is None { 1nat } else { 0nat }
    }
}

/// How many failing outcomes find no observation recorded under their
/// observation identity.
pub open spec fn unrecorded_observations(s: Seq<MaterializedOutcome>) -> nat
    decreases s.len(),
{
    if s.len() == 0 {
        0
    } else {
        unrecorded_observations(s.drop_last()) + if !s.last().passed && s.last().existing_observation_matches is None {
            1nat
        } else {
            0nat
        }
    }
}

/// A materialization is refused exactly when one of its outcomes is; when
/// it is not, it updates every recorded finding an outcome changes and no
/// other, opens one finding per first failure, and records one observation
/// per failing outcome whose observation is not yet recorded.
pub proof fn materialization_writes_one_effect_per_change(s: Seq<MaterializedOutcome>)
    ensures
        materialization_contribution(s) is Ok <==> forall|i: int| 0 <= i < s.len() ==> (#[trigger] outcome_contribution(
            s[i])) is Ok,
        materialization_contribution(s) matches Ok((f, obs, e)) ==> {
            &&& effect_count(e, 0) == changed_recorded_findings(s)
            &&& effect_count(e, 2) == first_failures(s)
            &&& effect_count(e, 1) == unrecorded_observations(s)
            &&& e.len() == effect_count(e, 0) + effect_count(e, 1) + effect_count(e, 2)
        },
    decreases s.len(),
{
    if s.len() > 0 {
        let t = s.drop_last();
        materialization_writes_one_effect_per_change(t);
        let o = s.last();
        outcome_effects_follow_the_recorded_evidence(o);
        assert forall|i: int| 0 <= i < t.len() implies t[i] == s[i] by {}
        if materialization_contribution(s) is Ok {
            let (f0, obs0, e0) = materialization_contribution(t)->Ok_0;
            let (f2, obs2, e2) = outcome_contribution(o)->Ok_0;
            effect_count_concat(e0, e2, 0);
            effect_count_concat(e0, e2, 1);
            effect_count_concat(e0, e2, 2);
            reveal_with_fuel(effect_count, 3);
            assert(e2.len() <= 2);
            if e2.len() == 2 {
                assert(e2.drop_last().drop_last() =~= Seq::<(int, Seq<char>, i64)>::empty());
            } else if e2.len() == 1 {
                assert(e2.drop_last() =~= Seq::<(int, Seq<char>, i64)>::empty());
            }
        }
        if materialization_contribution(t) is Ok && outcome_contribution(o) is Ok {
            assert forall|i: int| 0 <= i < s.len() implies (#[trigger] outcome_contribution(s[i])) is Ok by {
                if i < t.len() {
                    assert(t[i] == s[i]);
                }
            }
        }
        if !(forall|i: int| 0 <= i < t.len() ==> (#[trigger] outcome_contribution(t[i])) is Ok) {
            let j = choose|j: int| 0 <= j < t.len() && !((#[trigger] outcome_contribution(t[j])) is Ok);
            assert(t[j] == s[j]);
        }
        if outcome_contribution(o) is Err {
            assert(s[s.len() - 1] == o);
        }
    }
}

/// Prefix of the idempotency identity of a materialization request.
pub const MATERIALIZATION_IDENTITY_PREFIX: &'static str = "dq-evaluation-materialize-";

/// The idempotency identity of a materialization request: its fixed prefix
/// and the hexadecimal digest of its input.
pub fn materialization_identity(input_hash: &[u8]) -> (r: String)
    ensures
        r@ == MATERIALIZATION_IDENTITY_PREFIX@ + hex_spec(input_hash@),
{
    let mut out = MATERIALIZATION_IDENTITY_PREFIX.to_owned();
    push_hex(&mut out, input_hash);
    out
}


/// A materialization is admitted only onto the staged, not yet
/// materialized job the command read, at the positive version it expected,
/// with the job's own input and definitions, and advances the job by exactly
/// one version; a missing job is refused and a job at another version is a
/// version conflict.
pub proof fn materialization_advances_the_staged_job_by_one_version(definition_matches: bool,
    current_version: Option<i64>, expected: i64, job: JobFacts, input: InputFacts, rule_set: Seq<char>,
    profile: Seq<char>)
    ensures
        materialization_outcome(definition_matches, current_version, expected, job, input, rule_set, profile)
            matches Ok(next) ==> (definition_matches && current_version == Some(expected) && expected > 0 && next
            == expected + 1 && job.status == EvaluationJobStatus::Staged && !job.outcomes_materialized
            && input.job_id@ == job.job_id@ && rule_set == job.rule_set_version_id@ && profile
            == job.profile_version_id@),
        definition_matches && current_version is Some && current_version->0 != expected ==> materialization_outcome(
            definition_matches, current_version, expected, job, input, rule_set, profile) == Err::<
            i64,
            DataQualityPlanError,
        >(DataQualityPlanError::MaterializationVersionConflict),
        current_version is None ==> materialization_outcome(definition_matches, current_version, expected, job,
            input, rule_set, profile) is Err,
{
}

} // verus!
