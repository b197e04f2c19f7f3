//! Strict lineage validation of the Data Quality records that a privacy-scope
//! contribution reads: every evaluation job, staged input, rule outcome,
//! finding, finding observation, completeness result and remediation attempt
//! must agree with the definitions and records it names, and the number of
//! association lookups is bounded.
use vstd::prelude::*;
use crate::lookup::{Keyed, last_with_key, find_last};
use crate::privacy_contract::{PrivacyScopeError, MAX_PRIVACY_ASSOCIATION_RECORDS_REHYDRATED};

verus! {

/// Lifecycle of a Party evaluation job.
#[derive(Debug, Clone, Copy, PartialEq, Eq, Structural)]
pub enum EvaluationJobStatus {
    Created,
    Staged,
    Completed,
}

/// An immutable rule-set version: its identity and the keys of its rules.
pub struct RuleSetDefinition {
    pub version_id: String,
    pub rule_keys: Vec<String>,
}

/// One weighted component of a completeness profile.
pub struct ProfileComponent {
    pub component_key: String,
    pub rule_key: String,
    pub weight_basis_points: u32,
}

/// An immutable completeness-profile version bound to one rule set.
pub struct ProfileDefinition {
    pub version_id: String,
    pub rule_set_version_id: String,
    pub components: Vec<ProfileComponent>,
}

/// The strict definitions that lineage validation resolves against.
pub struct DefinitionCatalog {
    pub rule_sets: Vec<RuleSetDefinition>,
    pub profiles: Vec<ProfileDefinition>,
}

/// What lineage validation reads of an evaluation job.
pub struct JobFacts {
    pub job_id: String,
    pub party_id: String,
    pub rule_set_version_id: String,
    pub profile_version_id: String,
    pub status: EvaluationJobStatus,
    pub evaluated_rules: u32,
    pub failed_rules: u32,
    pub party_resource_version: Option<i64>,
    pub outcomes_materialized: bool,
    pub created_at: i64,
    pub updated_at: i64,
}

/// What lineage validation reads of a staged evaluation input.
pub struct InputFacts {
    pub record_id: String,
    pub job_id: String,
    pub party_id: String,
    pub party_resource_version: i64,
    pub captured_at: i64,
}

/// What lineage validation reads of a rule outcome.
pub struct OutcomeFacts {
    pub outcome_id: String,
    pub job_id: String,
    pub party_id: String,
    pub party_resource_version: i64,
    pub rule_set_version_id: String,
    pub rule_key: String,
    pub passed: bool,
    pub evaluated_at: i64,
}

/// What lineage validation reads of a finding observation.
pub struct ObservationFacts {
    pub observation_id: String,
    pub tenant_id: String,
    pub finding_id: String,
    pub party_id: String,
    pub rule_set_version_id: String,
    pub rule_key: String,
    pub party_resource_version: i64,
    pub observed_at: i64,
}

/// What lineage validation reads of a finding.
pub struct FindingFacts {
    pub finding_id: String,
    pub tenant_id: String,
    pub party_id: String,
    pub rule_set_version_id: String,
    pub rule_key: String,
    pub current_observation_id: String,
    pub evaluated_party_resource_version: i64,
    pub remediated_by_rule_outcome_id: Option<String>,
    pub updated_at: i64,
}

/// One component of a completeness result.
pub struct ComponentResultFacts {
    pub component_key: String,
    pub rule_key: String,
    pub rule_outcome_id: String,
    pub awarded_basis_points: u32,
}

/// What lineage validation reads of a completeness result.
pub struct CompletenessFacts {
    pub result_id: String,
    pub job_id: String,
    pub party_id: String,
    pub party_resource_version: i64,
    pub profile_version_id: String,
    pub computed_at: i64,
    pub components: Vec<ComponentResultFacts>,
}

/// What lineage validation reads of a remediation attempt.
pub struct RemediationFacts {
    pub attempt_id: String,
    pub tenant_id: String,
    pub finding_id: String,
    pub observation_id: String,
    pub party_id: String,
    pub expected_party_version: i64,
    pub completed_at: i64,
}

/// The owner records of one tenant, family by family.
pub struct DirectRecords {
    pub jobs: Vec<JobFacts>,
    pub inputs: Vec<InputFacts>,
    pub outcomes: Vec<OutcomeFacts>,
    pub findings: Vec<FindingFacts>,
    pub observations: Vec<ObservationFacts>,
    pub completeness_results: Vec<CompletenessFacts>,
    pub remediation_attempts: Vec<RemediationFacts>,
}

impl Keyed for RuleSetDefinition {
    open spec fn key(&self) -> Seq<char> { self.version_id@ }
    fn key_string(&self) -> (r: &String) { &self.version_id }
}

impl Keyed for ProfileDefinition {
    open spec fn key(&self) -> Seq<char> { self.version_id@ }
    fn key_string(&self) -> (r: &String) { &self.version_id }
}

impl Keyed for JobFacts {
    open spec fn key(&self) -> Seq<char> { self.job_id@ }
    fn key_string(&self) -> (r: &String) { &self.job_id }
}

impl Keyed for InputFacts {
    open spec fn key(&self) -> Seq<char> { self.job_id@ }
    fn key_string(&self) -> (r: &String) { &self.job_id }
}

impl Keyed for OutcomeFacts {
    open spec fn key(&self) -> Seq<char> { self.outcome_id@ }
    fn key_string(&self) -> (r: &String) { &self.outcome_id }
}

impl Keyed for FindingFacts {
    open spec fn key(&self) -> Seq<char> { self.finding_id@ }
    fn key_string(&self) -> (r: &String) { &self.finding_id }
}

impl Keyed for ObservationFacts {
    open spec fn key(&self) -> Seq<char> { self.observation_id@ }
    fn key_string(&self) -> (r: &String) { &self.observation_id }
}

impl RuleSetDefinition {
    /// Whether the rule set defines a rule with key `k`.
    pub open spec fn has_rule(&self, k: Seq<char>) -> bool {
        exists|i: int| 0 <= i < self.rule_keys@.len() && #[trigger] self.rule_keys@[i]@ == k
    }

    /// Executable form of [`Self::has_rule`].
    pub fn contains_rule(&self, key: &String) -> (r: bool)
        ensures
            r == self.has_rule(key@),
    {
        let mut i: usize = 0;
        while i < self.rule_keys.len()
            invariant
                i <= self.rule_keys@.len(),
                forall|j: int| 0 <= j < i ==> self.rule_keys@[j]@ != key@,
            decreases self.rule_keys@.len() - i,
        {
            if self.rule_keys[i] == *key {
                return true;
            }
            i = i + 1;
        }
        false
    }
}

/// The first profile component whose key is `k`.
pub open spec fn first_component(s: Seq<ProfileComponent>, k: Seq<char>) -> Option<ProfileComponent>
    decreases s.len(),
{
    if s.len() == 0 {
        None
    } else if s[0].component_key@ == k {
        Some(s[0])
    } else {
        first_component(s.drop_first(), k)
    }
}

fn find_first_component(s: &Vec<ProfileComponent>, key: &String) -> (r: Option<usize>)
    ensures
        match r {
            Some(i) => i < s@.len() && first_component(s@, key@) == Some(s@[i as int]),
            None => first_component(s@, key@) is None,
        },
{
    let mut i: usize = 0;
    assert(s@.skip(0) =~= s@);
    while i < s.len()
        invariant
            i <= s@.len(),
            first_component(s@, key@) == first_component(s@.skip(i as int), key@),
        decreases s@.len() - i,
    {
        assert(s@.skip(i as int)[0] == s@[i as int]);
        if s[i].component_key == *key {
            return Some(i);
        }
        assert(s@.skip(i as int).drop_first() =~= s@.skip(i + 1));
        i = i + 1;
    }
    None
}

/// Number of rule outcomes in `s` that belong to job `job`.
pub open spec fn outcomes_of_job(s: Seq<OutcomeFacts>, job: Seq<char>) -> nat
    decreases s.len(),
{
    if s.len() == 0 {
        0
    } else {
        outcomes_of_job(s.drop_last(), job) + if s.last().job_id@ == job { 1nat } else { 0nat }
    }
}

/// Number of failed rule outcomes in `s` that belong to job `job`.
pub open spec fn failed_outcomes_of_job(s: Seq<OutcomeFacts>, job: Seq<char>) -> nat
    decreases s.len(),
{
    if s.len() == 0 {
        0
    } else {
        failed_outcomes_of_job(s.drop_last(), job) + if s.last().job_id@ == job && !s.last().passed {
            1nat
        } else {
            0nat
        }
    }
}

/// Number of completeness results in `s` computed for job `job`.
pub open spec fn results_of_job(s: Seq<CompletenessFacts>, job: Seq<char>) -> nat
    decreases s.len(),
{
    if s.len() == 0 {
        0
    } else {
        results_of_job(s.drop_last(), job) + if s.last().job_id@ == job { 1nat } else { 0nat }
    }
}

fn count_job_outcomes(s: &Vec<OutcomeFacts>, job: &String) -> (r: (usize, usize))
    ensures
        r.0 == outcomes_of_job(s@, job@),
        r.1 == failed_outcomes_of_job(s@, job@),
{
    let mut all: usize = 0;
    let mut failed: usize = 0;
    let mut i: usize = 0;
    while i < s.len()
        invariant
            i <= s@.len(),
            all == outcomes_of_job(s@.take(i as int), job@),
            failed == failed_outcomes_of_job(s@.take(i as int), job@),
            all <= i,
            failed <= all,
        decreases s@.len() - i,
    {
        assert(s@.take(i + 1).drop_last() =~= s@.take(i as int));
        assert(s@.take(i + 1).last() == s@[i as int]);
        if s[i].job_id == *job {
            all = all + 1;
            if !s[i].passed {
                failed = failed + 1;
            }
        }
        i = i + 1;
    }
    assert(s@.take(s@.len() as int) =~= s@);
    (all, failed)
}

fn count_job_results(s: &Vec<CompletenessFacts>, job: &String) -> (r: usize)
    ensures
        r == results_of_job(s@, job@),
{
    let mut all: usize = 0;
    let mut i: usize = 0;
    while i < s.len()
        invariant
            i <= s@.len(),
            all == results_of_job(s@.take(i as int), job@),
            all <= i,
        decreases s@.len() - i,
    {
        assert(s@.take(i + 1).drop_last() =~= s@.take(i as int));
        assert(s@.take(i + 1).last() == s@[i as int]);
        if s[i].job_id == *job {
            all = all + 1;
        }
        i = i + 1;
    }
    assert(s@.take(s@.len() as int) =~= s@);
    all
}

/// `value`, or zero when absent.
pub open spec fn version_or_zero(value: Option<i64>) -> i64 {
    match value {
        Some(v) => v,
        None => 0,
    }
}

/// An evaluation job agrees with its rule set, its profile, its staged input
/// and its rule outcomes, as its status requires.
pub open spec fn job_consistent(cat: DefinitionCatalog, recs: DirectRecords, job: JobFacts) -> bool {
    match (
        last_with_key(cat.rule_sets@, job.rule_set_version_id@),
        last_with_key(cat.profiles@, job.profile_version_id@),
    ) {
        (Some(rule_set), Some(profile)) => {
            let rule_count = rule_set.rule_keys@.len();
            let input = last_with_key(recs.inputs@, job.job_id@);
            let outcome_count = outcomes_of_job(recs.outcomes@, job.job_id@);
            let failed = failed_outcomes_of_job(recs.outcomes@, job.job_id@);
            &&& profile.rule_set_version_id@ == rule_set.version_id@
            &&& rule_count <= u32::MAX
            &&& job.evaluated_rules <= rule_count
            &&& job.failed_rules <= job.evaluated_rules
            &&& failed <= u32::MAX
            &&& match job.status {
                EvaluationJobStatus::Created => input is None && outcome_count == 0
                    && job.party_resource_version is None,
                EvaluationJobStatus::Staged => input is Some && !job.outcomes_materialized,
                EvaluationJobStatus::Completed => input is Some && job.evaluated_rules == rule_count
                    && outcome_count == rule_count && job.failed_rules == failed,
            }
        },
        _ => false,
    }
}

/// Every job of `recs` is consistent.
pub open spec fn jobs_consistent(cat: DefinitionCatalog, recs: DirectRecords) -> bool {
    forall|i: int| 0 <= i < recs.jobs@.len() ==> #[trigger] job_consistent(cat, recs, recs.jobs@[i])
}


/// Counts association lookups against the frozen rehydration bound.
pub struct AssociationCounter {
    pub examined: usize,
}

impl AssociationCounter {
    /// A counter that has examined nothing.
    pub fn new() -> (r: Self)
        ensures
            r.examined == 0,
    {
        AssociationCounter { examined: 0 }
    }

    /// Charges one association lookup; fails once the bound would be passed.
    pub fn charge(&mut self) -> (r: Result<(), PrivacyScopeError>)
        ensures
            r is Ok <==> old(self).examined < MAX_PRIVACY_ASSOCIATION_RECORDS_REHYDRATED,
            r is Err ==> r == Err::<(), PrivacyScopeError>(PrivacyScopeError::ScanLimitExceeded),
            r is Ok ==> final(self).examined == old(self).examined + 1,
    {
        match self.examined.checked_add(1) {
            None => Err(PrivacyScopeError::ScanLimitExceeded),
            Some(next) => {
                self.examined = next;
                if self.examined > MAX_PRIVACY_ASSOCIATION_RECORDS_REHYDRATED {
                    Err(PrivacyScopeError::ScanLimitExceeded)
                } else {
                    Ok(())
                }
            },
        }
    }
}

/// How a validation phase that charged `total` lookups from a counter that
/// stood at `start` may end.
pub open spec fn phase_outcome(
    r: Result<(), PrivacyScopeError>,
    start: int,
    end: int,
    total: int,
    consistent: bool,
) -> bool {
    &&& r is Ok ==> consistent && end == start + total && end <= MAX_PRIVACY_ASSOCIATION_RECORDS_REHYDRATED
    &&& r == Err::<(), PrivacyScopeError>(PrivacyScopeError::ScanLimitExceeded) ==> start + total
        > MAX_PRIVACY_ASSOCIATION_RECORDS_REHYDRATED
    &&& r == Err::<(), PrivacyScopeError>(PrivacyScopeError::AssociationStateInvalid) ==> !consistent
    &&& r is Err ==> (r == Err::<(), PrivacyScopeError>(PrivacyScopeError::ScanLimitExceeded) || r
        == Err::<(), PrivacyScopeError>(PrivacyScopeError::AssociationStateInvalid))
}

/// The counter after one more lookup, or the refusal when the lookup would
/// pass the frozen bound.
pub open spec fn charged(examined: int) -> Result<int, PrivacyScopeError> {
    if examined >= MAX_PRIVACY_ASSOCIATION_RECORDS_REHYDRATED {
        Err(PrivacyScopeError::ScanLimitExceeded)
    } else {
        Ok(examined + 1)
    }
}

/// What validating one record decides, from the lookups already charged:
/// the counter after its own lookups, or the first refusal met in the order
/// its lookups are charged and its conditions checked.
pub trait LineageRecord: Sized {
    spec fn lineage_step(self, tenant: Seq<char>, cat: DefinitionCatalog, recs: DirectRecords, examined: int)
        -> Result<int, PrivacyScopeError>;
}

/// Validating `s` in order from a counter at `examined`: the first refusal,
/// or the counter after all of it.
pub open spec fn lineage_fold<T: LineageRecord>(s: Seq<T>, tenant: Seq<char>, cat: DefinitionCatalog,
    recs: DirectRecords, examined: int) -> Result<int, PrivacyScopeError>
    decreases s.len(),
{
    if s.len() == 0 {
        Ok(examined)
    } else {
        match lineage_fold(s.drop_last(), tenant, cat, recs, examined) {
            Ok(c) => s.last().lineage_step(tenant, cat, recs, c),
            Err(e) => Err(e),
        }
    }
}

/// A verdict without its counter.
pub open spec fn lineage_unit(x: Result<int, PrivacyScopeError>) -> Result<(), PrivacyScopeError> {
    match x {
        Ok(_) => Ok(()),
        Err(e) => Err(e),
    }
}

proof fn lemma_lineage_fold_step<T: LineageRecord>(s: Seq<T>, i: int, tenant: Seq<char>, cat: DefinitionCatalog,
    recs: DirectRecords, examined: int)
    requires
        0 <= i < s.len(),
    ensures
        lineage_fold(s.take(i + 1), tenant, cat, recs, examined) == match lineage_fold(s.take(i), tenant, cat, recs,
            examined) {
            Ok(c) => s[i].lineage_step(tenant, cat, recs, c),
            Err(e) => Err(e),
        },
{
    assert(s.take(i + 1).drop_last() =~= s.take(i));
    assert(s.take(i + 1).last() == s[i]);
}

proof fn lemma_lineage_fold_stops<T: LineageRecord>(s: Seq<T>, i: int, tenant: Seq<char>, cat: DefinitionCatalog,
    recs: DirectRecords, examined: int)
    requires
        0 <= i <= s.len(),
        lineage_fold(s.take(i), tenant, cat, recs, examined) is Err,
    ensures
        lineage_fold(s, tenant, cat, recs, examined) == lineage_fold(s.take(i), tenant, cat, recs, examined),
    decreases s.len() - i,
{
    if i == s.len() {
        assert(s.take(i) =~= s);
    } else {
        lemma_lineage_fold_step(s, i, tenant, cat, recs, examined);
        lemma_lineage_fold_stops(s, i + 1, tenant, cat, recs, examined);
    }
}

proof fn lemma_lineage_fold_empty<T: LineageRecord>(s: Seq<T>, tenant: Seq<char>, cat: DefinitionCatalog,
    recs: DirectRecords, examined: int)
    ensures
        lineage_fold(s.take(0), tenant, cat, recs, examined) == Ok::<int, PrivacyScopeError>(examined),
{
    assert(s.take(0) =~= Seq::<T>::empty());
}

impl LineageRecord for JobFacts {
    /// Rule set, then profile, each looked up after its charge; then the
    /// job's own consistency.
    open spec fn lineage_step(self, tenant: Seq<char>, cat: DefinitionCatalog, recs: DirectRecords, examined: int)
        -> Result<int, PrivacyScopeError> {
        if examined >= MAX_PRIVACY_ASSOCIATION_RECORDS_REHYDRATED {
            Err(PrivacyScopeError::ScanLimitExceeded)
        } else if last_with_key(cat.rule_sets@, self.rule_set_version_id@) is None {
            Err(PrivacyScopeError::AssociationStateInvalid)
        } else if examined + 1 >= MAX_PRIVACY_ASSOCIATION_RECORDS_REHYDRATED {
            Err(PrivacyScopeError::ScanLimitExceeded)
        } else if last_with_key(cat.profiles@, self.profile_version_id@) is None {
            Err(PrivacyScopeError::AssociationStateInvalid)
        } else if !job_consistent(cat, recs, self) {
            Err(PrivacyScopeError::AssociationStateInvalid)
        } else {
            Ok(examined + 2)
        }
    }
}

impl LineageRecord for InputFacts {
    /// Parent job, looked up after its charge; then the input's consistency.
    open spec fn lineage_step(self, tenant: Seq<char>, cat: DefinitionCatalog, recs: DirectRecords, examined: int)
        -> Result<int, PrivacyScopeError> {
        if examined >= MAX_PRIVACY_ASSOCIATION_RECORDS_REHYDRATED {
            Err(PrivacyScopeError::ScanLimitExceeded)
        } else if !input_consistent(recs, self) {
            Err(PrivacyScopeError::AssociationStateInvalid)
        } else {
            Ok(examined + 1)
        }
    }
}

impl LineageRecord for OutcomeFacts {
    /// Parent job, rule set and staged input, each looked up after its
    /// charge; then the outcome's consistency.
    open spec fn lineage_step(self, tenant: Seq<char>, cat: DefinitionCatalog, recs: DirectRecords, examined: int)
        -> Result<int, PrivacyScopeError> {
        if examined >= MAX_PRIVACY_ASSOCIATION_RECORDS_REHYDRATED {
            Err(PrivacyScopeError::ScanLimitExceeded)
        } else if last_with_key(recs.jobs@, self.job_id@) is None {
            Err(PrivacyScopeError::AssociationStateInvalid)
        } else if examined + 1 >= MAX_PRIVACY_ASSOCIATION_RECORDS_REHYDRATED {
            Err(PrivacyScopeError::ScanLimitExceeded)
        } else if last_with_key(cat.rule_sets@, self.rule_set_version_id@) is None {
            Err(PrivacyScopeError::AssociationStateInvalid)
        } else if examined + 2 >= MAX_PRIVACY_ASSOCIATION_RECORDS_REHYDRATED {
            Err(PrivacyScopeError::ScanLimitExceeded)
        } else if !outcome_consistent(cat, recs, self) {
            Err(PrivacyScopeError::AssociationStateInvalid)
        } else {
            Ok(examined + 3)
        }
    }
}

impl LineageRecord for ObservationFacts {
    /// The tenant, then the parent finding looked up after its charge; then
    /// the observation's consistency.
    open spec fn lineage_step(self, tenant: Seq<char>, cat: DefinitionCatalog, recs: DirectRecords, examined: int)
        -> Result<int, PrivacyScopeError> {
        if self.tenant_id@ != tenant {
            Err(PrivacyScopeError::AssociationStateInvalid)
        } else if examined >= MAX_PRIVACY_ASSOCIATION_RECORDS_REHYDRATED {
            Err(PrivacyScopeError::ScanLimitExceeded)
        } else if !observation_consistent(tenant, recs, self) {
            Err(PrivacyScopeError::AssociationStateInvalid)
        } else {
            Ok(examined + 1)
        }
    }
}

/// A finding agrees with its rule set and current observation, leaving its
/// remediating outcome aside.
pub open spec fn finding_core_consistent(tenant: Seq<char>, cat: DefinitionCatalog, recs: DirectRecords,
    finding: FindingFacts) -> bool {
    &&& finding.tenant_id@ == tenant
    &&& match (
        last_with_key(cat.rule_sets@, finding.rule_set_version_id@),
        last_with_key(recs.observations@, finding.current_observation_id@),
    ) {
        (Some(rule_set), Some(current)) => {
            &&& rule_set.has_rule(finding.rule_key@)
            &&& current.finding_id@ == finding.finding_id@
            &&& current.party_id@ == finding.party_id@
            &&& current.rule_set_version_id@ == finding.rule_set_version_id@
            &&& current.rule_key@ == finding.rule_key@
            &&& current.party_resource_version <= finding.evaluated_party_resource_version
        },
        _ => false,
    }
}

impl LineageRecord for FindingFacts {
    /// The tenant; rule set and current observation, each looked up after
    /// its charge; the finding's own lineage; then, for a remediated finding,
    /// its outcome looked up after a charge and checked.
    open spec fn lineage_step(self, tenant: Seq<char>, cat: DefinitionCatalog, recs: DirectRecords, examined: int)
        -> Result<int, PrivacyScopeError> {
        if self.tenant_id@ != tenant {
            Err(PrivacyScopeError::AssociationStateInvalid)
        } else if examined >= MAX_PRIVACY_ASSOCIATION_RECORDS_REHYDRATED {
            Err(PrivacyScopeError::ScanLimitExceeded)
        } else if last_with_key(cat.rule_sets@, self.rule_set_version_id@) is None {
            Err(PrivacyScopeError::AssociationStateInvalid)
        } else if examined + 1 >= MAX_PRIVACY_ASSOCIATION_RECORDS_REHYDRATED {
            Err(PrivacyScopeError::ScanLimitExceeded)
        } else if !finding_core_consistent(tenant, cat, recs, self) {
            Err(PrivacyScopeError::AssociationStateInvalid)
        } else if self.remediated_by_rule_outcome_id is None {
            Ok(examined + 2)
        } else if examined + 2 >= MAX_PRIVACY_ASSOCIATION_RECORDS_REHYDRATED {
            Err(PrivacyScopeError::ScanLimitExceeded)
        } else if !remediation_outcome_consistent(recs, self) {
            Err(PrivacyScopeError::AssociationStateInvalid)
        } else {
            Ok(examined + 3)
        }
    }
}

impl LineageRecord for RemediationFacts {
    /// The tenant; the finding and the observation, each looked up after its
    /// charge; then the attempt's consistency.
    open spec fn lineage_step(self, tenant: Seq<char>, cat: DefinitionCatalog, recs: DirectRecords, examined: int)
        -> Result<int, PrivacyScopeError> {
        if self.tenant_id@ != tenant {
            Err(PrivacyScopeError::AssociationStateInvalid)
        } else if examined >= MAX_PRIVACY_ASSOCIATION_RECORDS_REHYDRATED {
            Err(PrivacyScopeError::ScanLimitExceeded)
        } else if last_with_key(recs.findings@, self.finding_id@) is None {
            Err(PrivacyScopeError::AssociationStateInvalid)
        } else if examined + 1 >= MAX_PRIVACY_ASSOCIATION_RECORDS_REHYDRATED {
            Err(PrivacyScopeError::ScanLimitExceeded)
        } else if !remediation_consistent(tenant, recs, self) {
            Err(PrivacyScopeError::AssociationStateInvalid)
        } else {
            Ok(examined + 2)
        }
    }
}

/// Validating the components of a completeness result in order, each
/// looked up after its charge, from a counter at `examined`.
pub open spec fn component_fold(s: Seq<ComponentResultFacts>, recs: DirectRecords, result: CompletenessFacts,
    job: JobFacts, profile: ProfileDefinition, rule_set: RuleSetDefinition, examined: int)
    -> Result<int, PrivacyScopeError>
    decreases s.len(),
{
    if s.len() == 0 {
        Ok(examined)
    } else {
        match component_fold(s.drop_last(), recs, result, job, profile, rule_set, examined) {
            Ok(c) => if c >= MAX_PRIVACY_ASSOCIATION_RECORDS_REHYDRATED {
                Err(PrivacyScopeError::ScanLimitExceeded)
            } else if !component_consistent(recs, result, job, profile, rule_set, s.last()) {
                Err(PrivacyScopeError::AssociationStateInvalid)
            } else {
                Ok(c + 1)
            },
            Err(e) => Err(e),
        }
    }
}

proof fn lemma_component_fold_step(s: Seq<ComponentResultFacts>, i: int, recs: DirectRecords,
    result: CompletenessFacts, job: JobFacts, profile: ProfileDefinition, rule_set: RuleSetDefinition, examined: int)
    requires
        0 <= i < s.len(),
    ensures
        component_fold(s.take(i + 1), recs, result, job, profile, rule_set, examined) == match component_fold(
            s.take(i), recs, result, job, profile, rule_set, examined) {
            Ok(c) => if c >= MAX_PRIVACY_ASSOCIATION_RECORDS_REHYDRATED {
                Err(PrivacyScopeError::ScanLimitExceeded)
            } else if !component_consistent(recs, result, job, profile, rule_set, s[i]) {
                Err(PrivacyScopeError::AssociationStateInvalid)
            } else {
                Ok(c + 1)
            },
            Err(e) => Err(e),
        },
{
    assert(s.take(i + 1).drop_last() =~= s.take(i));
    assert(s.take(i + 1).last() == s[i]);
}

proof fn lemma_component_fold_stops(s: Seq<ComponentResultFacts>, i: int, recs: DirectRecords,
    result: CompletenessFacts, job: JobFacts, profile: ProfileDefinition, rule_set: RuleSetDefinition, examined: int)
    requires
        0 <= i <= s.len(),
        component_fold(s.take(i), recs, result, job, profile, rule_set, examined) is Err,
    ensures
        component_fold(s, recs, result, job, profile, rule_set, examined) == component_fold(s.take(i), recs, result,
            job, profile, rule_set, examined),
    decreases s.len() - i,
{
    if i == s.len() {
        assert(s.take(i) =~= s);
    } else {
        lemma_component_fold_step(s, i, recs, result, job, profile, rule_set, examined);
        lemma_component_fold_stops(s, i + 1, recs, result, job, profile, rule_set, examined);
    }
}

/// A completeness result agrees with its job, profile and rule set, leaving
/// its components aside.
pub open spec fn completeness_header_consistent(cat: DefinitionCatalog, recs: DirectRecords, result: CompletenessFacts)
    -> bool {
    match last_with_key(recs.jobs@, result.job_id@) {
        Some(job) => match last_with_key(cat.profiles@, result.profile_version_id@) {
            Some(profile) => match last_with_key(cat.rule_sets@, profile.rule_set_version_id@) {
                Some(rule_set) => {
                    &&& result.party_id@ == job.party_id@
                    &&& result.party_resource_version == version_or_zero(job.party_resource_version)
                    &&& result.profile_version_id@ == job.profile_version_id@
                    &&& profile.rule_set_version_id@ == job.rule_set_version_id@
                    &&& job.status == EvaluationJobStatus::Completed
                    &&& result.computed_at <= job.updated_at
                },
                None => false,
            },
            None => false,
        },
        None => false,
    }
}

impl LineageRecord for CompletenessFacts {
    /// Job, profile and the profile's rule set, each looked up after its
    /// charge; the result's own lineage; then its components in order.
    open spec fn lineage_step(self, tenant: Seq<char>, cat: DefinitionCatalog, recs: DirectRecords, examined: int)
        -> Result<int, PrivacyScopeError> {
        if examined >= MAX_PRIVACY_ASSOCIATION_RECORDS_REHYDRATED {
            Err(PrivacyScopeError::ScanLimitExceeded)
        } else if last_with_key(recs.jobs@, self.job_id@) is None {
            Err(PrivacyScopeError::AssociationStateInvalid)
        } else if examined + 1 >= MAX_PRIVACY_ASSOCIATION_RECORDS_REHYDRATED {
            Err(PrivacyScopeError::ScanLimitExceeded)
        } else if last_with_key(cat.profiles@, self.profile_version_id@) is None {
            Err(PrivacyScopeError::AssociationStateInvalid)
        } else if examined + 2 >= MAX_PRIVACY_ASSOCIATION_RECORDS_REHYDRATED {
            Err(PrivacyScopeError::ScanLimitExceeded)
        } else if !completeness_header_consistent(cat, recs, self) {
            Err(PrivacyScopeError::AssociationStateInvalid)
        } else {
            component_fold(
                self.components@,
                recs,
                self,
                last_with_key(recs.jobs@, self.job_id@)->0,
                last_with_key(cat.profiles@, self.profile_version_id@)->0,
                last_with_key(cat.rule_sets@, last_with_key(cat.profiles@, self.profile_version_id@)->0.rule_set_version_id@)->0,
                examined + 3,
            )
        }
    }
}

/// What validating the whole lineage decides: jobs, inputs, outcomes,
/// observations, findings, completeness results and remediation attempts
/// in that order, each record in its stored order, from an untouched
/// counter; the first refusal met decides; then every completed job must
/// have exactly one completeness result.
pub open spec fn association_verdict(tenant: Seq<char>, cat: DefinitionCatalog, recs: DirectRecords)
    -> Result<(), PrivacyScopeError> {
    match lineage_fold(recs.jobs@, tenant, cat, recs, 0) {
        Err(e) => Err(e),
        Ok(c1) => match lineage_fold(recs.inputs@, tenant, cat, recs, c1) {
            Err(e) => Err(e),
            Ok(c2) => match lineage_fold(recs.outcomes@, tenant, cat, recs, c2) {
                Err(e) => Err(e),
                Ok(c3) => match lineage_fold(recs.observations@, tenant, cat, recs, c3) {
                    Err(e) => Err(e),
                    Ok(c4) => match lineage_fold(recs.findings@, tenant, cat, recs, c4) {
                        Err(e) => Err(e),
                        Ok(c5) => match lineage_fold(recs.completeness_results@, tenant, cat, recs, c5) {
                            Err(e) => Err(e),
                            Ok(c6) => match lineage_fold(recs.remediation_attempts@, tenant, cat, recs, c6) {
                                Err(e) => Err(e),
                                Ok(_) => if completed_jobs_have_one_result(recs) {
                                    Ok(())
                                } else {
                                    Err(PrivacyScopeError::AssociationStateInvalid)
                                },
                            },
                        },
                    },
                },
            },
        },
    }
}

fn check_job(tenant: &String, cat: &DefinitionCatalog, recs: &DirectRecords, job: &JobFacts,
    counter: &mut AssociationCounter) -> (r: Result<(), PrivacyScopeError>)
    ensures
        r == lineage_unit(job.lineage_step(tenant@, *cat, *recs, old(counter).examined as int)),
        r is Ok ==> job.lineage_step(tenant@, *cat, *recs, old(counter).examined as int) == Ok::<
            int,
            PrivacyScopeError,
        >(final(counter).examined as int),
        phase_outcome(r, old(counter).examined as int, final(counter).examined as int, 2, job_consistent(*cat, *recs, *job)),
{
    counter.charge()?;
    let rs = match find_last(&cat.rule_sets, &job.rule_set_version_id) {
        Some(i) => i,
        None => return Err(PrivacyScopeError::AssociationStateInvalid),
    };
    counter.charge()?;
    let pf = match find_last(&cat.profiles, &job.profile_version_id) {
        Some(i) => i,
        None => return Err(PrivacyScopeError::AssociationStateInvalid),
    };
    let rule_set = &cat.rule_sets[rs];
    let profile = &cat.profiles[pf];
    if !(profile.rule_set_version_id == rule_set.version_id) {
        return Err(PrivacyScopeError::AssociationStateInvalid);
    }
    if rule_set.rule_keys.len() > 0xffff_ffffusize {
        return Err(PrivacyScopeError::AssociationStateInvalid);
    }
    let rule_count = rule_set.rule_keys.len() as u32;
    if job.evaluated_rules > rule_count || job.failed_rules > job.evaluated_rules {
        return Err(PrivacyScopeError::AssociationStateInvalid);
    }
    let input = find_last(&recs.inputs, &job.job_id);
    let (outcome_count, failed) = count_job_outcomes(&recs.outcomes, &job.job_id);
    if failed > 0xffff_ffffusize {
        return Err(PrivacyScopeError::AssociationStateInvalid);
    }
    let failed = failed as u32;
    match job.status {
        EvaluationJobStatus::Created => {
            if input.is_some() || outcome_count != 0 || job.party_resource_version.is_some() {
                return Err(PrivacyScopeError::AssociationStateInvalid);
            }
        },
        EvaluationJobStatus::Staged => {
            if input.is_none() || job.outcomes_materialized {
                return Err(PrivacyScopeError::AssociationStateInvalid);
            }
        },
        EvaluationJobStatus::Completed => {
            if input.is_none() || job.evaluated_rules != rule_count || outcome_count
                != rule_count as usize || job.failed_rules != failed {
                return Err(PrivacyScopeError::AssociationStateInvalid);
            }
        },
    }
    Ok(())
}

fn check_jobs(tenant: &String, cat: &DefinitionCatalog, recs: &DirectRecords, counter: &mut AssociationCounter)
    -> (r: Result<(), PrivacyScopeError>)
    requires
        old(counter).examined <= MAX_PRIVACY_ASSOCIATION_RECORDS_REHYDRATED,
    ensures
        r == lineage_unit(lineage_fold(recs.jobs@, tenant@, *cat, *recs, old(counter).examined as int)),
        r is Ok ==> lineage_fold(recs.jobs@, tenant@, *cat, *recs, old(counter).examined as int) == Ok::<int, PrivacyScopeError>(final(counter).examined as int),
        phase_outcome(
            r,
            old(counter).examined as int,
            final(counter).examined as int,
            2 * recs.jobs@.len() as int,
            jobs_consistent(*cat, *recs),
        ),
{
    let ghost start = counter.examined as int;
    assert(start == old(counter).examined);
    proof {
        lemma_lineage_fold_empty(recs.jobs@, tenant@, *cat, *recs, start);
    }
    let mut i: usize = 0;
    while i < recs.jobs.len()
        invariant
            lineage_fold(recs.jobs@.take(i as int), tenant@, *cat, *recs, start) == Ok::<int, PrivacyScopeError>(
                counter.examined as int),
            i <= recs.jobs@.len(),
            start == old(counter).examined,
            counter.examined == start + 2 * i,
            counter.examined <= MAX_PRIVACY_ASSOCIATION_RECORDS_REHYDRATED,
            forall|j: int| 0 <= j < i ==> #[trigger] job_consistent(*cat, *recs, recs.jobs@[j]),
        decreases recs.jobs@.len() - i,
    {
        let ghost before = counter.examined as int;
        proof {
            lemma_lineage_fold_step(recs.jobs@, i as int, tenant@, *cat, *recs, start);
        }
        let r = check_job(tenant, cat, recs, &recs.jobs[i], counter);
        if r.is_err() {
            proof {
                lemma_lineage_fold_stops(recs.jobs@, i + 1, tenant@, *cat, *recs, start);
            }
            assert(r == Err::<(), PrivacyScopeError>(PrivacyScopeError::ScanLimitExceeded)
                ==> before + 2 > MAX_PRIVACY_ASSOCIATION_RECORDS_REHYDRATED);
            assert(before == start + 2 * i);
            assert(start == old(counter).examined);
            assert(r == Err::<(), PrivacyScopeError>(PrivacyScopeError::AssociationStateInvalid)
                ==> !job_consistent(*cat, *recs, recs.jobs@[i as int]));
            return r;
        }
        i = i + 1;
    }
    proof {
        assert(recs.jobs@.take(i as int) =~= recs.jobs@);
    }
    Ok(())
}


/// A staged input agrees with its exact parent job.
pub open spec fn input_consistent(recs: DirectRecords, input: InputFacts) -> bool {
    match last_with_key(recs.jobs@, input.job_id@) {
        Some(job) => {
            &&& input.record_id@ == input.job_id@
            &&& input.party_id@ == job.party_id@
            &&& job.party_resource_version == Some(input.party_resource_version)
            &&& job.created_at <= input.captured_at <= job.updated_at
            &&& job.status != EvaluationJobStatus::Created
        },
        None => false,
    }
}

/// A rule outcome agrees with its completed job, its staged input and its rule set.
pub open spec fn outcome_consistent(cat: DefinitionCatalog, recs: DirectRecords, outcome: OutcomeFacts) -> bool {
    match (
        last_with_key(recs.jobs@, outcome.job_id@),
        last_with_key(cat.rule_sets@, outcome.rule_set_version_id@),
        last_with_key(recs.inputs@, outcome.job_id@),
    ) {
        (Some(job), Some(rule_set), Some(input)) => {
            &&& outcome.party_id@ == job.party_id@
            &&& outcome.party_resource_version == version_or_zero(job.party_resource_version)
            &&& outcome.rule_set_version_id@ == job.rule_set_version_id@
            &&& rule_set.has_rule(outcome.rule_key@)
            &&& input.captured_at <= outcome.evaluated_at <= job.updated_at
            &&& job.status == EvaluationJobStatus::Completed
        },
        _ => false,
    }
}

/// A finding observation belongs to the tenant and agrees with its parent finding.
pub open spec fn observation_consistent(tenant: Seq<char>, recs: DirectRecords, observation: ObservationFacts) -> bool {
    &&& observation.tenant_id@ == tenant
    &&& match last_with_key(recs.findings@, observation.finding_id@) {
        Some(finding) => {
            &&& observation.party_id@ == finding.party_id@
            &&& observation.rule_set_version_id@ == finding.rule_set_version_id@
            &&& observation.rule_key@ == finding.rule_key@
            &&& observation.observed_at <= finding.updated_at
        },
        None => false,
    }
}

/// The outcome that a finding names as its remediation agrees with it.
pub open spec fn remediation_outcome_consistent(recs: DirectRecords, finding: FindingFacts) -> bool {
    match finding.remediated_by_rule_outcome_id {
        None => true,
        Some(outcome_id) => match last_with_key(recs.outcomes@, outcome_id@) {
            Some(outcome) => {
                &&& outcome.passed
                &&& outcome.party_id@ == finding.party_id@
                &&& outcome.rule_set_version_id@ == finding.rule_set_version_id@
                &&& outcome.rule_key@ == finding.rule_key@
                &&& outcome.party_resource_version == finding.evaluated_party_resource_version
            },
            None => false,
        },
    }
}

/// A finding belongs to the tenant and agrees with its rule set, its current
/// observation and its remediating outcome.
pub open spec fn finding_consistent(
    tenant: Seq<char>,
    cat: DefinitionCatalog,
    recs: DirectRecords,
    finding: FindingFacts,
) -> bool {
    &&& finding.tenant_id@ == tenant
    &&& match (
        last_with_key(cat.rule_sets@, finding.rule_set_version_id@),
        last_with_key(recs.observations@, finding.current_observation_id@),
    ) {
        (Some(rule_set), Some(current)) => {
            &&& rule_set.has_rule(finding.rule_key@)
            &&& current.finding_id@ == finding.finding_id@
            &&& current.party_id@ == finding.party_id@
            &&& current.rule_set_version_id@ == finding.rule_set_version_id@
            &&& current.rule_key@ == finding.rule_key@
            &&& current.party_resource_version <= finding.evaluated_party_resource_version
            &&& remediation_outcome_consistent(recs, finding)
        },
        _ => false,
    }
}

/// One component of a completeness result agrees with its profile component
/// and its rule outcome.
pub open spec fn component_consistent(
    recs: DirectRecords,
    result: CompletenessFacts,
    job: JobFacts,
    profile: ProfileDefinition,
    rule_set: RuleSetDefinition,
    component: ComponentResultFacts,
) -> bool {
    match (
        last_with_key(recs.outcomes@, component.rule_outcome_id@),
        first_component(profile.components@, component.component_key@),
    ) {
        (Some(outcome), Some(profile_component)) => {
            &&& profile_component.rule_key@ == component.rule_key@
            &&& rule_set.has_rule(component.rule_key@)
            &&& outcome.job_id@ == result.job_id@
            &&& outcome.party_id@ == result.party_id@
            &&& outcome.rule_set_version_id@ == job.rule_set_version_id@
            &&& outcome.rule_key@ == component.rule_key@
            &&& component.awarded_basis_points == (if outcome.passed {
                profile_component.weight_basis_points
            } else {
                0
            })
            &&& outcome.evaluated_at <= result.computed_at
        },
        _ => false,
    }
}

/// A completeness result agrees with its completed job, its profile, the
/// profile's rule set and, component by component, its rule outcomes.
pub open spec fn completeness_consistent(cat: DefinitionCatalog, recs: DirectRecords, result: CompletenessFacts) -> bool {
    match last_with_key(recs.jobs@, result.job_id@) {
        Some(job) => match last_with_key(cat.profiles@, result.profile_version_id@) {
            Some(profile) => match last_with_key(cat.rule_sets@, profile.rule_set_version_id@) {
                Some(rule_set) => {
                    &&& result.party_id@ == job.party_id@
                    &&& result.party_resource_version == version_or_zero(job.party_resource_version)
                    &&& result.profile_version_id@ == job.profile_version_id@
                    &&& profile.rule_set_version_id@ == job.rule_set_version_id@
                    &&& job.status == EvaluationJobStatus::Completed
                    &&& result.computed_at <= job.updated_at
                    &&& forall|k: int| 0 <= k < result.components@.len() ==> component_consistent(
                        recs,
                        result,
                        job,
                        profile,
                        rule_set,
                        #[trigger] result.components@[k],
                    )
                },
                None => false,
            },
            None => false,
        },
        None => false,
    }
}

/// A remediation attempt belongs to the tenant and agrees with its finding and observation.
pub open spec fn remediation_consistent(tenant: Seq<char>, recs: DirectRecords, attempt: RemediationFacts) -> bool {
    &&& attempt.tenant_id@ == tenant
    &&& match (
        last_with_key(recs.findings@, attempt.finding_id@),
        last_with_key(recs.observations@, attempt.observation_id@),
    ) {
        (Some(finding), Some(observation)) => {
            &&& attempt.party_id@ == finding.party_id@
            &&& observation.finding_id@ == finding.finding_id@
            &&& observation.party_id@ == attempt.party_id@
            &&& attempt.expected_party_version == observation.party_resource_version
            &&& observation.observed_at <= attempt.completed_at
        },
        _ => false,
    }
}

pub open spec fn inputs_consistent(recs: DirectRecords) -> bool {
    forall|i: int| 0 <= i < recs.inputs@.len() ==> #[trigger] input_consistent(recs, recs.inputs@[i])
}

pub open spec fn outcomes_consistent(cat: DefinitionCatalog, recs: DirectRecords) -> bool {
    forall|i: int| 0 <= i < recs.outcomes@.len() ==> #[trigger] outcome_consistent(cat, recs, recs.outcomes@[i])
}

pub open spec fn observations_consistent(tenant: Seq<char>, recs: DirectRecords) -> bool {
    forall|i: int| 0 <= i < recs.observations@.len() ==> #[trigger] observation_consistent(tenant, recs, recs.observations@[i])
}

pub open spec fn findings_consistent(tenant: Seq<char>, cat: DefinitionCatalog, recs: DirectRecords) -> bool {
    forall|i: int| 0 <= i < recs.findings@.len() ==> #[trigger] finding_consistent(tenant, cat, recs, recs.findings@[i])
}

pub open spec fn completeness_results_consistent(cat: DefinitionCatalog, recs: DirectRecords) -> bool {
    forall|i: int| 0 <= i < recs.completeness_results@.len() ==> #[trigger] completeness_consistent(cat, recs, recs.completeness_results@[i])
}

pub open spec fn remediations_consistent(tenant: Seq<char>, recs: DirectRecords) -> bool {
    forall|i: int| 0 <= i < recs.remediation_attempts@.len() ==> #[trigger] remediation_consistent(tenant, recs, recs.remediation_attempts@[i])
}

/// Every completed job has exactly one completeness result.
pub open spec fn completed_jobs_have_one_result(recs: DirectRecords) -> bool {
    forall|i: int| 0 <= i < recs.jobs@.len() && (#[trigger] recs.jobs@[i]).status == EvaluationJobStatus::Completed
        ==> results_of_job(recs.completeness_results@, recs.jobs@[i].job_id@) == 1
}

/// The complete lineage of one tenant's Data Quality records is consistent.
pub open spec fn associations_valid(tenant: Seq<char>, cat: DefinitionCatalog, recs: DirectRecords) -> bool {
    &&& jobs_consistent(cat, recs)
    &&& inputs_consistent(recs)
    &&& outcomes_consistent(cat, recs)
    &&& observations_consistent(tenant, recs)
    &&& findings_consistent(tenant, cat, recs)
    &&& completeness_results_consistent(cat, recs)
    &&& remediations_consistent(tenant, recs)
    &&& completed_jobs_have_one_result(recs)
}

/// Lookups that validating one finding charges.
pub open spec fn finding_charge(finding: FindingFacts) -> int {
    if finding.remediated_by_rule_outcome_id is Some { 3 } else { 2 }
}

pub open spec fn finding_charges(s: Seq<FindingFacts>) -> int
    decreases s.len(),
{
    if s.len() == 0 { 0 } else { finding_charges(s.drop_last()) + finding_charge(s.last()) }
}

pub open spec fn completeness_charges(s: Seq<CompletenessFacts>) -> int
    decreases s.len(),
{
    if s.len() == 0 { 0 } else { completeness_charges(s.drop_last()) + 3 + s.last().components@.len() }
}

/// Number of association lookups that validating all of `recs` charges.
pub open spec fn association_charges(recs: DirectRecords) -> int {
    2 * recs.jobs@.len() + recs.inputs@.len() + 3 * recs.outcomes@.len() + recs.observations@.len()
        + finding_charges(recs.findings@) + completeness_charges(recs.completeness_results@)
        + 2 * recs.remediation_attempts@.len()
}


fn check_input(tenant: &String, cat: &DefinitionCatalog, recs: &DirectRecords, input: &InputFacts,
    counter: &mut AssociationCounter) -> (r: Result<(), PrivacyScopeError>)
    ensures
        r == lineage_unit(input.lineage_step(tenant@, *cat, *recs, old(counter).examined as int)),
        r is Ok ==> input.lineage_step(tenant@, *cat, *recs, old(counter).examined as int) == Ok::<
            int,
            PrivacyScopeError,
        >(final(counter).examined as int),
        phase_outcome(r, old(counter).examined as int, final(counter).examined as int, 1, input_consistent(*recs, *input)),
{
    counter.charge()?;
    let job = match find_last(&recs.jobs, &input.job_id) {
        Some(i) => &recs.jobs[i],
        None => return Err(PrivacyScopeError::AssociationStateInvalid),
    };
    let version_matches = match job.party_resource_version {
        Some(v) => v == input.party_resource_version,
        None => false,
    };
    if !(input.record_id == input.job_id)
        || !(input.party_id == job.party_id)
        || !version_matches
        || input.captured_at < job.created_at
        || input.captured_at > job.updated_at
        || job.status == EvaluationJobStatus::Created
    {
        return Err(PrivacyScopeError::AssociationStateInvalid);
    }
    Ok(())
}

fn check_outcome(tenant: &String, cat: &DefinitionCatalog, recs: &DirectRecords, outcome: &OutcomeFacts,
    counter: &mut AssociationCounter) -> (r: Result<(), PrivacyScopeError>)
    ensures
        r == lineage_unit(outcome.lineage_step(tenant@, *cat, *recs, old(counter).examined as int)),
        r is Ok ==> outcome.lineage_step(tenant@, *cat, *recs, old(counter).examined as int) == Ok::<
            int,
            PrivacyScopeError,
        >(final(counter).examined as int),
        phase_outcome(r, old(counter).examined as int, final(counter).examined as int, 3, outcome_consistent(*cat, *recs, *outcome)),
{
    counter.charge()?;
    let job = match find_last(&recs.jobs, &outcome.job_id) {
        Some(i) => &recs.jobs[i],
        None => return Err(PrivacyScopeError::AssociationStateInvalid),
    };
    counter.charge()?;
    let rule_set = match find_last(&cat.rule_sets, &outcome.rule_set_version_id) {
        Some(i) => &cat.rule_sets[i],
        None => return Err(PrivacyScopeError::AssociationStateInvalid),
    };
    counter.charge()?;
    let input = match find_last(&recs.inputs, &outcome.job_id) {
        Some(i) => &recs.inputs[i],
        None => return Err(PrivacyScopeError::AssociationStateInvalid),
    };
    let job_version = match job.party_resource_version {
        Some(v) => v,
        None => 0,
    };
    if !(outcome.party_id == job.party_id)
        || outcome.party_resource_version != job_version
        || !(outcome.rule_set_version_id == job.rule_set_version_id)
        || !rule_set.contains_rule(&outcome.rule_key)
        || outcome.evaluated_at < input.captured_at
        || outcome.evaluated_at > job.updated_at
        || job.status != EvaluationJobStatus::Completed
    {
        return Err(PrivacyScopeError::AssociationStateInvalid);
    }
    Ok(())
}

fn check_observation(tenant: &String, cat: &DefinitionCatalog, recs: &DirectRecords, observation: &ObservationFacts,
    counter: &mut AssociationCounter) -> (r: Result<(), PrivacyScopeError>)
    ensures
        r == lineage_unit(observation.lineage_step(tenant@, *cat, *recs, old(counter).examined as int)),
        r is Ok ==> observation.lineage_step(tenant@, *cat, *recs, old(counter).examined as int) == Ok::<
            int,
            PrivacyScopeError,
        >(final(counter).examined as int),
        phase_outcome(r, old(counter).examined as int, final(counter).examined as int, 1,
            observation_consistent(tenant@, *recs, *observation)),
{
    if observation.tenant_id != *tenant {
        return Err(PrivacyScopeError::AssociationStateInvalid);
    }
    counter.charge()?;
    let finding = match find_last(&recs.findings, &observation.finding_id) {
        Some(i) => &recs.findings[i],
        None => return Err(PrivacyScopeError::AssociationStateInvalid),
    };
    if !(observation.party_id == finding.party_id)
        || !(observation.rule_set_version_id == finding.rule_set_version_id)
        || !(observation.rule_key == finding.rule_key)
        || observation.observed_at > finding.updated_at
    {
        return Err(PrivacyScopeError::AssociationStateInvalid);
    }
    Ok(())
}

fn check_finding(
    tenant: &String,
    cat: &DefinitionCatalog,
    recs: &DirectRecords,
    finding: &FindingFacts,
    counter: &mut AssociationCounter,
) -> (r: Result<(), PrivacyScopeError>)
    ensures
        r == lineage_unit(finding.lineage_step(tenant@, *cat, *recs, old(counter).examined as int)),
        r is Ok ==> finding.lineage_step(tenant@, *cat, *recs, old(counter).examined as int) == Ok::<
            int,
            PrivacyScopeError,
        >(final(counter).examined as int),
        phase_outcome(r, old(counter).examined as int, final(counter).examined as int, finding_charge(*finding),
            finding_consistent(tenant@, *cat, *recs, *finding)),
{
    if finding.tenant_id != *tenant {
        return Err(PrivacyScopeError::AssociationStateInvalid);
    }
    counter.charge()?;
    let rule_set = match find_last(&cat.rule_sets, &finding.rule_set_version_id) {
        Some(i) => &cat.rule_sets[i],
        None => return Err(PrivacyScopeError::AssociationStateInvalid),
    };
    counter.charge()?;
    let current = match find_last(&recs.observations, &finding.current_observation_id) {
        Some(i) => &recs.observations[i],
        None => return Err(PrivacyScopeError::AssociationStateInvalid),
    };
    if !rule_set.contains_rule(&finding.rule_key)
        || !(current.finding_id == finding.finding_id)
        || !(current.party_id == finding.party_id)
        || !(current.rule_set_version_id == finding.rule_set_version_id)
        || !(current.rule_key == finding.rule_key)
        || current.party_resource_version > finding.evaluated_party_resource_version
    {
        return Err(PrivacyScopeError::AssociationStateInvalid);
    }
    match &finding.remediated_by_rule_outcome_id {
        None => {},
        Some(outcome_id) => {
            counter.charge()?;
            let outcome = match find_last(&recs.outcomes, &outcome_id) {
                Some(i) => &recs.outcomes[i],
                None => return Err(PrivacyScopeError::AssociationStateInvalid),
            };
            if !outcome.passed
                || !(outcome.party_id == finding.party_id)
                || !(outcome.rule_set_version_id == finding.rule_set_version_id)
                || !(outcome.rule_key == finding.rule_key)
                || outcome.party_resource_version != finding.evaluated_party_resource_version
            {
                return Err(PrivacyScopeError::AssociationStateInvalid);
            }
        },
    }
    Ok(())
}

fn check_remediation(tenant: &String, cat: &DefinitionCatalog, recs: &DirectRecords, attempt: &RemediationFacts,
    counter: &mut AssociationCounter) -> (r: Result<(), PrivacyScopeError>)
    ensures
        r == lineage_unit(attempt.lineage_step(tenant@, *cat, *recs, old(counter).examined as int)),
        r is Ok ==> attempt.lineage_step(tenant@, *cat, *recs, old(counter).examined as int) == Ok::<
            int,
            PrivacyScopeError,
        >(final(counter).examined as int),
        phase_outcome(r, old(counter).examined as int, final(counter).examined as int, 2,
            remediation_consistent(tenant@, *recs, *attempt)),
{
    if attempt.tenant_id != *tenant {
        return Err(PrivacyScopeError::AssociationStateInvalid);
    }
    counter.charge()?;
    let finding = match find_last(&recs.findings, &attempt.finding_id) {
        Some(i) => &recs.findings[i],
        None => return Err(PrivacyScopeError::AssociationStateInvalid),
    };
    counter.charge()?;
    let observation = match find_last(&recs.observations, &attempt.observation_id) {
        Some(i) => &recs.observations[i],
        None => return Err(PrivacyScopeError::AssociationStateInvalid),
    };
    if !(attempt.party_id == finding.party_id)
        || !(observation.finding_id == finding.finding_id)
        || !(observation.party_id == attempt.party_id)
        || attempt.expected_party_version != observation.party_resource_version
        || attempt.completed_at < observation.observed_at
    {
        return Err(PrivacyScopeError::AssociationStateInvalid);
    }
    Ok(())
}


fn check_component(
    recs: &DirectRecords,
    result: &CompletenessFacts,
    job: &JobFacts,
    profile: &ProfileDefinition,
    rule_set: &RuleSetDefinition,
    component: &ComponentResultFacts,
    counter: &mut AssociationCounter,
) -> (r: Result<(), PrivacyScopeError>)
    ensures
        phase_outcome(r, old(counter).examined as int, final(counter).examined as int, 1,
            component_consistent(*recs, *result, *job, *profile, *rule_set, *component)),
        r == (if old(counter).examined >= MAX_PRIVACY_ASSOCIATION_RECORDS_REHYDRATED {
            Err::<(), PrivacyScopeError>(PrivacyScopeError::ScanLimitExceeded)
        } else if !component_consistent(*recs, *result, *job, *profile, *rule_set, *component) {
            Err(PrivacyScopeError::AssociationStateInvalid)
        } else {
            Ok(())
        }),
{
    counter.charge()?;
    let outcome = match find_last(&recs.outcomes, &component.rule_outcome_id) {
        Some(i) => &recs.outcomes[i],
        None => return Err(PrivacyScopeError::AssociationStateInvalid),
    };
    let profile_component = match find_first_component(&profile.components, &component.component_key) {
        Some(i) => &profile.components[i],
        None => return Err(PrivacyScopeError::AssociationStateInvalid),
    };
    let expected_award = if outcome.passed { profile_component.weight_basis_points } else { 0 };
    if !(profile_component.rule_key == component.rule_key)
        || !rule_set.contains_rule(&component.rule_key)
        || !(outcome.job_id == result.job_id)
        || !(outcome.party_id == result.party_id)
        || !(outcome.rule_set_version_id == job.rule_set_version_id)
        || !(outcome.rule_key == component.rule_key)
        || component.awarded_basis_points != expected_award
        || outcome.evaluated_at > result.computed_at
    {
        return Err(PrivacyScopeError::AssociationStateInvalid);
    }
    Ok(())
}

fn check_completeness(tenant: &String, cat: &DefinitionCatalog, recs: &DirectRecords, result: &CompletenessFacts,
    counter: &mut AssociationCounter) -> (r: Result<(), PrivacyScopeError>)
    ensures
        r == lineage_unit(result.lineage_step(tenant@, *cat, *recs, old(counter).examined as int)),
        r is Ok ==> result.lineage_step(tenant@, *cat, *recs, old(counter).examined as int) == Ok::<
            int,
            PrivacyScopeError,
        >(final(counter).examined as int),
        phase_outcome(r, old(counter).examined as int, final(counter).examined as int,
            3 + result.components@.len() as int, completeness_consistent(*cat, *recs, *result)),
{
    counter.charge()?;
    let job = match find_last(&recs.jobs, &result.job_id) {
        Some(i) => &recs.jobs[i],
        None => return Err(PrivacyScopeError::AssociationStateInvalid),
    };
    counter.charge()?;
    let profile = match find_last(&cat.profiles, &result.profile_version_id) {
        Some(i) => &cat.profiles[i],
        None => return Err(PrivacyScopeError::AssociationStateInvalid),
    };
    counter.charge()?;
    let rule_set = match find_last(&cat.rule_sets, &profile.rule_set_version_id) {
        Some(i) => &cat.rule_sets[i],
        None => return Err(PrivacyScopeError::AssociationStateInvalid),
    };
    let job_version = match job.party_resource_version {
        Some(v) => v,
        None => 0,
    };
    if !(result.party_id == job.party_id)
        || result.party_resource_version != job_version
        || !(result.profile_version_id == job.profile_version_id)
        || !(profile.rule_set_version_id == job.rule_set_version_id)
        || job.status != EvaluationJobStatus::Completed
        || result.computed_at > job.updated_at
    {
        return Err(PrivacyScopeError::AssociationStateInvalid);
    }
    let ghost start = old(counter).examined as int;
    proof {
        assert(result.components@.take(0) =~= Seq::<ComponentResultFacts>::empty());
        assert(completeness_header_consistent(*cat, *recs, *result));
        assert(result.lineage_step(tenant@, *cat, *recs, start) == component_fold(result.components@, *recs, *result,
            *job, *profile, *rule_set, start + 3));
    }
    let mut k: usize = 0;
    while k < result.components.len()
        invariant
            k <= result.components@.len(),
            start == old(counter).examined,
            counter.examined == start + 3 + k,
            counter.examined <= MAX_PRIVACY_ASSOCIATION_RECORDS_REHYDRATED,
            last_with_key(recs.jobs@, result.job_id@) == Some(*job),
            last_with_key(cat.profiles@, result.profile_version_id@) == Some(*profile),
            last_with_key(cat.rule_sets@, profile.rule_set_version_id@) == Some(*rule_set),
            forall|j: int| 0 <= j < k ==> #[trigger] component_consistent(*recs, *result, *job, *profile, *rule_set,
                result.components@[j]),
            component_fold(result.components@.take(k as int), *recs, *result, *job, *profile, *rule_set, start + 3)
                == Ok::<int, PrivacyScopeError>(counter.examined as int),
            result.lineage_step(tenant@, *cat, *recs, start) == component_fold(result.components@, *recs, *result,
                *job, *profile, *rule_set, start + 3),
        decreases result.components@.len() - k,
    {
        let ghost before = counter.examined as int;
        proof {
            lemma_component_fold_step(result.components@, k as int, *recs, *result, *job, *profile, *rule_set, start + 3);
        }
        let r = check_component(recs, result, job, profile, rule_set, &result.components[k], counter);
        if r.is_err() {
            proof {
                lemma_component_fold_stops(result.components@, k + 1, *recs, *result, *job, *profile, *rule_set,
                    start + 3);
            }
            assert(r == Err::<(), PrivacyScopeError>(PrivacyScopeError::AssociationStateInvalid)
                ==> !component_consistent(*recs, *result, *job, *profile, *rule_set, result.components@[k as int]));
            assert(r == Err::<(), PrivacyScopeError>(PrivacyScopeError::ScanLimitExceeded)
                ==> before + 1 > MAX_PRIVACY_ASSOCIATION_RECORDS_REHYDRATED);
            return r;
        }
        k = k + 1;
    }
    proof {
        assert(result.components@.take(k as int) =~= result.components@);
    }
    Ok(())
}



fn check_inputs(tenant: &String, cat: &DefinitionCatalog, recs: &DirectRecords, counter: &mut AssociationCounter)
    -> (r: Result<(), PrivacyScopeError>)
    requires
        old(counter).examined <= MAX_PRIVACY_ASSOCIATION_RECORDS_REHYDRATED,
    ensures
        r == lineage_unit(lineage_fold(recs.inputs@, tenant@, *cat, *recs, old(counter).examined as int)),
        r is Ok ==> lineage_fold(recs.inputs@, tenant@, *cat, *recs, old(counter).examined as int) == Ok::<int, PrivacyScopeError>(final(counter).examined as int),
        phase_outcome(
            r,
            old(counter).examined as int,
            final(counter).examined as int,
            1 * recs.inputs@.len() as int,
            inputs_consistent(*recs),
        ),
{
    let ghost start = counter.examined as int;
    proof {
        lemma_lineage_fold_empty(recs.inputs@, tenant@, *cat, *recs, start);
    }
    let mut i: usize = 0;
    while i < recs.inputs.len()
        invariant
            lineage_fold(recs.inputs@.take(i as int), tenant@, *cat, *recs, start) == Ok::<int, PrivacyScopeError>(
                counter.examined as int),
            i <= recs.inputs@.len(),
            start == old(counter).examined,
            counter.examined == start + 1 * i,
            counter.examined <= MAX_PRIVACY_ASSOCIATION_RECORDS_REHYDRATED,
            forall|j: int| 0 <= j < i ==> #[trigger] input_consistent(*recs, recs.inputs@[j]),
        decreases recs.inputs@.len() - i,
    {
        let ghost before = counter.examined as int;
        proof {
            lemma_lineage_fold_step(recs.inputs@, i as int, tenant@, *cat, *recs, start);
        }
        let r = check_input(tenant, cat, recs, &recs.inputs[i], counter);
        if r.is_err() {
            proof {
                lemma_lineage_fold_stops(recs.inputs@, i + 1, tenant@, *cat, *recs, start);
            }
            assert(r == Err::<(), PrivacyScopeError>(PrivacyScopeError::AssociationStateInvalid)
                ==> !input_consistent(*recs, recs.inputs@[i as int]));
            assert(r == Err::<(), PrivacyScopeError>(PrivacyScopeError::ScanLimitExceeded)
                ==> before + 1 > MAX_PRIVACY_ASSOCIATION_RECORDS_REHYDRATED);
            return r;
        }
        i = i + 1;
    }
    proof {
        assert(recs.inputs@.take(i as int) =~= recs.inputs@);
    }
    Ok(())
}

fn check_outcomes(tenant: &String, cat: &DefinitionCatalog, recs: &DirectRecords, counter: &mut AssociationCounter)
    -> (r: Result<(), PrivacyScopeError>)
    requires
        old(counter).examined <= MAX_PRIVACY_ASSOCIATION_RECORDS_REHYDRATED,
    ensures
        r == lineage_unit(lineage_fold(recs.outcomes@, tenant@, *cat, *recs, old(counter).examined as int)),
        r is Ok ==> lineage_fold(recs.outcomes@, tenant@, *cat, *recs, old(counter).examined as int) == Ok::<int, PrivacyScopeError>(final(counter).examined as int),
        phase_outcome(
            r,
            old(counter).examined as int,
            final(counter).examined as int,
            3 * recs.outcomes@.len() as int,
            outcomes_consistent(*cat, *recs),
        ),
{
    let ghost start = counter.examined as int;
    proof {
        lemma_lineage_fold_empty(recs.outcomes@, tenant@, *cat, *recs, start);
    }
    let mut i: usize = 0;
    while i < recs.outcomes.len()
        invariant
            lineage_fold(recs.outcomes@.take(i as int), tenant@, *cat, *recs, start) == Ok::<int, PrivacyScopeError>(
                counter.examined as int),
            i <= recs.outcomes@.len(),
            start == old(counter).examined,
            counter.examined == start + 3 * i,
            counter.examined <= MAX_PRIVACY_ASSOCIATION_RECORDS_REHYDRATED,
            forall|j: int| 0 <= j < i ==> #[trigger] outcome_consistent(*cat, *recs, recs.outcomes@[j]),
        decreases recs.outcomes@.len() - i,
    {
        let ghost before = counter.examined as int;
        proof {
            lemma_lineage_fold_step(recs.outcomes@, i as int, tenant@, *cat, *recs, start);
        }
        let r = check_outcome(tenant, cat, recs, &recs.outcomes[i], counter);
        if r.is_err() {
            proof {
                lemma_lineage_fold_stops(recs.outcomes@, i + 1, tenant@, *cat, *recs, start);
            }
            assert(r == Err::<(), PrivacyScopeError>(PrivacyScopeError::AssociationStateInvalid)
                ==> !outcome_consistent(*cat, *recs, recs.outcomes@[i as int]));
            assert(r == Err::<(), PrivacyScopeError>(PrivacyScopeError::ScanLimitExceeded)
                ==> before + 3 > MAX_PRIVACY_ASSOCIATION_RECORDS_REHYDRATED);
            return r;
        }
        i = i + 1;
    }
    proof {
        assert(recs.outcomes@.take(i as int) =~= recs.outcomes@);
    }
    Ok(())
}

fn check_observations(tenant: &String, cat: &DefinitionCatalog, recs: &DirectRecords, counter: &mut AssociationCounter)
    -> (r: Result<(), PrivacyScopeError>)
    requires
        old(counter).examined <= MAX_PRIVACY_ASSOCIATION_RECORDS_REHYDRATED,
    ensures
        r == lineage_unit(lineage_fold(recs.observations@, tenant@, *cat, *recs, old(counter).examined as int)),
        r is Ok ==> lineage_fold(recs.observations@, tenant@, *cat, *recs, old(counter).examined as int) == Ok::<int, PrivacyScopeError>(final(counter).examined as int),
        phase_outcome(
            r,
            old(counter).examined as int,
            final(counter).examined as int,
            1 * recs.observations@.len() as int,
            observations_consistent(tenant@, *recs),
        ),
{
    let ghost start = counter.examined as int;
    proof {
        lemma_lineage_fold_empty(recs.observations@, tenant@, *cat, *recs, start);
    }
    let mut i: usize = 0;
    while i < recs.observations.len()
        invariant
            lineage_fold(recs.observations@.take(i as int), tenant@, *cat, *recs, start) == Ok::<int, PrivacyScopeError>(
                counter.examined as int),
            i <= recs.observations@.len(),
            start == old(counter).examined,
            counter.examined == start + 1 * i,
            counter.examined <= MAX_PRIVACY_ASSOCIATION_RECORDS_REHYDRATED,
            forall|j: int| 0 <= j < i ==> #[trigger] observation_consistent(tenant@, *recs, recs.observations@[j]),
        decreases recs.observations@.len() - i,
    {
        let ghost before = counter.examined as int;
        proof {
            lemma_lineage_fold_step(recs.observations@, i as int, tenant@, *cat, *recs, start);
        }
        let r = check_observation(tenant, cat, recs, &recs.observations[i], counter);
        if r.is_err() {
            proof {
                lemma_lineage_fold_stops(recs.observations@, i + 1, tenant@, *cat, *recs, start);
            }
            assert(r == Err::<(), PrivacyScopeError>(PrivacyScopeError::AssociationStateInvalid)
                ==> !observation_consistent(tenant@, *recs, recs.observations@[i as int]));
            assert(r == Err::<(), PrivacyScopeError>(PrivacyScopeError::ScanLimitExceeded)
                ==> before + 1 > MAX_PRIVACY_ASSOCIATION_RECORDS_REHYDRATED);
            return r;
        }
        i = i + 1;
    }
    proof {
        assert(recs.observations@.take(i as int) =~= recs.observations@);
    }
    Ok(())
}

fn check_remediations(tenant: &String, cat: &DefinitionCatalog, recs: &DirectRecords, counter: &mut AssociationCounter)
    -> (r: Result<(), PrivacyScopeError>)
    requires
        old(counter).examined <= MAX_PRIVACY_ASSOCIATION_RECORDS_REHYDRATED,
    ensures
        r == lineage_unit(lineage_fold(recs.remediation_attempts@, tenant@, *cat, *recs, old(counter).examined as int)),
        r is Ok ==> lineage_fold(recs.remediation_attempts@, tenant@, *cat, *recs, old(counter).examined as int) == Ok::<int, PrivacyScopeError>(final(counter).examined as int),
        phase_outcome(
            r,
            old(counter).examined as int,
            final(counter).examined as int,
            2 * recs.remediation_attempts@.len() as int,
            remediations_consistent(tenant@, *recs),
        ),
{
    let ghost start = counter.examined as int;
    proof {
        lemma_lineage_fold_empty(recs.remediation_attempts@, tenant@, *cat, *recs, start);
    }
    let mut i: usize = 0;
    while i < recs.remediation_attempts.len()
        invariant
            lineage_fold(recs.remediation_attempts@.take(i as int), tenant@, *cat, *recs, start) == Ok::<int, PrivacyScopeError>(
                counter.examined as int),
            i <= recs.remediation_attempts@.len(),
            start == old(counter).examined,
            counter.examined == start + 2 * i,
            counter.examined <= MAX_PRIVACY_ASSOCIATION_RECORDS_REHYDRATED,
            forall|j: int| 0 <= j < i ==> #[trigger] remediation_consistent(tenant@, *recs, recs.remediation_attempts@[j]),
        decreases recs.remediation_attempts@.len() - i,
    {
        let ghost before = counter.examined as int;
        proof {
            lemma_lineage_fold_step(recs.remediation_attempts@, i as int, tenant@, *cat, *recs, start);
        }
        let r = check_remediation(tenant, cat, recs, &recs.remediation_attempts[i], counter);
        if r.is_err() {
            proof {
                lemma_lineage_fold_stops(recs.remediation_attempts@, i + 1, tenant@, *cat, *recs, start);
            }
            assert(r == Err::<(), PrivacyScopeError>(PrivacyScopeError::AssociationStateInvalid)
                ==> !remediation_consistent(tenant@, *recs, recs.remediation_attempts@[i as int]));
            assert(r == Err::<(), PrivacyScopeError>(PrivacyScopeError::ScanLimitExceeded)
                ==> before + 2 > MAX_PRIVACY_ASSOCIATION_RECORDS_REHYDRATED);
            return r;
        }
        i = i + 1;
    }
    proof {
        assert(recs.remediation_attempts@.take(i as int) =~= recs.remediation_attempts@);
    }
    Ok(())
}

proof fn lemma_finding_charges_prefix(s: Seq<FindingFacts>, i: int)
    requires
        0 <= i <= s.len(),
    ensures
        finding_charges(s.take(i)) <= finding_charges(s),
        i < s.len() ==> finding_charges(s.take(i + 1)) == finding_charges(s.take(i)) + finding_charge(s[i]),
    decreases s.len(),
{
    if i < s.len() {
        assert(s.take(i + 1).drop_last() =~= s.take(i));
        assert(s.take(i + 1).last() == s[i]);
        assert(s.drop_last().take(i) =~= s.take(i));
        lemma_finding_charges_prefix(s.drop_last(), i);
    } else {
        assert(s.take(i) =~= s);
    }
}

proof fn lemma_completeness_charges_prefix(s: Seq<CompletenessFacts>, i: int)
    requires
        0 <= i <= s.len(),
    ensures
        completeness_charges(s.take(i)) <= completeness_charges(s),
        i < s.len() ==> completeness_charges(s.take(i + 1)) == completeness_charges(s.take(i)) + 3
            + s[i].components@.len(),
    decreases s.len(),
{
    if i < s.len() {
        assert(s.take(i + 1).drop_last() =~= s.take(i));
        assert(s.take(i + 1).last() == s[i]);
        assert(s.drop_last().take(i) =~= s.take(i));
        lemma_completeness_charges_prefix(s.drop_last(), i);
    } else {
        assert(s.take(i) =~= s);
    }
}

fn check_findings(tenant: &String, cat: &DefinitionCatalog, recs: &DirectRecords, counter: &mut AssociationCounter)
    -> (r: Result<(), PrivacyScopeError>)
    requires
        old(counter).examined <= MAX_PRIVACY_ASSOCIATION_RECORDS_REHYDRATED,
    ensures
        r == lineage_unit(lineage_fold(recs.findings@, tenant@, *cat, *recs, old(counter).examined as int)),
        r is Ok ==> lineage_fold(recs.findings@, tenant@, *cat, *recs, old(counter).examined as int) == Ok::<int, PrivacyScopeError>(final(counter).examined as int),
        phase_outcome(
            r,
            old(counter).examined as int,
            final(counter).examined as int,
            finding_charges(recs.findings@),
            findings_consistent(tenant@, *cat, *recs),
        ),
{
    let ghost start = counter.examined as int;
    proof {
        lemma_lineage_fold_empty(recs.findings@, tenant@, *cat, *recs, start);
    }
    let mut i: usize = 0;
    while i < recs.findings.len()
        invariant
            lineage_fold(recs.findings@.take(i as int), tenant@, *cat, *recs, start) == Ok::<int, PrivacyScopeError>(
                counter.examined as int),
            i <= recs.findings@.len(),
            start == old(counter).examined,
            counter.examined == start + finding_charges(recs.findings@.take(i as int)),
            counter.examined <= MAX_PRIVACY_ASSOCIATION_RECORDS_REHYDRATED,
            forall|j: int| 0 <= j < i ==> #[trigger] finding_consistent(tenant@, *cat, *recs, recs.findings@[j]),
        decreases recs.findings@.len() - i,
    {
        proof {
            lemma_finding_charges_prefix(recs.findings@, i as int);
            lemma_finding_charges_prefix(recs.findings@, i + 1);
        }
        let ghost before = counter.examined as int;
        proof {
            lemma_lineage_fold_step(recs.findings@, i as int, tenant@, *cat, *recs, start);
        }
        let r = check_finding(tenant, cat, recs, &recs.findings[i], counter);
        if r.is_err() {
            proof {
                lemma_lineage_fold_stops(recs.findings@, i + 1, tenant@, *cat, *recs, start);
            }
            assert(r == Err::<(), PrivacyScopeError>(PrivacyScopeError::AssociationStateInvalid)
                ==> !finding_consistent(tenant@, *cat, *recs, recs.findings@[i as int]));
            return r;
        }
        i = i + 1;
    }
    proof {
        lemma_finding_charges_prefix(recs.findings@, i as int);
        assert(recs.findings@.take(i as int) =~= recs.findings@);
    }
    proof {
        assert(recs.findings@.take(i as int) =~= recs.findings@);
    }
    Ok(())
}

fn check_completeness_results(tenant: &String, cat: &DefinitionCatalog, recs: &DirectRecords, counter: &mut AssociationCounter)
    -> (r: Result<(), PrivacyScopeError>)
    requires
        old(counter).examined <= MAX_PRIVACY_ASSOCIATION_RECORDS_REHYDRATED,
    ensures
        r == lineage_unit(lineage_fold(recs.completeness_results@, tenant@, *cat, *recs, old(counter).examined as int)),
        r is Ok ==> lineage_fold(recs.completeness_results@, tenant@, *cat, *recs, old(counter).examined as int) == Ok::<int, PrivacyScopeError>(final(counter).examined as int),
        phase_outcome(
            r,
            old(counter).examined as int,
            final(counter).examined as int,
            completeness_charges(recs.completeness_results@),
            completeness_results_consistent(*cat, *recs),
        ),
{
    let ghost start = counter.examined as int;
    proof {
        lemma_lineage_fold_empty(recs.completeness_results@, tenant@, *cat, *recs, start);
    }
    let mut i: usize = 0;
    while i < recs.completeness_results.len()
        invariant
            lineage_fold(recs.completeness_results@.take(i as int), tenant@, *cat, *recs, start) == Ok::<int, PrivacyScopeError>(
                counter.examined as int),
            i <= recs.completeness_results@.len(),
            start == old(counter).examined,
            counter.examined == start + completeness_charges(recs.completeness_results@.take(i as int)),
            counter.examined <= MAX_PRIVACY_ASSOCIATION_RECORDS_REHYDRATED,
            forall|j: int| 0 <= j < i ==> #[trigger] completeness_consistent(*cat, *recs, recs.completeness_results@[j]),
        decreases recs.completeness_results@.len() - i,
    {
        proof {
            lemma_completeness_charges_prefix(recs.completeness_results@, i as int);
            lemma_completeness_charges_prefix(recs.completeness_results@, i + 1);
        }
        proof {
            lemma_lineage_fold_step(recs.completeness_results@, i as int, tenant@, *cat, *recs, start);
        }
        let r = check_completeness(tenant, cat, recs, &recs.completeness_results[i], counter);
        if r.is_err() {
            proof {
                lemma_lineage_fold_stops(recs.completeness_results@, i + 1, tenant@, *cat, *recs, start);
            }
            assert(r == Err::<(), PrivacyScopeError>(PrivacyScopeError::AssociationStateInvalid)
                ==> !completeness_consistent(*cat, *recs, recs.completeness_results@[i as int]));
            return r;
        }
        i = i + 1;
    }
    proof {
        assert(recs.completeness_results@.take(i as int) =~= recs.completeness_results@);
    }
    proof {
        assert(recs.completeness_results@.take(i as int) =~= recs.completeness_results@);
    }
    Ok(())
}

fn check_completed_jobs(recs: &DirectRecords) -> (r: Result<(), PrivacyScopeError>)
    ensures
        r is Ok <==> completed_jobs_have_one_result(*recs),
        r is Err ==> r == Err::<(), PrivacyScopeError>(PrivacyScopeError::AssociationStateInvalid),
{
    let mut i: usize = 0;
    while i < recs.jobs.len()
        invariant
            i <= recs.jobs@.len(),
            forall|j: int| 0 <= j < i && (#[trigger] recs.jobs@[j]).status == EvaluationJobStatus::Completed
                ==> results_of_job(recs.completeness_results@, recs.jobs@[j].job_id@) == 1,
        decreases recs.jobs@.len() - i,
    {
        if recs.jobs[i].status == EvaluationJobStatus::Completed {
            let count = count_job_results(&recs.completeness_results, &recs.jobs[i].job_id);
            if count != 1 {
                return Err(PrivacyScopeError::AssociationStateInvalid);
            }
        }
        i = i + 1;
    }
    Ok(())
}


/// Validates the complete lineage of one tenant's Data Quality records.
///
/// The result is `Ok` exactly when the lineage is consistent and the lookups
/// it takes stay within the frozen association bound. A consistent lineage
/// over the bound fails with `ScanLimitExceeded`; an inconsistent lineage
/// within the bound fails with `AssociationStateInvalid`; an inconsistent
/// lineage over the bound fails with whichever is met first in the order of
/// [`association_verdict`], which the result always equals.
pub fn validate_associations(tenant_id: &String, definitions: &DefinitionCatalog, records: &DirectRecords)
    -> (r: Result<(), PrivacyScopeError>)
    ensures
        r == association_verdict(tenant_id@, *definitions, *records),
        r is Ok <==> associations_valid(tenant_id@, *definitions, *records)
            && association_charges(*records) <= MAX_PRIVACY_ASSOCIATION_RECORDS_REHYDRATED,
        associations_valid(tenant_id@, *definitions, *records)
            && association_charges(*records) > MAX_PRIVACY_ASSOCIATION_RECORDS_REHYDRATED
            ==> r == Err::<(), PrivacyScopeError>(PrivacyScopeError::ScanLimitExceeded),
        !associations_valid(tenant_id@, *definitions, *records)
            && association_charges(*records) <= MAX_PRIVACY_ASSOCIATION_RECORDS_REHYDRATED
            ==> r == Err::<(), PrivacyScopeError>(PrivacyScopeError::AssociationStateInvalid),
        r is Err ==> (r == Err::<(), PrivacyScopeError>(PrivacyScopeError::ScanLimitExceeded)
            || r == Err::<(), PrivacyScopeError>(PrivacyScopeError::AssociationStateInvalid)),
{
    proof {
        lemma_finding_charges_prefix(records.findings@, 0);
        lemma_completeness_charges_prefix(records.completeness_results@, 0);
        assert(records.findings@.take(0) =~= Seq::<FindingFacts>::empty());
        assert(records.completeness_results@.take(0) =~= Seq::<CompletenessFacts>::empty());
    }
    let mut counter = AssociationCounter::new();
    let r = check_jobs(tenant_id, definitions, records, &mut counter);
    if r.is_err() {
        return r;
    }
    let r = check_inputs(tenant_id, definitions, records, &mut counter);
    if r.is_err() {
        return r;
    }
    let r = check_outcomes(tenant_id, definitions, records, &mut counter);
    if r.is_err() {
        return r;
    }
    let r = check_observations(tenant_id, definitions, records, &mut counter);
    if r.is_err() {
        return r;
    }
    let r = check_findings(tenant_id, definitions, records, &mut counter);
    if r.is_err() {
        return r;
    }
    let r = check_completeness_results(tenant_id, definitions, records, &mut counter);
    if r.is_err() {
        return r;
    }
    let r = check_remediations(tenant_id, definitions, records, &mut counter);
    if r.is_err() {
        return r;
    }
    let done = check_completed_jobs(records);
    if done.is_err() {
        return Err(PrivacyScopeError::AssociationStateInvalid);
    }
    Ok(())
}

} // verus!
