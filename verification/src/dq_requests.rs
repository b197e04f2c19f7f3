//! Creation of Party evaluation jobs and the commit of completed Party
//! display-name remediations: both create a record that must not exist yet,
//! and both are admitted only against the exact evidence they were built on.
use vstd::prelude::*;
use crate::capability::CapabilityDefinition;
use crate::dq_capability::{
    DataQualityPlanError, REQUEST_PARTY_EVALUATION_CAPABILITY, REQUEST_PARTY_EVALUATION_RESPONSE_SCHEMA,
    PARTY_EVALUATION_REQUESTED_EVENT_TYPE, PARTY_EVALUATION_REQUESTED_EVENT_SCHEMA, REMEDIATE_PARTY_DISPLAY_NAME_CAPABILITY,
    REMEDIATE_PARTY_DISPLAY_NAME_RESPONSE_SCHEMA, PARTY_REMEDIATION_COMPLETED_EVENT_TYPE,
    PARTY_REMEDIATION_COMPLETED_EVENT_SCHEMA,
};
use crate::dq_model::MODULE_ID;
use crate::dq_publication::{PublicationPlan, is_publication};
use crate::text::str_eq;

verus! {

/// The references of an evaluation request, as read from the wire.
pub struct EvaluationRequestRefs {
    pub job_id: Option<String>,
    pub party_id: Option<String>,
    pub rule_set_version_id: Option<String>,
    pub profile_version_id: Option<String>,
}

/// The records an evaluation request names.
pub struct EvaluationReferenceScope {
    pub job_id: String,
    pub party_id: String,
    pub rule_set_version_id: String,
    pub profile_version_id: String,
}

/// Whether an evaluation request names all four records.
pub open spec fn refs_complete(r: EvaluationRequestRefs) -> bool {
    r.job_id is Some && r.party_id is Some && r.rule_set_version_id is Some && r.profile_version_id is Some
}

/// The records an evaluation request names; every reference is required.
pub fn evaluation_reference_scope_from_request(refs: &EvaluationRequestRefs)
    -> (r: Result<EvaluationReferenceScope, DataQualityPlanError>)
    ensures
        !refs_complete(*refs) ==> r == Err::<EvaluationReferenceScope, DataQualityPlanError>(
            DataQualityPlanError::MissingReference),
        refs_complete(*refs) ==> match r {
            Ok(s) => s.job_id@ == refs.job_id->0@ && s.party_id@ == refs.party_id->0@
                && s.rule_set_version_id@ == refs.rule_set_version_id->0@
                && s.profile_version_id@ == refs.profile_version_id->0@,
            Err(_) => false,
        },
{
    let job_id = match &refs.job_id { None => return Err(DataQualityPlanError::MissingReference), Some(v) => v.clone() };
    let party_id = match &refs.party_id { None => return Err(DataQualityPlanError::MissingReference), Some(v) => v.clone() };
    let rule_set_version_id = match &refs.rule_set_version_id {
        None => return Err(DataQualityPlanError::MissingReference),
        Some(v) => v.clone(),
    };
    let profile_version_id = match &refs.profile_version_id {
        None => return Err(DataQualityPlanError::MissingReference),
        Some(v) => v.clone(),
    };
    Ok(EvaluationReferenceScope { job_id, party_id, rule_set_version_id, profile_version_id })
}

/// Whether `d`, invoked under `requested`, is the capability `id` of this module.
pub open spec fn definition_for(d: CapabilityDefinition, requested: Seq<char>, id: Seq<char>) -> bool {
    &&& d.capability_id@ == id
    &&& d.owner_module_id@ == MODULE_ID@
    &&& d.capability_id@ == requested
}

/// Plans the creation of evaluation jobs against one validated rule set and
/// the completeness profile bound to it.
pub struct DataQualityEvaluationJobCapabilityPlanner {
    pub rule_set_version_id: String,
    pub profile_version_id: String,
}

/// The admission of an evaluation request, in the order the planner checks.
pub open spec fn evaluation_outcome(p: DataQualityEvaluationJobCapabilityPlanner, definition_matches: bool,
    current_exists: bool, refs: EvaluationRequestRefs) -> Result<Seq<char>, DataQualityPlanError>
{
    if !definition_matches || current_exists {
        Err(DataQualityPlanError::EvaluationPlanInvalid)
    } else if !refs_complete(refs) {
        Err(DataQualityPlanError::MissingReference)
    } else if refs.rule_set_version_id->0@ != p.rule_set_version_id@ || refs.profile_version_id->0@ != p.profile_version_id@ {
        Err(DataQualityPlanError::EvaluationPlanInvalid)
    } else {
        Ok(refs.job_id->0@)
    }
}

impl DataQualityEvaluationJobCapabilityPlanner {
    /// A planner for a rule set and a profile; the profile must be bound to
    /// that rule set.
    pub fn new(rule_set_version_id: String, profile_version_id: String, profile_rule_set_version_id: &String)
        -> (r: Result<Self, DataQualityPlanError>)
        ensures
            profile_rule_set_version_id@ == rule_set_version_id@ ==> (r matches Ok(p)
                && p.rule_set_version_id@ == rule_set_version_id@ && p.profile_version_id@ == profile_version_id@),
            profile_rule_set_version_id@ != rule_set_version_id@ ==> r is Err
                && r->Err_0 == DataQualityPlanError::EvaluationPlanInvalid,
    {
        if !str_eq(profile_rule_set_version_id.as_str(), rule_set_version_id.as_str()) {
            return Err(DataQualityPlanError::EvaluationPlanInvalid);
        }
        Ok(DataQualityEvaluationJobCapabilityPlanner { rule_set_version_id, profile_version_id })
    }

    fn check_request(&self, definition: &CapabilityDefinition, requested: &str, current_exists: bool,
        refs: &EvaluationRequestRefs) -> (r: Result<String, DataQualityPlanError>)
        ensures
            match (r, evaluation_outcome(*self, definition_for(*definition, requested@,
                REQUEST_PARTY_EVALUATION_CAPABILITY@), current_exists, *refs)) {
                (Ok(id), Ok(j)) => id@ == j,
                (Err(e), Err(f)) => e == f,
                _ => false,
            },
    {
        if !str_eq(definition.capability_id.as_str(), REQUEST_PARTY_EVALUATION_CAPABILITY)
            || !str_eq(definition.owner_module_id.as_str(), MODULE_ID)
            || !str_eq(definition.capability_id.as_str(), requested) || current_exists
        {
            return Err(DataQualityPlanError::EvaluationPlanInvalid);
        }
        let scope = evaluation_reference_scope_from_request(refs)?;
        if !str_eq(scope.rule_set_version_id.as_str(), self.rule_set_version_id.as_str())
            || !str_eq(scope.profile_version_id.as_str(), self.profile_version_id.as_str())
        {
            return Err(DataQualityPlanError::EvaluationPlanInvalid);
        }
        Ok(scope.job_id)
    }

    /// The job an evaluation request creates: the one it names, provided it
    /// names this planner's rule set and profile.
    pub fn target(&self, definition: &CapabilityDefinition, requested: &str, refs: &EvaluationRequestRefs)
        -> (r: Result<String, DataQualityPlanError>)
        ensures
            match (r, evaluation_outcome(*self, definition_for(*definition, requested@,
                REQUEST_PARTY_EVALUATION_CAPABILITY@), false, *refs)) {
                (Ok(id), Ok(j)) => id@ == j,
                (Err(e), Err(f)) => e == f,
                _ => false,
            },
    {
        self.check_request(definition, requested, false, refs)
    }

    /// Plans the creation of the job: no job of that identity may exist yet.
    pub fn plan(&self, definition: &CapabilityDefinition, requested: &str, current_exists: bool,
        refs: &EvaluationRequestRefs) -> (r: Result<PublicationPlan, DataQualityPlanError>)
        ensures
            match (r, evaluation_outcome(*self, definition_for(*definition, requested@,
                REQUEST_PARTY_EVALUATION_CAPABILITY@), current_exists, *refs)) {
                (Ok(p), Ok(_)) => is_publication(p, PARTY_EVALUATION_REQUESTED_EVENT_TYPE,
                    PARTY_EVALUATION_REQUESTED_EVENT_SCHEMA, REQUEST_PARTY_EVALUATION_RESPONSE_SCHEMA),
                (Err(e), Err(f)) => e == f,
                _ => false,
            },
    {
        self.check_request(definition, requested, current_exists, refs)?;
        Ok(PublicationPlan {
            aggregate_version: 1,
            event_type: PARTY_EVALUATION_REQUESTED_EVENT_TYPE,
            event_schema: PARTY_EVALUATION_REQUESTED_EVENT_SCHEMA,
            response_schema: REQUEST_PARTY_EVALUATION_RESPONSE_SCHEMA,
        })
    }
}

/// The evidence of a completed Party display-name remediation attempt.
pub struct RemediationAttemptFacts {
    pub attempt_id: String,
    pub finding_id: String,
    pub observation_id: String,
    pub party_id: String,
    pub expected_finding_version: i64,
    pub expected_party_version: i64,
    pub requested_display_name: String,
    pub updated_party_version: i64,
}

/// The Party as the remediation left it, as read back.
pub struct UpdatedPartyFacts {
    pub party_ref: Option<String>,
    pub version: Option<i64>,
    pub display_name: String,
}

/// The remediation request, as plain values.
pub struct RemediationCommand {
    pub finding_id: Option<String>,
    pub expected_finding_version: i64,
    pub expected_current_observation_id: Option<String>,
    pub expected_party_resource_version: i64,
    pub display_name: String,
}

/// Whether the Party read back is the one the attempt updated, at the
/// version and with the name the attempt recorded.
pub open spec fn party_matches_attempt(a: RemediationAttemptFacts, p: UpdatedPartyFacts) -> bool {
    &&& p.party_ref matches Some(id) && id@ == a.party_id@
    &&& p.version == Some(a.updated_party_version)
    &&& p.display_name@ == a.requested_display_name@
}

/// Whether the request is exactly the one the attempt completed.
pub open spec fn command_matches_attempt(a: RemediationAttemptFacts, c: RemediationCommand) -> bool {
    &&& c.expected_finding_version == a.expected_finding_version
    &&& c.expected_party_resource_version == a.expected_party_version
    &&& c.display_name@ == a.requested_display_name@
    &&& c.finding_id matches Some(f) && f@ == a.finding_id@
    &&& c.expected_current_observation_id matches Some(o) && o@ == a.observation_id@
}

/// Plans the commit of one completed remediation attempt.
pub struct DataQualityRemediationCompletionPlanner {
    pub attempt: RemediationAttemptFacts,
    pub updated_party: UpdatedPartyFacts,
}

impl DataQualityRemediationCompletionPlanner {
    /// A planner for an attempt, given the Party it updated; a Party that is
    /// not the attempt's, at its recorded version and name, is refused.
    pub fn new(attempt: RemediationAttemptFacts, updated_party: UpdatedPartyFacts) -> (r: Result<Self, DataQualityPlanError>)
        ensures
            party_matches_attempt(attempt, updated_party) ==> (r matches Ok(p) && p.attempt == attempt
                && p.updated_party == updated_party),
            !party_matches_attempt(attempt, updated_party) ==> r is Err
                && r->Err_0 == DataQualityPlanError::RemediationPlanInvalid,
    {
        let matches = match &updated_party.party_ref {
            None => false,
            Some(id) => match updated_party.version {
                None => false,
                Some(v) => str_eq(id.as_str(), attempt.party_id.as_str()) && v == attempt.updated_party_version
                    && str_eq(updated_party.display_name.as_str(), attempt.requested_display_name.as_str()),
            },
        };
        if !matches {
            return Err(DataQualityPlanError::RemediationPlanInvalid);
        }
        Ok(DataQualityRemediationCompletionPlanner { attempt, updated_party })
    }

    /// Whether `d` is the remediation capability of this module, requested
    /// under that coordinate.
    pub open spec fn definition_matches(d: CapabilityDefinition, requested: Seq<char>) -> bool {
        &&& d.capability_id@ == REMEDIATE_PARTY_DISPLAY_NAME_CAPABILITY@
        &&& d.owner_module_id@ == MODULE_ID@
        &&& requested == REMEDIATE_PARTY_DISPLAY_NAME_CAPABILITY@
    }

    /// The attempt record a commit creates.
    pub fn target(&self, definition: &CapabilityDefinition, requested: &str) -> (r: Result<String, DataQualityPlanError>)
        ensures
            Self::definition_matches(*definition, requested@) ==> (r matches Ok(id) && id@ == self.attempt.attempt_id@),
            !Self::definition_matches(*definition, requested@) ==> r is Err
                && r->Err_0 == DataQualityPlanError::RemediationPlanInvalid,
    {
        if !str_eq(definition.capability_id.as_str(), REMEDIATE_PARTY_DISPLAY_NAME_CAPABILITY)
            || !str_eq(definition.owner_module_id.as_str(), MODULE_ID)
            || !str_eq(requested, REMEDIATE_PARTY_DISPLAY_NAME_CAPABILITY)
        {
            return Err(DataQualityPlanError::RemediationPlanInvalid);
        }
        Ok(self.attempt.attempt_id.clone())
    }

    /// Plans the commit: the definition must match, no attempt record may
    /// exist yet, and the request must be exactly the completed attempt's.
    pub fn plan(&self, definition: &CapabilityDefinition, requested: &str, current_exists: bool,
        command: &RemediationCommand) -> (r: Result<PublicationPlan, DataQualityPlanError>)
        ensures
            Self::definition_matches(*definition, requested@) && !current_exists
                && command_matches_attempt(self.attempt, *command) ==> (r matches Ok(p) && is_publication(p,
                    PARTY_REMEDIATION_COMPLETED_EVENT_TYPE, PARTY_REMEDIATION_COMPLETED_EVENT_SCHEMA,
                    REMEDIATE_PARTY_DISPLAY_NAME_RESPONSE_SCHEMA)),
            !(Self::definition_matches(*definition, requested@) && !current_exists
                && command_matches_attempt(self.attempt, *command)) ==> r is Err
                && r->Err_0 == DataQualityPlanError::RemediationPlanInvalid,
    {
        self.target(definition, requested)?;
        if current_exists {
            return Err(DataQualityPlanError::RemediationPlanInvalid);
        }
        let a = &self.attempt;
        let finding_ok = match &command.finding_id { None => false, Some(f) => str_eq(f.as_str(), a.finding_id.as_str()) };
        let observation_ok = match &command.expected_current_observation_id {
            None => false,
            Some(o) => str_eq(o.as_str(), a.observation_id.as_str()),
        };
        if command.expected_finding_version != a.expected_finding_version
            || command.expected_party_resource_version != a.expected_party_version
            || !str_eq(command.display_name.as_str(), a.requested_display_name.as_str()) || !finding_ok || !observation_ok
        {
            return Err(DataQualityPlanError::RemediationPlanInvalid);
        }
        Ok(PublicationPlan {
            aggregate_version: 1,
            event_type: PARTY_REMEDIATION_COMPLETED_EVENT_TYPE,
            event_schema: PARTY_REMEDIATION_COMPLETED_EVENT_SCHEMA,
            response_schema: REMEDIATE_PARTY_DISPLAY_NAME_RESPONSE_SCHEMA,
        })
    }
}


/// An evaluation job is only created once, under the job identity the
/// request names, for a request that names its Party and exactly the rule
/// set and profile the planner was built for; a request for an existing job
/// is refused.
pub proof fn evaluations_create_a_new_job_against_the_planned_definitions(p: DataQualityEvaluationJobCapabilityPlanner,
    definition_matches: bool, current_exists: bool, refs: EvaluationRequestRefs)
    ensures
        evaluation_outcome(p, definition_matches, current_exists, refs) matches Ok(job) ==> (definition_matches
            && !current_exists && refs.job_id is Some && job == refs.job_id->0@ && refs.party_id is Some
            && refs.rule_set_version_id is Some && refs.rule_set_version_id->0@ == p.rule_set_version_id@
            && refs.profile_version_id is Some && refs.profile_version_id->0@ == p.profile_version_id@),
        current_exists ==> evaluation_outcome(p, definition_matches, current_exists, refs) == Err::<
            Seq<char>,
            DataQualityPlanError,
        >(DataQualityPlanError::EvaluationPlanInvalid),
{
}

} // verus!
