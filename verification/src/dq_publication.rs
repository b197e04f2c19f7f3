//! Publication of immutable Data Quality definitions: Party rule-set
//! versions and the completeness-profile versions bound to them. A
//! publication creates a record that must not exist yet, at version one.
use vstd::prelude::*;
use crate::capability::CapabilityDefinition;
use crate::dq_capability::{
    DataQualityPlanError, PUBLISH_PARTY_RULE_SET_CAPABILITY, PUBLISH_PARTY_RULE_SET_RESPONSE_SCHEMA,
    PARTY_RULE_SET_PUBLISHED_EVENT_TYPE, PARTY_RULE_SET_PUBLISHED_EVENT_SCHEMA,
    PUBLISH_PARTY_COMPLETENESS_PROFILE_CAPABILITY, PUBLISH_PARTY_COMPLETENESS_PROFILE_RESPONSE_SCHEMA,
    PARTY_COMPLETENESS_PROFILE_PUBLISHED_EVENT_TYPE, PARTY_COMPLETENESS_PROFILE_PUBLISHED_EVENT_SCHEMA,
};
use crate::dq_model::{MODULE_ID, QualitySeverity, severity_from_wire};
use crate::text::str_eq;

verus! {

/// Wire number of the first (and only) evaluator and completeness semantics.
pub const SEMANTIC_VERSION_V1: i32 = 1;

/// What a publication writes: a new record at version one, with no
/// predecessor, and the event and response it emits.
pub struct PublicationPlan {
    pub aggregate_version: i64,
    pub event_type: &'static str,
    pub event_schema: &'static str,
    pub response_schema: &'static str,
}

/// `p` publishes a first version with the given event and response.
pub open spec fn is_publication(p: PublicationPlan, event_type: &'static str, event_schema: &'static str,
    response_schema: &'static str) -> bool
{
    &&& p.aggregate_version == 1
    &&& p.event_type == event_type
    &&& p.event_schema == event_schema
    &&& p.response_schema == response_schema
}

/// Whether `d`, invoked under `requested`, is the capability `id` of this module.
pub open spec fn is_publication_definition(d: CapabilityDefinition, requested: Seq<char>, id: Seq<char>) -> bool {
    &&& d.capability_id@ == id
    &&& d.owner_module_id@ == MODULE_ID@
    &&& d.capability_id@ == requested
}

fn definition_matches(definition: &CapabilityDefinition, requested: &str, id: &str) -> (r: bool)
    ensures
        r == is_publication_definition(*definition, requested@, id@),
{
    str_eq(definition.capability_id.as_str(), id) && str_eq(definition.owner_module_id.as_str(), MODULE_ID)
        && str_eq(definition.capability_id.as_str(), requested)
}

/// A rule of a rule-set definition, as read from the wire: its severity
/// number and whether it names an evaluator.
pub struct QualityRuleHeader {
    pub severity: i32,
    pub has_evaluator: bool,
}

/// Reads the severity of a wire rule and requires its evaluator; the
/// unspecified severity, an unknown one, or a missing evaluator is refused.
pub fn quality_rule_severity(rule: &QualityRuleHeader) -> (r: Result<QualitySeverity, DataQualityPlanError>)
    ensures
        match severity_from_wire(rule.severity) {
            None => r == Err::<QualitySeverity, DataQualityPlanError>(DataQualityPlanError::InvalidSeverity),
            Some(s) => if rule.has_evaluator {
                r == Ok::<QualitySeverity, DataQualityPlanError>(s)
            } else {
                r == Err::<QualitySeverity, DataQualityPlanError>(DataQualityPlanError::MissingEvaluator)
            },
        },
{
    let severity = match QualitySeverity::from_wire(rule.severity) {
        None => return Err(DataQualityPlanError::InvalidSeverity),
        Some(s) => s,
    };
    if !rule.has_evaluator {
        return Err(DataQualityPlanError::MissingEvaluator);
    }
    Ok(severity)
}

/// The check a wire rule-set definition passes before its rules are read:
/// it must be present and declare the first evaluator semantics.
pub open spec fn rule_set_definition_outcome(evaluator_semantic_version: Option<i32>) -> Result<(), DataQualityPlanError> {
    match evaluator_semantic_version {
        None => Err(DataQualityPlanError::MissingDefinition),
        Some(v) => if v == SEMANTIC_VERSION_V1 {
            Ok(())
        } else {
            Err(DataQualityPlanError::InvalidEvaluatorSemanticVersion)
        },
    }
}

/// Admits a wire rule-set definition, given by its evaluator semantic
/// version where one is present.
pub fn admit_rule_set_definition(evaluator_semantic_version: Option<i32>) -> (r: Result<(), DataQualityPlanError>)
    ensures
        r == rule_set_definition_outcome(evaluator_semantic_version),
{
    match evaluator_semantic_version {
        None => Err(DataQualityPlanError::MissingDefinition),
        Some(v) => if v == SEMANTIC_VERSION_V1 {
            Ok(())
        } else {
            Err(DataQualityPlanError::InvalidEvaluatorSemanticVersion)
        },
    }
}

/// Plans the publication of immutable Party rule-set versions.
#[derive(Debug, Default, Clone, Copy)]
pub struct DataQualityRuleSetCapabilityPlanner;

impl DataQualityRuleSetCapabilityPlanner {
    /// Refuses any definition but rule-set publication, invoked under its
    /// own coordinate, and any wire definition that is absent or not of the
    /// first evaluator semantics.
    pub fn target(&self, definition: &CapabilityDefinition, requested: &str, evaluator_semantic_version: Option<i32>)
        -> (r: Result<(), DataQualityPlanError>)
        ensures
            !is_publication_definition(*definition, requested@, PUBLISH_PARTY_RULE_SET_CAPABILITY@)
                ==> r == Err::<(), DataQualityPlanError>(DataQualityPlanError::RuleSetPlanInvalid),
            is_publication_definition(*definition, requested@, PUBLISH_PARTY_RULE_SET_CAPABILITY@)
                ==> r == rule_set_definition_outcome(evaluator_semantic_version),
    {
        if !definition_matches(definition, requested, PUBLISH_PARTY_RULE_SET_CAPABILITY) {
            return Err(DataQualityPlanError::RuleSetPlanInvalid);
        }
        admit_rule_set_definition(evaluator_semantic_version)
    }

    /// Plans the publication: the definition must match, no record of the
    /// version may exist yet, and the wire definition must be admitted.
    pub fn plan(&self, definition: &CapabilityDefinition, requested: &str, current_exists: bool,
        evaluator_semantic_version: Option<i32>) -> (r: Result<PublicationPlan, DataQualityPlanError>)
        ensures
            !is_publication_definition(*definition, requested@, PUBLISH_PARTY_RULE_SET_CAPABILITY@) || current_exists
                ==> r == Err::<PublicationPlan, DataQualityPlanError>(DataQualityPlanError::RuleSetPlanInvalid),
            is_publication_definition(*definition, requested@, PUBLISH_PARTY_RULE_SET_CAPABILITY@) && !current_exists
                ==> match (r, rule_set_definition_outcome(evaluator_semantic_version)) {
                    (Ok(p), Ok(_)) => is_publication(p, PARTY_RULE_SET_PUBLISHED_EVENT_TYPE,
                        PARTY_RULE_SET_PUBLISHED_EVENT_SCHEMA, PUBLISH_PARTY_RULE_SET_RESPONSE_SCHEMA),
                    (Err(e), Err(f)) => e == f,
                    _ => false,
                },
    {
        if !definition_matches(definition, requested, PUBLISH_PARTY_RULE_SET_CAPABILITY) || current_exists {
            return Err(DataQualityPlanError::RuleSetPlanInvalid);
        }
        admit_rule_set_definition(evaluator_semantic_version)?;
        Ok(PublicationPlan {
            aggregate_version: 1,
            event_type: PARTY_RULE_SET_PUBLISHED_EVENT_TYPE,
            event_schema: PARTY_RULE_SET_PUBLISHED_EVENT_SCHEMA,
            response_schema: PUBLISH_PARTY_RULE_SET_RESPONSE_SCHEMA,
        })
    }
}

/// The rule-set version a completeness-profile publication depends on.
#[derive(Debug, Clone, PartialEq, Eq)]
pub struct CompletenessProfileReferenceScope {
    pub rule_set_version_id: String,
}

/// The references of a wire completeness-profile definition: its
/// completeness semantic version and the rule-set version it names.
pub struct ProfileDefinitionHeader {
    pub completeness_semantic_version: i32,
    pub rule_set_version_id: Option<String>,
}

/// The rule-set version a wire completeness-profile definition depends
/// on, or why it names none.
pub open spec fn reference_scope_outcome(definition: Option<ProfileDefinitionHeader>)
    -> Result<Seq<char>, DataQualityPlanError>
{
    match definition {
        None => Err(DataQualityPlanError::MissingDefinition),
        Some(d) => if d.completeness_semantic_version != SEMANTIC_VERSION_V1 {
            Err(DataQualityPlanError::InvalidCompletenessSemanticVersion)
        } else {
            match d.rule_set_version_id {
                None => Err(DataQualityPlanError::MissingReference),
                Some(id) => if id@.len() == 0 {
                    Err(DataQualityPlanError::InvalidRuleSetReference)
                } else {
                    Ok(id@)
                },
            }
        },
    }
}

/// The rule-set version that a completeness-profile publication must load
/// before it can be planned.
pub fn completeness_profile_reference_scope_from_request(definition: Option<ProfileDefinitionHeader>)
    -> (r: Result<CompletenessProfileReferenceScope, DataQualityPlanError>)
    ensures
        match (r, reference_scope_outcome(definition)) {
            (Ok(s), Ok(id)) => s.rule_set_version_id@ == id,
            (Err(e), Err(f)) => e == f,
            _ => false,
        },
{
    let d = match definition {
        None => return Err(DataQualityPlanError::MissingDefinition),
        Some(d) => d,
    };
    if d.completeness_semantic_version != SEMANTIC_VERSION_V1 {
        return Err(DataQualityPlanError::InvalidCompletenessSemanticVersion);
    }
    let id = match d.rule_set_version_id {
        None => return Err(DataQualityPlanError::MissingReference),
        Some(id) => id,
    };
    if id.unicode_len() == 0 {
        return Err(DataQualityPlanError::InvalidRuleSetReference);
    }
    Ok(CompletenessProfileReferenceScope { rule_set_version_id: id })
}

/// The check binding a wire completeness-profile definition to the loaded
/// rule-set version `bound`.
pub open spec fn profile_binding_outcome(definition: Option<ProfileDefinitionHeader>, bound: Seq<char>)
    -> Result<(), DataQualityPlanError>
{
    match definition {
        None => Err(DataQualityPlanError::MissingDefinition),
        Some(d) => if d.completeness_semantic_version != SEMANTIC_VERSION_V1 {
            Err(DataQualityPlanError::InvalidCompletenessSemanticVersion)
        } else {
            match d.rule_set_version_id {
                None => Err(DataQualityPlanError::MissingReference),
                Some(id) => if id@ != bound {
                    Err(DataQualityPlanError::CompletenessRuleSetUnavailable)
                } else {
                    Ok(())
                },
            }
        },
    }
}

/// Binds a wire completeness-profile definition to the rule-set version
/// `rule_set_version_id`: a definition naming any other version names an
/// unavailable one.
pub fn bind_profile_definition(definition: &Option<ProfileDefinitionHeader>, rule_set_version_id: &String)
    -> (r: Result<(), DataQualityPlanError>)
    ensures
        r == profile_binding_outcome(*definition, rule_set_version_id@),
{
    let d = match definition {
        None => return Err(DataQualityPlanError::MissingDefinition),
        Some(d) => d,
    };
    if d.completeness_semantic_version != SEMANTIC_VERSION_V1 {
        return Err(DataQualityPlanError::InvalidCompletenessSemanticVersion);
    }
    match &d.rule_set_version_id {
        None => Err(DataQualityPlanError::MissingReference),
        Some(id) => if !str_eq(id.as_str(), rule_set_version_id.as_str()) {
            Err(DataQualityPlanError::CompletenessRuleSetUnavailable)
        } else {
            Ok(())
        },
    }
}

/// A definition whose scope names a rule-set version binds to that very
/// version.
pub proof fn scope_binds_its_own_rule_set(definition: Option<ProfileDefinitionHeader>)
    requires
        reference_scope_outcome(definition) is Ok,
    ensures
        profile_binding_outcome(definition, reference_scope_outcome(definition)->Ok_0) is Ok,
{
}

/// Plans the publication of completeness-profile versions against one
/// loaded rule-set version.
pub struct DataQualityCompletenessProfileCapabilityPlanner {
    pub rule_set_version_id: String,
}

impl DataQualityCompletenessProfileCapabilityPlanner {
    /// A planner bound to the rule-set version `rule_set_version_id`.
    pub fn new(rule_set_version_id: String) -> (r: Self)
        ensures
            r.rule_set_version_id@ == rule_set_version_id@,
    {
        DataQualityCompletenessProfileCapabilityPlanner { rule_set_version_id }
    }

    /// Refuses any definition but completeness-profile publication, invoked
    /// under its own coordinate, and any wire definition not bound to the
    /// planner's rule-set version.
    pub fn target(&self, definition: &CapabilityDefinition, requested: &str, profile: &Option<ProfileDefinitionHeader>)
        -> (r: Result<(), DataQualityPlanError>)
        ensures
            !is_publication_definition(*definition, requested@, PUBLISH_PARTY_COMPLETENESS_PROFILE_CAPABILITY@)
                ==> r == Err::<(), DataQualityPlanError>(DataQualityPlanError::CompletenessProfilePlanInvalid),
            is_publication_definition(*definition, requested@, PUBLISH_PARTY_COMPLETENESS_PROFILE_CAPABILITY@)
                ==> r == profile_binding_outcome(*profile, self.rule_set_version_id@),
    {
        if !definition_matches(definition, requested, PUBLISH_PARTY_COMPLETENESS_PROFILE_CAPABILITY) {
            return Err(DataQualityPlanError::CompletenessProfilePlanInvalid);
        }
        bind_profile_definition(profile, &self.rule_set_version_id)
    }

    /// Plans the publication: the definition must match, no record of the
    /// version may exist yet, and the wire definition must bind to the
    /// planner's rule-set version.
    pub fn plan(&self, definition: &CapabilityDefinition, requested: &str, current_exists: bool,
        profile: &Option<ProfileDefinitionHeader>) -> (r: Result<PublicationPlan, DataQualityPlanError>)
        ensures
            !is_publication_definition(*definition, requested@, PUBLISH_PARTY_COMPLETENESS_PROFILE_CAPABILITY@)
                || current_exists ==> r == Err::<PublicationPlan, DataQualityPlanError>(
                    DataQualityPlanError::CompletenessProfilePlanInvalid),
            is_publication_definition(*definition, requested@, PUBLISH_PARTY_COMPLETENESS_PROFILE_CAPABILITY@)
                && !current_exists ==> match (r, profile_binding_outcome(*profile, self.rule_set_version_id@)) {
                    (Ok(p), Ok(_)) => is_publication(p, PARTY_COMPLETENESS_PROFILE_PUBLISHED_EVENT_TYPE,
                        PARTY_COMPLETENESS_PROFILE_PUBLISHED_EVENT_SCHEMA,
                        PUBLISH_PARTY_COMPLETENESS_PROFILE_RESPONSE_SCHEMA),
                    (Err(e), Err(f)) => e == f,
                    _ => false,
                },
    {
        if !definition_matches(definition, requested, PUBLISH_PARTY_COMPLETENESS_PROFILE_CAPABILITY) || current_exists {
            return Err(DataQualityPlanError::CompletenessProfilePlanInvalid);
        }
        bind_profile_definition(profile, &self.rule_set_version_id)?;
        Ok(PublicationPlan {
            aggregate_version: 1,
            event_type: PARTY_COMPLETENESS_PROFILE_PUBLISHED_EVENT_TYPE,
            event_schema: PARTY_COMPLETENESS_PROFILE_PUBLISHED_EVENT_SCHEMA,
            response_schema: PUBLISH_PARTY_COMPLETENESS_PROFILE_RESPONSE_SCHEMA,
        })
    }
}


/// A completeness profile is bound only to the very rule-set version it
/// names, and the rule-set version its publication loads is that one: a
/// profile naming any other version finds it unavailable, and binding to
/// the version it depends on succeeds exactly when its semantics are the
/// first ones.
pub proof fn profiles_bind_only_to_the_rule_set_they_name(definition: Option<ProfileDefinitionHeader>,
    bound: Seq<char>)
    ensures
        profile_binding_outcome(definition, bound) is Ok ==> (definition is Some && definition->0.rule_set_version_id
            is Some && definition->0.rule_set_version_id->0@ == bound && definition->0.completeness_semantic_version
            == SEMANTIC_VERSION_V1),
        definition is Some && definition->0.completeness_semantic_version == SEMANTIC_VERSION_V1
            && definition->0.rule_set_version_id is Some && definition->0.rule_set_version_id->0@ != bound
            ==> profile_binding_outcome(definition, bound) == Err::<(), DataQualityPlanError>(
            DataQualityPlanError::CompletenessRuleSetUnavailable),
        reference_scope_outcome(definition) matches Ok(id) ==> profile_binding_outcome(definition, id) is Ok,
        reference_scope_outcome(definition) matches Ok(id) ==> id.len() > 0,
{
}

} // verus!
