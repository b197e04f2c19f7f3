//! Stewardship of Data Quality findings: assignment, acknowledgement and
//! waiver, each an optimistic update of one finding at its current version.
use vstd::prelude::*;
use crate::capability::CapabilityDefinition;
use crate::dq_capability::{
    DataQualityPlanError, ASSIGN_FINDING_CAPABILITY, ASSIGN_FINDING_RESPONSE_SCHEMA, ACKNOWLEDGE_FINDING_CAPABILITY,
    ACKNOWLEDGE_FINDING_RESPONSE_SCHEMA, WAIVE_FINDING_CAPABILITY, WAIVE_FINDING_RESPONSE_SCHEMA,
    FINDING_ASSIGNMENT_CHANGED_EVENT_TYPE, FINDING_ASSIGNMENT_CHANGED_EVENT_SCHEMA, FINDING_STATUS_CHANGED_EVENT_TYPE,
    FINDING_STATUS_CHANGED_EVENT_SCHEMA,
};
use crate::dq_model::MODULE_ID;
use crate::text::str_eq;

verus! {

/// The stewardship action a capability performs on a finding.
#[derive(Debug, Clone, Copy, PartialEq, Eq, Structural)]
pub enum StewardshipAction {
    Assign,
    Acknowledge,
    Waive,
}

/// The stewardship action of a capability coordinate, if it is one.
pub open spec fn stewardship_action_of(id: Seq<char>) -> Option<StewardshipAction> {
    if id == ASSIGN_FINDING_CAPABILITY@ {
        Some(StewardshipAction::Assign)
    } else if id == ACKNOWLEDGE_FINDING_CAPABILITY@ {
        Some(StewardshipAction::Acknowledge)
    } else if id == WAIVE_FINDING_CAPABILITY@ {
        Some(StewardshipAction::Waive)
    } else {
        None
    }
}

/// The event an action emits: an assignment change, or a status change.
pub open spec fn action_event_type(action: StewardshipAction) -> &'static str {
    match action {
        StewardshipAction::Assign => FINDING_ASSIGNMENT_CHANGED_EVENT_TYPE,
        _ => FINDING_STATUS_CHANGED_EVENT_TYPE,
    }
}

/// The schema of the event an action emits.
pub open spec fn action_event_schema(action: StewardshipAction) -> &'static str {
    match action {
        StewardshipAction::Assign => FINDING_ASSIGNMENT_CHANGED_EVENT_SCHEMA,
        _ => FINDING_STATUS_CHANGED_EVENT_SCHEMA,
    }
}

/// The schema of the response an action answers with.
pub open spec fn action_response_schema(action: StewardshipAction) -> &'static str {
    match action {
        StewardshipAction::Assign => ASSIGN_FINDING_RESPONSE_SCHEMA,
        StewardshipAction::Acknowledge => ACKNOWLEDGE_FINDING_RESPONSE_SCHEMA,
        StewardshipAction::Waive => WAIVE_FINDING_RESPONSE_SCHEMA,
    }
}

impl StewardshipAction {
    /// Reads the action of a capability coordinate.
    pub fn of_capability(id: &str) -> (r: Option<StewardshipAction>)
        ensures
            r == stewardship_action_of(id@),
    {
        if str_eq(id, ASSIGN_FINDING_CAPABILITY) {
            Some(StewardshipAction::Assign)
        } else if str_eq(id, ACKNOWLEDGE_FINDING_CAPABILITY) {
            Some(StewardshipAction::Acknowledge)
        } else if str_eq(id, WAIVE_FINDING_CAPABILITY) {
            Some(StewardshipAction::Waive)
        } else {
            None
        }
    }

    /// The event type this action emits.
    pub fn event_type(self) -> (r: &'static str)
        ensures
            r == action_event_type(self),
    {
        match self {
            StewardshipAction::Assign => FINDING_ASSIGNMENT_CHANGED_EVENT_TYPE,
            _ => FINDING_STATUS_CHANGED_EVENT_TYPE,
        }
    }

    /// The event schema this action emits.
    pub fn event_schema(self) -> (r: &'static str)
        ensures
            r == action_event_schema(self),
    {
        match self {
            StewardshipAction::Assign => FINDING_ASSIGNMENT_CHANGED_EVENT_SCHEMA,
            _ => FINDING_STATUS_CHANGED_EVENT_SCHEMA,
        }
    }

    /// The response schema this action answers with.
    pub fn response_schema(self) -> (r: &'static str)
        ensures
            r == action_response_schema(self),
    {
        match self {
            StewardshipAction::Assign => ASSIGN_FINDING_RESPONSE_SCHEMA,
            StewardshipAction::Acknowledge => ACKNOWLEDGE_FINDING_RESPONSE_SCHEMA,
            StewardshipAction::Waive => WAIVE_FINDING_RESPONSE_SCHEMA,
        }
    }
}

/// A stewardship request, as plain values. Acknowledgement and waiver name
/// the observation the steward saw as current.
pub struct StewardshipCommand {
    pub finding_id: Option<String>,
    pub expected_version: i64,
    pub assigned_actor_id: Option<String>,
    pub expected_current_observation_id: Option<String>,
    pub reason: String,
}

/// What the planner reads of the stored finding: the record's version and
/// identity, and the identity the decoded finding carries.
pub struct FindingRecord {
    pub version: i64,
    pub record_id: String,
    pub finding_id: String,
}

/// What a stewardship plan writes: the action, the update from the version
/// read to the next one, and the event and response it emits.
pub struct StewardshipPlan {
    pub action: StewardshipAction,
    pub expected_version: i64,
    pub aggregate_version: i64,
    pub event_type: &'static str,
    pub event_schema: &'static str,
    pub response_schema: &'static str,
}

/// Whether a capability definition, invoked under `requested`, is one of
/// the stewardship capabilities of this module.
pub open spec fn is_stewardship_definition(d: CapabilityDefinition, requested: Seq<char>) -> bool {
    &&& stewardship_action_of(d.capability_id@) is Some
    &&& d.owner_module_id@ == MODULE_ID@
    &&& d.capability_id@ == requested
}

/// A stored finding is well formed when its version is positive and the
/// decoded finding is the record it was read from.
pub open spec fn finding_record_valid(f: FindingRecord) -> bool {
    f.version > 0 && f.finding_id@ == f.record_id@
}

/// The stewardship decision: the action and next version, or the refusal,
/// in the order the planner checks them.
pub open spec fn stewardship_outcome(definition_matches: bool, action: Option<StewardshipAction>,
    current: Option<FindingRecord>, command: StewardshipCommand)
    -> Result<(StewardshipAction, i64), DataQualityPlanError>
{
    if !definition_matches || action is None {
        Err(DataQualityPlanError::FindingPlanInvalid)
    } else {
        match current {
            None => Err(DataQualityPlanError::FindingNotFound),
            Some(f) => if command.expected_version <= 0 || command.expected_version != f.version {
                Err(DataQualityPlanError::FindingVersionConflict)
            } else if !finding_record_valid(f) {
                Err(DataQualityPlanError::FindingPlanInvalid)
            } else if action != Some(StewardshipAction::Assign) && command.expected_current_observation_id is None {
                Err(DataQualityPlanError::MissingReference)
            } else if f.version == i64::MAX {
                Err(DataQualityPlanError::FindingPlanInvalid)
            } else {
                Ok((action->0, (f.version + 1) as i64))
            },
        }
    }
}

/// Plans finding stewardship actions.
#[derive(Debug, Default, Clone, Copy)]
pub struct DataQualityFindingStewardshipPlanner;

impl DataQualityFindingStewardshipPlanner {
    /// The action of a stewardship definition invoked under its own
    /// coordinate; any other definition is refused.
    pub fn ensure_definition(&self, definition: &CapabilityDefinition, requested: &str)
        -> (r: Result<StewardshipAction, DataQualityPlanError>)
        ensures
            is_stewardship_definition(*definition, requested@) ==> r == Ok::<StewardshipAction, DataQualityPlanError>(
                stewardship_action_of(definition.capability_id@)->0),
            !is_stewardship_definition(*definition, requested@) ==> r == Err::<StewardshipAction, DataQualityPlanError>(
                DataQualityPlanError::FindingPlanInvalid),
    {
        let action = match StewardshipAction::of_capability(definition.capability_id.as_str()) {
            None => return Err(DataQualityPlanError::FindingPlanInvalid),
            Some(action) => action,
        };
        if !str_eq(definition.owner_module_id.as_str(), MODULE_ID)
            || !str_eq(definition.capability_id.as_str(), requested)
        {
            return Err(DataQualityPlanError::FindingPlanInvalid);
        }
        Ok(action)
    }

    /// The finding a stewardship command must find: the finding it names.
    pub fn target(&self, definition: &CapabilityDefinition, requested: &str, command: &StewardshipCommand)
        -> (r: Result<String, DataQualityPlanError>)
        ensures
            !is_stewardship_definition(*definition, requested@) ==> r == Err::<String, DataQualityPlanError>(
                DataQualityPlanError::FindingPlanInvalid),
            is_stewardship_definition(*definition, requested@) ==> match command.finding_id {
                Some(id) => r matches Ok(t) && t@ == id@,
                None => r == Err::<String, DataQualityPlanError>(DataQualityPlanError::MissingReference),
            },
    {
        self.ensure_definition(definition, requested)?;
        match &command.finding_id {
            Some(id) => Ok(id.clone()),
            None => Err(DataQualityPlanError::MissingReference),
        }
    }

    /// Admits a stewardship command against the current finding: it must
    /// exist, the expected version be positive and current, the stored
    /// finding well formed, an acknowledgement or waiver name the observation
    /// it saw, and the next version be representable.
    pub fn plan(
        &self,
        definition: &CapabilityDefinition,
        requested: &str,
        current: Option<&FindingRecord>,
        command: &StewardshipCommand,
    ) -> (r: Result<StewardshipPlan, DataQualityPlanError>)
        ensures
            match (r, stewardship_outcome(is_stewardship_definition(*definition, requested@),
                stewardship_action_of(definition.capability_id@),
                match current { Some(f) => Some(*f), None => None }, *command)) {
                (Ok(p), Ok((action, next))) => {
                    &&& p.action == action
                    &&& p.aggregate_version == next
                    &&& p.expected_version == current->0.version
                    &&& p.event_type == action_event_type(action)
                    &&& p.event_schema == action_event_schema(action)
                    &&& p.response_schema == action_response_schema(action)
                },
                (Err(e), Err(f)) => e == f,
                _ => false,
            },
    {
        let action = match self.ensure_definition(definition, requested) {
            Err(e) => return Err(e),
            Ok(action) => action,
        };
        let finding = match current {
            None => return Err(DataQualityPlanError::FindingNotFound),
            Some(finding) => finding,
        };
        if command.expected_version <= 0 || command.expected_version != finding.version {
            return Err(DataQualityPlanError::FindingVersionConflict);
        }
        if finding.version <= 0 || !str_eq(finding.finding_id.as_str(), finding.record_id.as_str()) {
            return Err(DataQualityPlanError::FindingPlanInvalid);
        }
        if action != StewardshipAction::Assign && command.expected_current_observation_id.is_none() {
            return Err(DataQualityPlanError::MissingReference);
        }
        let next = match finding.version.checked_add(1) {
            None => return Err(DataQualityPlanError::FindingPlanInvalid),
            Some(next) => next,
        };
        Ok(StewardshipPlan {
            action,
            expected_version: finding.version,
            aggregate_version: next,
            event_type: action.event_type(),
            event_schema: action.event_schema(),
            response_schema: action.response_schema(),
        })
    }
}


/// A stewardship action is planned only on the finding the command read, at
/// the positive version it expected, and advances it by exactly one version:
/// an unknown coordinate is refused, a missing finding is not found, and a
/// finding at another version than expected is a version conflict.
pub proof fn stewardship_updates_the_read_finding_by_one_version(definition_matches: bool,
    action: Option<StewardshipAction>, current: Option<FindingRecord>, command: StewardshipCommand)
    ensures
        stewardship_outcome(definition_matches, action, current, command) matches Ok((a, next)) ==> (
            definition_matches && action == Some(a) && current is Some && command.expected_version > 0
            && command.expected_version == current->0.version && next == current->0.version + 1),
        !definition_matches || action is None ==> stewardship_outcome(definition_matches, action, current, command)
            == Err::<(StewardshipAction, i64), DataQualityPlanError>(DataQualityPlanError::FindingPlanInvalid),
        definition_matches && action is Some && current is None ==> stewardship_outcome(definition_matches, action,
            current, command) == Err::<(StewardshipAction, i64), DataQualityPlanError>(
            DataQualityPlanError::FindingNotFound),
        definition_matches && action is Some && current is Some && command.expected_version
            != current->0.version ==> stewardship_outcome(definition_matches, action, current, command) == Err::<
            (StewardshipAction, i64),
            DataQualityPlanError,
        >(DataQualityPlanError::FindingVersionConflict),
        stewardship_outcome(definition_matches, action, current, command) is Ok && action != Some(
            StewardshipAction::Assign) ==> command.expected_current_observation_id is Some,
{
}

} // verus!
