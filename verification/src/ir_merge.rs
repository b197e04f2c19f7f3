//! Reversible Party merges: the planner that admits a merge operation that
//! does not exist yet, or the unmerge of the very operation loaded, and the
//! Party versions a merge request must be checked against.
use vstd::prelude::*;
use crate::capability::CapabilityDefinition;
use crate::ir_candidate::RequestCoordinates;
use crate::ir_capability::{
    IdentityResolutionError, MERGE_CAPABILITY, UNMERGE_CAPABILITY, MERGE_EVENT_TYPE, MERGE_EVENT_SCHEMA,
    MERGE_RESPONSE_SCHEMA, UNMERGE_EVENT_TYPE, UNMERGE_EVENT_SCHEMA, UNMERGE_RESPONSE_SCHEMA,
};
use crate::text::str_eq;

verus! {

/// Whether a merge capability creates or reverses a merge operation.
#[derive(Debug, Clone, Copy, PartialEq, Eq, Structural)]
pub enum MergeAction {
    Merge,
    Unmerge,
}

/// The merge action of a capability coordinate, if it is one.
pub open spec fn merge_action_of(id: Seq<char>) -> Option<MergeAction> {
    if id == MERGE_CAPABILITY@ {
        Some(MergeAction::Merge)
    } else if id == UNMERGE_CAPABILITY@ {
        Some(MergeAction::Unmerge)
    } else {
        None
    }
}

/// Whether `d` is a merge capability invoked under exactly its own
/// coordinate and version.
pub open spec fn merge_definition_matches(d: CapabilityDefinition, request: RequestCoordinates) -> bool {
    &&& merge_action_of(d.capability_id@) is Some
    &&& d.capability_id@ == request.capability_id@
    &&& d.capability_version@ == request.capability_version@
}

/// A merge request, as plain values: the operation it names and, for an
/// unmerge, nothing more that the planner reads.
pub struct MergeCommand {
    pub merge_operation_id: Option<String>,
}

/// What a merge plan writes: the action, the version it updates from (none
/// for a new merge), and its event and response.
pub struct MergePlan {
    pub action: MergeAction,
    pub expected_version: Option<i64>,
    pub event_type: &'static str,
    pub event_schema: &'static str,
    pub response_schema: &'static str,
}

/// What the planner reads of a stored merge operation.
pub struct MergeOperationRecord {
    pub record_id: String,
    pub version: i64,
}

/// The merge planning decision, in the order the planner checks.
pub open spec fn merge_outcome(definition_matches: bool, action: Option<MergeAction>,
    current: Option<MergeOperationRecord>, command: MergeCommand) -> Result<MergeAction, IdentityResolutionError>
{
    if !definition_matches || action is None {
        Err(IdentityResolutionError::MergeCapabilityUnsupported)
    } else if action == Some(MergeAction::Merge) {
        if current is Some {
            Err(IdentityResolutionError::MergePlanInvalid)
        } else if command.merge_operation_id is None {
            Err(IdentityResolutionError::MissingReference)
        } else {
            Ok(MergeAction::Merge)
        }
    } else {
        match current {
            None => Err(IdentityResolutionError::MergePlanInvalid),
            Some(c) => match command.merge_operation_id {
                None => Err(IdentityResolutionError::MissingReference),
                Some(id) => if id@ != c.record_id@ {
                    Err(IdentityResolutionError::MergeOperationMismatch)
                } else {
                    Ok(MergeAction::Unmerge)
                },
            },
        }
    }
}

/// Plans reversible merge operations.
#[derive(Debug, Default, Clone, Copy)]
pub struct MergeLineageCapabilityPlanner;

impl MergeLineageCapabilityPlanner {
    /// The merge action of a merge definition invoked under its own
    /// coordinate and version; any other definition is refused.
    pub fn ensure_definition(&self, definition: &CapabilityDefinition, request: &RequestCoordinates)
        -> (r: Result<MergeAction, IdentityResolutionError>)
        ensures
            merge_definition_matches(*definition, *request) ==> r == Ok::<MergeAction, IdentityResolutionError>(
                merge_action_of(definition.capability_id@)->0),
            !merge_definition_matches(*definition, *request) ==> r == Err::<MergeAction, IdentityResolutionError>(
                IdentityResolutionError::MergeCapabilityUnsupported),
    {
        let action = if str_eq(definition.capability_id.as_str(), MERGE_CAPABILITY) {
            MergeAction::Merge
        } else if str_eq(definition.capability_id.as_str(), UNMERGE_CAPABILITY) {
            MergeAction::Unmerge
        } else {
            return Err(IdentityResolutionError::MergeCapabilityUnsupported);
        };
        if !str_eq(definition.capability_id.as_str(), request.capability_id.as_str())
            || !str_eq(definition.capability_version.as_str(), request.capability_version.as_str())
        {
            return Err(IdentityResolutionError::MergeCapabilityUnsupported);
        }
        Ok(action)
    }

    /// The merge operation a command lands on, and whether it must exist:
    /// a merge creates it, an unmerge finds it.
    pub fn target(&self, definition: &CapabilityDefinition, request: &RequestCoordinates, command: &MergeCommand)
        -> (r: Result<(String, bool), IdentityResolutionError>)
        ensures
            !merge_definition_matches(*definition, *request) ==> r == Err::<(String, bool), IdentityResolutionError>(
                IdentityResolutionError::MergeCapabilityUnsupported),
            merge_definition_matches(*definition, *request) ==> match command.merge_operation_id {
                None => r == Err::<(String, bool), IdentityResolutionError>(IdentityResolutionError::MissingReference),
                Some(id) => (r matches Ok((t, must_exist)) && t@ == id@
                    && must_exist == (merge_action_of(definition.capability_id@) == Some(MergeAction::Unmerge))),
            },
    {
        let action = self.ensure_definition(definition, request)?;
        match &command.merge_operation_id {
            None => Err(IdentityResolutionError::MissingReference),
            Some(id) => Ok((id.clone(), action == MergeAction::Unmerge)),
        }
    }

    /// Admits a merge command: a merge must find no operation yet, an
    /// unmerge must find exactly the operation it names.
    pub fn plan(
        &self,
        definition: &CapabilityDefinition,
        request: &RequestCoordinates,
        current: Option<&MergeOperationRecord>,
        command: &MergeCommand,
    ) -> (r: Result<MergePlan, IdentityResolutionError>)
        ensures
            match (r, merge_outcome(merge_definition_matches(*definition, *request),
                merge_action_of(definition.capability_id@),
                match current { Some(c) => Some(*c), None => None }, *command)) {
                (Ok(p), Ok(action)) => {
                    &&& p.action == action
                    &&& (action == MergeAction::Merge ==> p.expected_version is None
                        && p.event_type == MERGE_EVENT_TYPE && p.event_schema == MERGE_EVENT_SCHEMA
                        && p.response_schema == MERGE_RESPONSE_SCHEMA)
                    &&& (action == MergeAction::Unmerge ==> p.expected_version == Some(current->0.version)
                        && p.event_type == UNMERGE_EVENT_TYPE && p.event_schema == UNMERGE_EVENT_SCHEMA
                        && p.response_schema == UNMERGE_RESPONSE_SCHEMA)
                },
                (Err(e), Err(f)) => e == f,
                _ => false,
            },
    {
        let action = match self.ensure_definition(definition, request) {
            Err(e) => return Err(e),
            Ok(a) => a,
        };
        match action {
            MergeAction::Merge => {
                if current.is_some() {
                    return Err(IdentityResolutionError::MergePlanInvalid);
                }
                if command.merge_operation_id.is_none() {
                    return Err(IdentityResolutionError::MissingReference);
                }
                Ok(MergePlan {
                    action,
                    expected_version: None,
                    event_type: MERGE_EVENT_TYPE,
                    event_schema: MERGE_EVENT_SCHEMA,
                    response_schema: MERGE_RESPONSE_SCHEMA,
                })
            },
            MergeAction::Unmerge => {
                let op = match current {
                    None => return Err(IdentityResolutionError::MergePlanInvalid),
                    Some(op) => op,
                };
                let requested = match &command.merge_operation_id {
                    None => return Err(IdentityResolutionError::MissingReference),
                    Some(id) => id,
                };
                if !str_eq(op.record_id.as_str(), requested.as_str()) {
                    return Err(IdentityResolutionError::MergeOperationMismatch);
                }
                Ok(MergePlan {
                    action,
                    expected_version: Some(op.version),
                    event_type: UNMERGE_EVENT_TYPE,
                    event_schema: UNMERGE_EVENT_SCHEMA,
                    response_schema: UNMERGE_RESPONSE_SCHEMA,
                })
            },
        }
    }
}

/// A Party a merge request names, at the version it names, as read from
/// the wire.
pub struct MergePartyReference {
    pub party_ref: Option<String>,
    pub version: i64,
}

/// A Party a merge depends on, at the version it must still be at.
pub struct MergePartyVersionExpectation {
    pub party_ref: String,
    pub expected_version: i64,
}

/// The verdict on one named Party: the version must be positive (checked
/// first), and the Party named.
pub open spec fn expectation_outcome(r: MergePartyReference) -> Result<(Seq<char>, i64), IdentityResolutionError> {
    if r.version <= 0 {
        Err(IdentityResolutionError::ValueOutOfRange)
    } else {
        match r.party_ref {
            None => Err(IdentityResolutionError::MissingReference),
            Some(p) => Ok((p@, r.version)),
        }
    }
}

/// Reads one Party a merge request names.
pub fn required_party_expectation(r: &MergePartyReference)
    -> (out: Result<MergePartyVersionExpectation, IdentityResolutionError>)
    ensures
        match (out, expectation_outcome(*r)) {
            (Ok(e), Ok((p, v))) => e.party_ref@ == p && e.expected_version == v,
            (Err(e), Err(f)) => e == f,
            _ => false,
        },
{
    if r.version <= 0 {
        return Err(IdentityResolutionError::ValueOutOfRange);
    }
    match &r.party_ref {
        None => Err(IdentityResolutionError::MissingReference),
        Some(p) => Ok(MergePartyVersionExpectation { party_ref: p.clone(), expected_version: r.version }),
    }
}

/// The Parties a merge depends on: its source, its survivor, and the
/// provenance Party of each survivorship selection.
pub struct MergeReferenceScope {
    pub source: MergePartyVersionExpectation,
    pub survivor: MergePartyVersionExpectation,
    pub provenance: Vec<MergePartyVersionExpectation>,
}

/// Reads the Parties a merge request depends on, refusing it on the first
/// Party that is unnamed or at a non-positive version: source first, then
/// survivor, then the provenance of each selection in order.
pub fn merge_reference_scope(source: &MergePartyReference, survivor: &MergePartyReference,
    provenance: &Vec<MergePartyReference>) -> (r: Result<MergeReferenceScope, IdentityResolutionError>)
    ensures
        expectation_outcome(*source) is Err ==> r == Err::<MergeReferenceScope, IdentityResolutionError>(
            expectation_outcome(*source)->Err_0),
        expectation_outcome(*source) is Ok && expectation_outcome(*survivor) is Err
            ==> r == Err::<MergeReferenceScope, IdentityResolutionError>(expectation_outcome(*survivor)->Err_0),
        expectation_outcome(*source) is Ok && expectation_outcome(*survivor) is Ok ==> match r {
            Ok(s) => {
                &&& (forall|i: int| 0 <= i < provenance@.len() ==> #[trigger] expectation_outcome(provenance@[i]) is Ok)
                &&& s.source.party_ref@ == expectation_outcome(*source)->Ok_0.0
                &&& s.source.expected_version == source.version
                &&& s.survivor.party_ref@ == expectation_outcome(*survivor)->Ok_0.0
                &&& s.survivor.expected_version == survivor.version
                &&& s.provenance@.len() == provenance@.len()
                &&& forall|i: int| 0 <= i < provenance@.len() ==>
                    #[trigger] s.provenance@[i].party_ref@ == expectation_outcome(provenance@[i])->Ok_0.0
                    && s.provenance@[i].expected_version == provenance@[i].version
            },
            Err(e) => exists|i: int| 0 <= i < provenance@.len() && expectation_outcome(provenance@[i]) == Err::<(Seq<char>, i64), IdentityResolutionError>(e)
                && forall|j: int| 0 <= j < i ==> #[trigger] expectation_outcome(provenance@[j]) is Ok,
        },
{
    let source_expectation = required_party_expectation(source)?;
    let survivor_expectation = required_party_expectation(survivor)?;
    let mut out: Vec<MergePartyVersionExpectation> = Vec::new();
    let mut i: usize = 0;
    while i < provenance.len()
        invariant
            expectation_outcome(*source) is Ok,
            expectation_outcome(*survivor) is Ok,
            i <= provenance@.len(),
            out@.len() == i,
            forall|j: int| 0 <= j < i ==> #[trigger] expectation_outcome(provenance@[j]) is Ok,
            forall|j: int| 0 <= j < i ==> #[trigger] out@[j].party_ref@ == expectation_outcome(provenance@[j])->Ok_0.0
                && out@[j].expected_version == provenance@[j].version,
        decreases provenance@.len() - i,
    {
        let e = match required_party_expectation(&provenance[i]) {
            Err(e) => {
                assert(expectation_outcome(provenance@[i as int]) == Err::<(Seq<char>, i64), IdentityResolutionError>(e));
                return Err(e);
            },
            Ok(e) => e,
        };
        out.push(e);
        i = i + 1;
    }
    Ok(MergeReferenceScope { source: source_expectation, survivor: survivor_expectation, provenance: out })
}

/// The digest of a survivorship selection's source value, which must be
/// exactly 32 bytes.
pub fn source_value_digest(bytes: &Vec<u8>) -> (r: Result<[u8; 32], IdentityResolutionError>)
    ensures
        bytes@.len() == 32 ==> (r matches Ok(d) && d@ == bytes@),
        bytes@.len() != 32 ==> r == Err::<[u8; 32], IdentityResolutionError>(IdentityResolutionError::ValueOutOfRange),
{
    if bytes.len() != 32 {
        return Err(IdentityResolutionError::ValueOutOfRange);
    }
    let mut digest: [u8; 32] = [0u8; 32];
    let mut i: usize = 0;
    while i < 32
        invariant
            i <= 32,
            bytes@.len() == 32,
            digest@.len() == 32,
            forall|j: int| 0 <= j < i ==> digest@[j] == bytes@[j],
        decreases 32 - i,
    {
        digest[i] = bytes[i];
        i = i + 1;
    }
    assert(digest@ =~= bytes@);
    Ok(digest)
}

/// Whether a merge lineage is in force or was undone.
#[derive(Debug, Clone, Copy, PartialEq, Eq, Structural)]
pub enum MergeLineageStatus {
    Active,
    Unmerged,
}

/// The kind of the merged Parties.
#[derive(Debug, Clone, Copy, PartialEq, Eq, Structural)]
pub enum MergePartyKind {
    Person,
    Organization,
}

/// Which Party's display name survived a merge.
#[derive(Debug, Clone, Copy, PartialEq, Eq, Structural)]
pub enum SurvivorshipSource {
    Survivor,
    Absorbed,
}

/// A Party merge lineage, as plain values.
#[derive(Debug)]
pub struct MergeLineageFacts {
    pub merge_id: String,
    pub status: MergeLineageStatus,
    pub version: u64,
    pub candidate_case_id: String,
    pub candidate_case_version: u64,
    /// The canonical pair of the merged Parties.
    pub pair: (String, String),
    pub survivor_party_id: String,
    pub absorbed_party_id: String,
    pub party_kind: MergePartyKind,
    pub survivor_pre_merge_version: i64,
    pub absorbed_pre_merge_version: i64,
    pub survivor_post_merge_version: i64,
    pub absorbed_post_merge_version: i64,
    pub display_name_source: SurvivorshipSource,
    pub survivor_display_name: String,
    pub absorbed_display_name: String,
    pub merge_actor_id: String,
    pub merged_at_unix_nanos: i64,
}

/// `resulting` is exactly the unmerge of the active lineage `current`: it
/// is unmerged, one version later, and keeps every recorded fact of the
/// merge.
pub open spec fn is_unmerge_of(current: MergeLineageFacts, resulting: MergeLineageFacts) -> bool {
    &&& current.status == MergeLineageStatus::Active
    &&& resulting.status == MergeLineageStatus::Unmerged
    &&& resulting.version == current.version + 1
    &&& resulting.merge_id@ == current.merge_id@
    &&& resulting.candidate_case_id@ == current.candidate_case_id@
    &&& resulting.candidate_case_version == current.candidate_case_version
    &&& resulting.pair.0@ == current.pair.0@
    &&& resulting.pair.1@ == current.pair.1@
    &&& resulting.survivor_party_id@ == current.survivor_party_id@
    &&& resulting.absorbed_party_id@ == current.absorbed_party_id@
    &&& resulting.party_kind == current.party_kind
    &&& resulting.survivor_pre_merge_version == current.survivor_pre_merge_version
    &&& resulting.absorbed_pre_merge_version == current.absorbed_pre_merge_version
    &&& resulting.survivor_post_merge_version == current.survivor_post_merge_version
    &&& resulting.absorbed_post_merge_version == current.absorbed_post_merge_version
    &&& resulting.display_name_source == current.display_name_source
    &&& resulting.survivor_display_name@ == current.survivor_display_name@
    &&& resulting.absorbed_display_name@ == current.absorbed_display_name@
    &&& resulting.merge_actor_id@ == current.merge_actor_id@
    &&& resulting.merged_at_unix_nanos == current.merged_at_unix_nanos
}

/// Accepts a lineage update only when it is exactly the unmerge of the
/// active lineage.
pub fn validate_unmerge_transition(current: &MergeLineageFacts, resulting: &MergeLineageFacts)
    -> (r: Result<(), IdentityResolutionError>)
    ensures
        r is Ok <==> is_unmerge_of(*current, *resulting),
        r is Err ==> r == Err::<(), IdentityResolutionError>(IdentityResolutionError::UnmergeTransitionInvalid),
{
    let next_version = current.version < u64::MAX && resulting.version == current.version + 1;
    if current.status != MergeLineageStatus::Active
        || resulting.status != MergeLineageStatus::Unmerged
        || !next_version
        || !str_eq(current.merge_id.as_str(), resulting.merge_id.as_str())
        || !str_eq(current.candidate_case_id.as_str(), resulting.candidate_case_id.as_str())
        || current.candidate_case_version != resulting.candidate_case_version
        || !str_eq(current.pair.0.as_str(), resulting.pair.0.as_str())
        || !str_eq(current.pair.1.as_str(), resulting.pair.1.as_str())
        || !str_eq(current.survivor_party_id.as_str(), resulting.survivor_party_id.as_str())
        || !str_eq(current.absorbed_party_id.as_str(), resulting.absorbed_party_id.as_str())
        || current.party_kind != resulting.party_kind
        || current.survivor_pre_merge_version != resulting.survivor_pre_merge_version
        || current.absorbed_pre_merge_version != resulting.absorbed_pre_merge_version
        || current.survivor_post_merge_version != resulting.survivor_post_merge_version
        || current.absorbed_post_merge_version != resulting.absorbed_post_merge_version
        || current.display_name_source != resulting.display_name_source
        || !str_eq(current.survivor_display_name.as_str(), resulting.survivor_display_name.as_str())
        || !str_eq(current.absorbed_display_name.as_str(), resulting.absorbed_display_name.as_str())
        || !str_eq(current.merge_actor_id.as_str(), resulting.merge_actor_id.as_str())
        || current.merged_at_unix_nanos != resulting.merged_at_unix_nanos
    {
        return Err(IdentityResolutionError::UnmergeTransitionInvalid);
    }
    Ok(())
}


/// A merge is planned only when no merge operation is stored yet and the
/// request names one; an unmerge only on the stored operation the request
/// names, any other being a mismatch.
pub proof fn merges_create_and_unmerges_land_on_the_named_operation(definition_matches: bool,
    action: Option<MergeAction>, current: Option<MergeOperationRecord>, command: MergeCommand)
    ensures
        merge_outcome(definition_matches, action, current, command) matches Ok(a) ==> (definition_matches && action
            == Some(a) && command.merge_operation_id is Some),
        merge_outcome(definition_matches, action, current, command) == Ok::<MergeAction, IdentityResolutionError>(
            MergeAction::Merge) ==> current is None,
        merge_outcome(definition_matches, action, current, command) == Ok::<MergeAction, IdentityResolutionError>(
            MergeAction::Unmerge) ==> current is Some && command.merge_operation_id->0@ == current->0.record_id@,
        definition_matches && action == Some(MergeAction::Unmerge) && current is Some && command.merge_operation_id
            is Some && command.merge_operation_id->0@ != current->0.record_id@ ==> merge_outcome(definition_matches,
            action, current, command) == Err::<MergeAction, IdentityResolutionError>(
            IdentityResolutionError::MergeOperationMismatch),
{
}


/// An unmerge turns an active lineage into an unmerged one a version later
/// and keeps who and what was merged: the same merge, Parties, survivor and
/// absorbed Party and their versions. No lineage is its own unmerge, and an
/// unmerged lineage cannot be unmerged again.
pub proof fn unmerges_undo_an_active_merge_once(current: MergeLineageFacts, resulting: MergeLineageFacts,
    later: MergeLineageFacts)
    ensures
        is_unmerge_of(current, resulting) ==> {
            &&& current.status == MergeLineageStatus::Active
            &&& resulting.status == MergeLineageStatus::Unmerged
            &&& resulting.version == current.version + 1
            &&& resulting.merge_id@ == current.merge_id@
            &&& resulting.survivor_party_id@ == current.survivor_party_id@
            &&& resulting.absorbed_party_id@ == current.absorbed_party_id@
            &&& resulting.pair.0@ == current.pair.0@ && resulting.pair.1@ == current.pair.1@
            &&& resulting.survivor_post_merge_version == current.survivor_post_merge_version
            &&& resulting.absorbed_post_merge_version == current.absorbed_post_merge_version
            &&& resulting.survivor_display_name@ == current.survivor_display_name@
            &&& resulting.absorbed_display_name@ == current.absorbed_display_name@
        },
        !is_unmerge_of(current, current),
        is_unmerge_of(current, resulting) ==> !is_unmerge_of(resulting, later),
{
}

} // verus!
