//! Duplicate-candidate cases: the planner that admits registration,
//! evidence refresh, dismissal and confirmation against the stored case, and
//! the composition checks that bind candidate evidence to the live versions
//! of the two Parties it compares.
use vstd::prelude::*;
use crate::capability::{CapabilityDefinition, DataClass};
use crate::ir_capability::{
    IdentityResolutionError, MODULE_ID, REGISTER_CAPABILITY, REFRESH_CAPABILITY, DISMISS_CAPABILITY,
    CONFIRM_CAPABILITY, MERGE_CAPABILITY, UNMERGE_CAPABILITY, REGISTER_RESPONSE_SCHEMA, REFRESH_RESPONSE_SCHEMA,
    DISMISS_RESPONSE_SCHEMA, CONFIRM_RESPONSE_SCHEMA, REGISTERED_EVENT_TYPE, REGISTERED_EVENT_SCHEMA,
    REFRESHED_EVENT_TYPE, REFRESHED_EVENT_SCHEMA, DISMISSED_EVENT_TYPE, DISMISSED_EVENT_SCHEMA, CONFIRMED_EVENT_TYPE,
    CONFIRMED_EVENT_SCHEMA,
};
use crate::text::str_eq;

verus! {

/// The relationship that gives each Party of a registered pair an access
/// path to its candidate case.
pub const PARTY_CANDIDATE_RELATIONSHIP_TYPE: &'static str = "identity_resolution.candidate.party";
/// The record type the access-path relationship starts from.
pub const PARTY_CANDIDATE_SOURCE_RECORD_TYPE: &'static str = "parties.party";

/// What a candidate capability does to a case.
#[derive(Debug, Clone, Copy, PartialEq, Eq, Structural)]
pub enum CandidateAction {
    Register,
    Refresh,
    Dismiss,
    Confirm,
}

/// The candidate action of a capability coordinate, if it is one.
pub open spec fn candidate_action_of(id: Seq<char>) -> Option<CandidateAction> {
    if id == REGISTER_CAPABILITY@ {
        Some(CandidateAction::Register)
    } else if id == REFRESH_CAPABILITY@ {
        Some(CandidateAction::Refresh)
    } else if id == DISMISS_CAPABILITY@ {
        Some(CandidateAction::Dismiss)
    } else if id == CONFIRM_CAPABILITY@ {
        Some(CandidateAction::Confirm)
    } else {
        None
    }
}

/// Whether `id` is one of the six published mutation coordinates.
pub open spec fn is_mutation_capability(id: Seq<char>) -> bool {
    candidate_action_of(id) is Some || id == MERGE_CAPABILITY@ || id == UNMERGE_CAPABILITY@
}

/// The event type an action emits.
pub open spec fn candidate_event_type(action: CandidateAction) -> &'static str {
    match action {
        CandidateAction::Register => REGISTERED_EVENT_TYPE,
        CandidateAction::Refresh => REFRESHED_EVENT_TYPE,
        CandidateAction::Dismiss => DISMISSED_EVENT_TYPE,
        CandidateAction::Confirm => CONFIRMED_EVENT_TYPE,
    }
}

/// The event schema an action emits.
pub open spec fn candidate_event_schema(action: CandidateAction) -> &'static str {
    match action {
        CandidateAction::Register => REGISTERED_EVENT_SCHEMA,
        CandidateAction::Refresh => REFRESHED_EVENT_SCHEMA,
        CandidateAction::Dismiss => DISMISSED_EVENT_SCHEMA,
        CandidateAction::Confirm => CONFIRMED_EVENT_SCHEMA,
    }
}

/// The response schema an action answers with.
pub open spec fn candidate_response_schema(action: CandidateAction) -> &'static str {
    match action {
        CandidateAction::Register => REGISTER_RESPONSE_SCHEMA,
        CandidateAction::Refresh => REFRESH_RESPONSE_SCHEMA,
        CandidateAction::Dismiss => DISMISS_RESPONSE_SCHEMA,
        CandidateAction::Confirm => CONFIRM_RESPONSE_SCHEMA,
    }
}

impl CandidateAction {
    /// Reads the candidate action of a capability coordinate.
    pub fn of_capability(id: &str) -> (r: Option<CandidateAction>)
        ensures
            r == candidate_action_of(id@),
    {
        if str_eq(id, REGISTER_CAPABILITY) {
            Some(CandidateAction::Register)
        } else if str_eq(id, REFRESH_CAPABILITY) {
            Some(CandidateAction::Refresh)
        } else if str_eq(id, DISMISS_CAPABILITY) {
            Some(CandidateAction::Dismiss)
        } else if str_eq(id, CONFIRM_CAPABILITY) {
            Some(CandidateAction::Confirm)
        } else {
            None
        }
    }

    fn event_type(self) -> (r: &'static str)
        ensures
            r == candidate_event_type(self),
    {
        match self {
            CandidateAction::Register => REGISTERED_EVENT_TYPE,
            CandidateAction::Refresh => REFRESHED_EVENT_TYPE,
            CandidateAction::Dismiss => DISMISSED_EVENT_TYPE,
            CandidateAction::Confirm => CONFIRMED_EVENT_TYPE,
        }
    }

    fn event_schema(self) -> (r: &'static str)
        ensures
            r == candidate_event_schema(self),
    {
        match self {
            CandidateAction::Register => REGISTERED_EVENT_SCHEMA,
            CandidateAction::Refresh => REFRESHED_EVENT_SCHEMA,
            CandidateAction::Dismiss => DISMISSED_EVENT_SCHEMA,
            CandidateAction::Confirm => CONFIRMED_EVENT_SCHEMA,
        }
    }

    fn response_schema(self) -> (r: &'static str)
        ensures
            r == candidate_response_schema(self),
    {
        match self {
            CandidateAction::Register => REGISTER_RESPONSE_SCHEMA,
            CandidateAction::Refresh => REFRESH_RESPONSE_SCHEMA,
            CandidateAction::Dismiss => DISMISS_RESPONSE_SCHEMA,
            CandidateAction::Confirm => CONFIRM_RESPONSE_SCHEMA,
        }
    }
}

/// Whether `id` is one of the six published mutation coordinates.
pub fn is_mutation_capability_id(id: &str) -> (r: bool)
    ensures
        r == is_mutation_capability(id@),
{
    CandidateAction::of_capability(id).is_some() || str_eq(id, MERGE_CAPABILITY) || str_eq(id, UNMERGE_CAPABILITY)
}

/// The coordinates a request was issued under.
pub struct RequestCoordinates {
    pub module_id: String,
    pub capability_id: String,
    pub capability_version: String,
}

/// Whether `d` is an Identity Resolution mutation of this module invoked
/// under exactly its own coordinate and version.
pub open spec fn candidate_definition_matches(d: CapabilityDefinition, request: RequestCoordinates) -> bool {
    &&& is_mutation_capability(d.capability_id@)
    &&& d.owner_module_id@ == MODULE_ID@
    &&& request.module_id@ == MODULE_ID@
    &&& d.capability_id@ == request.capability_id@
    &&& d.capability_version@ == request.capability_version@
}

/// Candidate match evidence, as far as the planners read it: the two
/// Parties compared and the versions of them that were compared.
pub struct EvidencePair {
    pub left_party_id: String,
    pub left_party_version: i64,
    pub right_party_id: String,
    pub right_party_version: i64,
}

/// A candidate request, as plain values: the case it names, if any, and
/// the evidence it carries, if any.
pub struct CandidateCommand {
    pub case_id: Option<String>,
    pub evidence: Option<EvidencePair>,
}

/// What the planner reads of a stored case: the record's identity and
/// version, and those of the case decoded from it.
pub struct CandidateCaseRecord {
    pub record_id: String,
    pub version: i64,
    pub decoded_case_id: String,
    pub decoded_version: i64,
}

/// Where a candidate mutation lands: a case that must not exist yet, keyed
/// by the evidence pair, or the existing case it names.
#[derive(Debug, Clone, PartialEq, Eq)]
pub enum CandidateTarget {
    NewForPair,
    Existing(String),
}

/// What a candidate plan writes: the action, the version it updates from
/// (none for a registration), its event and response, and the Parties that
/// get an access path to the case.
pub struct CandidatePlan {
    pub action: CandidateAction,
    pub expected_version: Option<i64>,
    pub event_type: &'static str,
    pub event_schema: &'static str,
    pub response_schema: &'static str,
    pub party_links: Vec<String>,
}

/// A stored case is well formed when the decoded case is the record it was
/// read from, at that record's version.
pub open spec fn case_record_valid(c: CandidateCaseRecord) -> bool {
    c.decoded_case_id@ == c.record_id@ && c.decoded_version == c.version
}

/// The candidate planning decision, in the order the planner checks.
pub open spec fn candidate_outcome(definition_matches: bool, action: Option<CandidateAction>,
    current: Option<CandidateCaseRecord>, command: CandidateCommand) -> Result<CandidateAction, IdentityResolutionError>
{
    if !definition_matches {
        Err(IdentityResolutionError::MutationPlanInvalid)
    } else {
        match action {
            None => Err(IdentityResolutionError::CapabilityUnsupported),
            Some(CandidateAction::Register) => if current is Some {
                Err(IdentityResolutionError::MutationPlanInvalid)
            } else if command.evidence is None {
                Err(IdentityResolutionError::MissingReference)
            } else {
                Ok(CandidateAction::Register)
            },
            Some(a) => match current {
                None => Err(IdentityResolutionError::MutationPlanInvalid),
                Some(c) => match command.case_id {
                    None => Err(IdentityResolutionError::MissingReference),
                    Some(id) => if id@ != c.record_id@ {
                        Err(IdentityResolutionError::MutationPlanInvalid)
                    } else if !case_record_valid(c) {
                        Err(IdentityResolutionError::PersistedCaseIdentityInvalid)
                    } else if a == CandidateAction::Refresh && command.evidence is None {
                        Err(IdentityResolutionError::MissingReference)
                    } else {
                        Ok(a)
                    },
                },
            },
        }
    }
}

/// The Parties that get an access path to a newly registered case.
pub open spec fn registration_links(action: CandidateAction, command: CandidateCommand) -> Seq<Seq<char>> {
    if action == CandidateAction::Register {
        seq![command.evidence->0.left_party_id@, command.evidence->0.right_party_id@]
    } else {
        Seq::empty()
    }
}

/// Plans duplicate-candidate case mutations, adding for each first
/// registration the access paths from both Parties to the case.
#[derive(Debug, Default, Clone, Copy)]
pub struct IdentityResolutionCapabilityPlanner;

impl IdentityResolutionCapabilityPlanner {
    /// Refuses any definition that is not a mutation of this module invoked
    /// under its own coordinate and version.
    pub fn ensure_definition(&self, definition: &CapabilityDefinition, request: &RequestCoordinates)
        -> (r: Result<(), IdentityResolutionError>)
        ensures
            r is Ok <==> candidate_definition_matches(*definition, *request),
            r is Err ==> r == Err::<(), IdentityResolutionError>(IdentityResolutionError::MutationPlanInvalid),
    {
        if !is_mutation_capability_id(definition.capability_id.as_str())
            || !str_eq(definition.owner_module_id.as_str(), MODULE_ID)
            || !str_eq(request.module_id.as_str(), MODULE_ID)
            || !str_eq(definition.capability_id.as_str(), request.capability_id.as_str())
            || !str_eq(definition.capability_version.as_str(), request.capability_version.as_str())
        {
            return Err(IdentityResolutionError::MutationPlanInvalid);
        }
        Ok(())
    }

    /// The case a candidate command lands on: a registration needs its
    /// evidence, every other action the case it names.
    pub fn target(&self, definition: &CapabilityDefinition, request: &RequestCoordinates, command: &CandidateCommand)
        -> (r: Result<CandidateTarget, IdentityResolutionError>)
        ensures
            !candidate_definition_matches(*definition, *request) ==> r == Err::<CandidateTarget, IdentityResolutionError>(
                IdentityResolutionError::MutationPlanInvalid),
            candidate_definition_matches(*definition, *request) ==> match candidate_action_of(definition.capability_id@) {
                None => r == Err::<CandidateTarget, IdentityResolutionError>(IdentityResolutionError::CapabilityUnsupported),
                Some(CandidateAction::Register) => if command.evidence is Some {
                    r == Ok::<CandidateTarget, IdentityResolutionError>(CandidateTarget::NewForPair)
                } else {
                    r == Err::<CandidateTarget, IdentityResolutionError>(IdentityResolutionError::MissingReference)
                },
                Some(_) => match command.case_id {
                    Some(id) => (r matches Ok(CandidateTarget::Existing(t)) && t@ == id@),
                    None => r == Err::<CandidateTarget, IdentityResolutionError>(IdentityResolutionError::MissingReference),
                },
            },
    {
        self.ensure_definition(definition, request)?;
        match CandidateAction::of_capability(definition.capability_id.as_str()) {
            None => Err(IdentityResolutionError::CapabilityUnsupported),
            Some(CandidateAction::Register) => if command.evidence.is_some() {
                Ok(CandidateTarget::NewForPair)
            } else {
                Err(IdentityResolutionError::MissingReference)
            },
            Some(_) => match &command.case_id {
                Some(id) => Ok(CandidateTarget::Existing(id.clone())),
                None => Err(IdentityResolutionError::MissingReference),
            },
        }
    }

    /// Admits a candidate command against the stored case: a registration
    /// must find no case, every other action the very case it names, stored
    /// at its own identity and version.
    pub fn plan(
        &self,
        definition: &CapabilityDefinition,
        request: &RequestCoordinates,
        current: Option<&CandidateCaseRecord>,
        command: &CandidateCommand,
    ) -> (r: Result<CandidatePlan, IdentityResolutionError>)
        ensures
            match (r, candidate_outcome(candidate_definition_matches(*definition, *request),
                candidate_action_of(definition.capability_id@),
                match current { Some(c) => Some(*c), None => None }, *command)) {
                (Ok(p), Ok(action)) => {
                    &&& p.action == action
                    &&& p.event_type == candidate_event_type(action)
                    &&& p.event_schema == candidate_event_schema(action)
                    &&& p.response_schema == candidate_response_schema(action)
                    &&& p.expected_version == (if action == CandidateAction::Register { None } else {
                        Some(current->0.version) })
                    &&& p.party_links@.map_values(|s: String| s@) == registration_links(action, *command)
                },
                (Err(e), Err(f)) => e == f,
                _ => false,
            },
    {
        if self.ensure_definition(definition, request).is_err() {
            return Err(IdentityResolutionError::MutationPlanInvalid);
        }
        let action = match CandidateAction::of_capability(definition.capability_id.as_str()) {
            None => return Err(IdentityResolutionError::CapabilityUnsupported),
            Some(action) => action,
        };
        let mut party_links: Vec<String> = Vec::new();
        let expected_version = if action == CandidateAction::Register {
            if current.is_some() {
                return Err(IdentityResolutionError::MutationPlanInvalid);
            }
            let evidence = match &command.evidence {
                None => return Err(IdentityResolutionError::MissingReference),
                Some(e) => e,
            };
            party_links.push(evidence.left_party_id.clone());
            party_links.push(evidence.right_party_id.clone());
            None
        } else {
            let case = match current {
                None => return Err(IdentityResolutionError::MutationPlanInvalid),
                Some(c) => c,
            };
            let requested = match &command.case_id {
                None => return Err(IdentityResolutionError::MissingReference),
                Some(id) => id,
            };
            if !str_eq(requested.as_str(), case.record_id.as_str()) {
                return Err(IdentityResolutionError::MutationPlanInvalid);
            }
            if !str_eq(case.decoded_case_id.as_str(), case.record_id.as_str()) || case.decoded_version != case.version {
                return Err(IdentityResolutionError::PersistedCaseIdentityInvalid);
            }
            if action == CandidateAction::Refresh && command.evidence.is_none() {
                return Err(IdentityResolutionError::MissingReference);
            }
            Some(case.version)
        };
        proof {
            assert(party_links@.map_values(|s: String| s@) =~= registration_links(action, *command));
        }
        Ok(CandidatePlan {
            action,
            expected_version,
            event_type: action.event_type(),
            event_schema: action.event_schema(),
            response_schema: action.response_schema(),
            party_links,
        })
    }
}

/// Schema of the payload an access-path relationship carries.
pub const PARTY_LINK_SCHEMA_ID: &'static str = "crm.identity_resolution.candidate.party-link";
/// Version of that schema.
pub const PARTY_LINK_SCHEMA_VERSION: &'static str = "1.0.0";
/// Largest payload an access-path relationship may carry.
pub const PARTY_LINK_MAXIMUM_BYTES: u64 = 1024;
/// Descriptor hash of the access-path payload schema.
pub const PARTY_LINK_DESCRIPTOR_HASH: [u8; 32] = [
    37, 183, 202, 14, 177, 222, 72, 169, 159, 53, 204, 23, 148, 41, 31, 224, 90, 184, 197, 78, 56, 196, 177, 36, 3,
    152, 108, 209, 14, 197, 73, 111,
];

/// One access-path relationship from a Party to its candidate case: which
/// relationship, from which Party record to which case record, and the
/// personal JSON payload it carries.
pub struct PartyLinkMutation {
    pub relationship_type: &'static str,
    pub source_record_type: &'static str,
    pub source_record_id: String,
    pub target_record_type: String,
    pub target_record_id: String,
    pub payload_schema_id: &'static str,
    pub payload_schema_version: &'static str,
    pub payload_descriptor_hash: [u8; 32],
    pub payload_maximum_bytes: u64,
    pub payload_data_class: DataClass,
    /// The payload itself: the empty JSON object `{}`.
    pub payload_bytes: Vec<u8>,
}

/// `l` links the Party `party` to the case record `target_type`/`target_id`
/// with an empty personal JSON payload under the access-path schema.
pub open spec fn is_party_link(l: PartyLinkMutation, party: Seq<char>, target_type: Seq<char>, target_id: Seq<char>)
    -> bool {
    &&& l.relationship_type == PARTY_CANDIDATE_RELATIONSHIP_TYPE
    &&& l.source_record_type == PARTY_CANDIDATE_SOURCE_RECORD_TYPE
    &&& l.source_record_id@ == party
    &&& l.target_record_type@ == target_type
    &&& l.target_record_id@ == target_id
    &&& l.payload_schema_id == PARTY_LINK_SCHEMA_ID
    &&& l.payload_schema_version == PARTY_LINK_SCHEMA_VERSION
    &&& l.payload_descriptor_hash == PARTY_LINK_DESCRIPTOR_HASH
    &&& l.payload_maximum_bytes == PARTY_LINK_MAXIMUM_BYTES
    &&& l.payload_data_class == DataClass::Personal
    &&& l.payload_bytes@ == seq![123u8, 125u8]
}

/// The access-path relationships a plan adds: one per Party of
/// `party_links`, in order, each from that Party's record to the case record
/// `target_record_type`/`target_record_id` the plan targets. A first
/// registration's plan names both Parties of its evidence pair; every other
/// plan names none, so it adds no relationship.
pub fn party_link_mutations(party_links: &Vec<String>, target_record_type: &str, target_record_id: &str)
    -> (r: Vec<PartyLinkMutation>)
    ensures
        r@.len() == party_links@.len(),
        forall|i: int| 0 <= i < r@.len() ==> is_party_link(#[trigger] r@[i], party_links@[i]@,
            target_record_type@, target_record_id@),
{
    let mut out: Vec<PartyLinkMutation> = Vec::new();
    let mut i: usize = 0;
    while i < party_links.len()
        invariant
            i <= party_links@.len(),
            out@.len() == i,
            forall|j: int| 0 <= j < i ==> is_party_link(#[trigger] out@[j], party_links@[j]@,
                target_record_type@, target_record_id@),
        decreases party_links@.len() - i,
    {
        let payload: Vec<u8> = vec![123u8, 125u8];
        out.push(PartyLinkMutation {
            relationship_type: PARTY_CANDIDATE_RELATIONSHIP_TYPE,
            source_record_type: PARTY_CANDIDATE_SOURCE_RECORD_TYPE,
            source_record_id: party_links[i].clone(),
            target_record_type: target_record_type.to_owned(),
            target_record_id: target_record_id.to_owned(),
            payload_schema_id: PARTY_LINK_SCHEMA_ID,
            payload_schema_version: PARTY_LINK_SCHEMA_VERSION,
            payload_descriptor_hash: PARTY_LINK_DESCRIPTOR_HASH,
            payload_maximum_bytes: PARTY_LINK_MAXIMUM_BYTES,
            payload_data_class: DataClass::Personal,
            payload_bytes: payload,
        });
        i = i + 1;
    }
    out
}

/// A first registration writes exactly two access paths, from the left and
/// then the right Party of its evidence to the case it registers; no other
/// candidate action writes one.
pub proof fn registrations_link_both_parties_to_the_case(action: CandidateAction, command: CandidateCommand,
    links: Seq<PartyLinkMutation>, target_type: Seq<char>, target_id: Seq<char>)
    requires
        links.len() == registration_links(action, command).len(),
        forall|i: int| 0 <= i < links.len() ==> is_party_link(#[trigger] links[i],
            registration_links(action, command)[i], target_type, target_id),
    ensures
        action == CandidateAction::Register ==> links.len() == 2 && is_party_link(links[0],
            command.evidence->0.left_party_id@, target_type, target_id) && is_party_link(links[1],
            command.evidence->0.right_party_id@, target_type, target_id),
        action != CandidateAction::Register ==> links.len() == 0,
{
    if action == CandidateAction::Register {
        assert(is_party_link(links[0], registration_links(action, command)[0], target_type, target_id));
        assert(is_party_link(links[1], registration_links(action, command)[1], target_type, target_id));
    }
}

/// Reads a wire match score: it must fit the basis-point width.
pub fn evidence_score(score_basis_points: u32) -> (r: Result<u16, IdentityResolutionError>)
    ensures
        score_basis_points <= u16::MAX ==> r == Ok::<u16, IdentityResolutionError>(score_basis_points as u16),
        score_basis_points > u16::MAX ==> r == Err::<u16, IdentityResolutionError>(IdentityResolutionError::ValueOutOfRange),
{
    if score_basis_points > 0xffffu32 {
        return Err(IdentityResolutionError::ValueOutOfRange);
    }
    Ok(score_basis_points as u16)
}

/// Reads a wire signal contribution: it must fit the signed basis-point width.
pub fn signal_contribution(contribution_basis_points: i32) -> (r: Result<i16, IdentityResolutionError>)
    ensures
        i16::MIN <= contribution_basis_points <= i16::MAX ==> r == Ok::<i16, IdentityResolutionError>(
            contribution_basis_points as i16),
        !(i16::MIN <= contribution_basis_points <= i16::MAX) ==> r == Err::<i16, IdentityResolutionError>(
            IdentityResolutionError::ValueOutOfRange),
{
    if contribution_basis_points < -32768i32 || contribution_basis_points > 32767i32 {
        return Err(IdentityResolutionError::ValueOutOfRange);
    }
    Ok(contribution_basis_points as i16)
}

/// One Party that candidate evidence compared, at the version it compared.
pub struct PartyVersionExpectation {
    pub party_ref: String,
    pub expected_version: i64,
}

/// The Parties whose live versions candidate evidence must match.
pub struct EvidenceReferenceScope {
    pub parties: Vec<PartyVersionExpectation>,
}

/// The scope of a candidate request: registration and refresh carry
/// evidence over two Parties; dismissal and confirmation carry none.
pub open spec fn scope_outcome(action: Option<CandidateAction>, evidence: Option<EvidencePair>)
    -> Result<Option<Seq<(Seq<char>, i64)>>, IdentityResolutionError>
{
    match action {
        None => Err(IdentityResolutionError::CapabilityUnsupported),
        Some(CandidateAction::Register) | Some(CandidateAction::Refresh) => match evidence {
            None => Err(IdentityResolutionError::MissingReference),
            Some(e) => Ok(Some(seq![(e.left_party_id@, e.left_party_version), (e.right_party_id@, e.right_party_version)])),
        },
        _ => Ok(None),
    }
}

/// The plain view of a scope: each Party with its expected version.
pub open spec fn scope_view(s: Seq<PartyVersionExpectation>) -> Seq<(Seq<char>, i64)> {
    s.map_values(|p: PartyVersionExpectation| (p.party_ref@, p.expected_version))
}

/// The Parties whose live versions a candidate request must be checked
/// against before it executes.
pub fn evidence_reference_scope(capability_id: &str, evidence: &Option<EvidencePair>)
    -> (r: Result<Option<EvidenceReferenceScope>, IdentityResolutionError>)
    ensures
        match (r, scope_outcome(candidate_action_of(capability_id@), *evidence)) {
            (Ok(Some(s)), Ok(Some(t))) => scope_view(s.parties@) == t,
            (Ok(None), Ok(None)) => true,
            (Err(e), Err(f)) => e == f,
            _ => false,
        },
{
    match CandidateAction::of_capability(capability_id) {
        None => Err(IdentityResolutionError::CapabilityUnsupported),
        Some(CandidateAction::Register) | Some(CandidateAction::Refresh) => match evidence {
            None => Err(IdentityResolutionError::MissingReference),
            Some(e) => {
                let mut parties = Vec::new();
                parties.push(PartyVersionExpectation { party_ref: e.left_party_id.clone(), expected_version: e.left_party_version });
                parties.push(PartyVersionExpectation { party_ref: e.right_party_id.clone(), expected_version: e.right_party_version });
                proof {
                    assert(scope_view(parties@) =~= seq![(e.left_party_id@, e.left_party_version),
                        (e.right_party_id@, e.right_party_version)]);
                }
                Ok(Some(EvidenceReferenceScope { parties }))
            },
        },
        _ => Ok(None),
    }
}

/// The verdict on one Party of the evidence, given its live version if the
/// Party exists in the tenant.
pub open spec fn party_verdict(expected: i64, actual: Option<i64>) -> Result<(), IdentityResolutionError> {
    match actual {
        None => Err(IdentityResolutionError::ReferenceUnavailable),
        Some(v) => if v != expected { Err(IdentityResolutionError::EvidenceStale) } else { Ok(()) },
    }
}

/// Checks one Party of the evidence against its live version.
pub fn check_party_version(expectation: &PartyVersionExpectation, actual: Option<i64>)
    -> (r: Result<(), IdentityResolutionError>)
    ensures
        r == party_verdict(expectation.expected_version, actual),
{
    match actual {
        None => Err(IdentityResolutionError::ReferenceUnavailable),
        Some(v) => if v != expectation.expected_version { Err(IdentityResolutionError::EvidenceStale) } else { Ok(()) },
    }
}

/// Whether a scope has the shape evidence needs: two distinct Parties.
pub open spec fn scope_shape_valid(parties: Seq<PartyVersionExpectation>) -> bool {
    parties.len() == 2 && parties[0].party_ref@ != parties[1].party_ref@
}

/// Checks the shape of a scope before any Party is read: two distinct
/// Parties.
pub fn check_scope_shape(scope: &EvidenceReferenceScope) -> (r: Result<(), IdentityResolutionError>)
    ensures
        r is Ok <==> scope_shape_valid(scope.parties@),
        r is Err ==> r == Err::<(), IdentityResolutionError>(IdentityResolutionError::ReferenceUnavailable),
{
    if scope.parties.len() != 2
        || str_eq(scope.parties[0].party_ref.as_str(), scope.parties[1].party_ref.as_str())
    {
        return Err(IdentityResolutionError::ReferenceUnavailable);
    }
    Ok(())
}

/// The scope can be checked one read at a time: a malformed scope is
/// refused whatever the Parties' versions, and when the first Party fails
/// its verdict stands whatever the second Party's version is, so neither
/// needs to be read; otherwise the second Party decides.
pub proof fn scope_checks_stop_at_the_first_failure(parties: Seq<PartyVersionExpectation>, actual: Seq<Option<i64>>,
    other: Seq<Option<i64>>)
    requires
        actual.len() == parties.len(),
        other.len() == parties.len(),
    ensures
        !scope_shape_valid(parties) ==> scope_verdict(parties, actual) == scope_verdict(parties, other),
        scope_shape_valid(parties) && party_verdict(parties[0].expected_version, actual[0]) is Err
            && other[0] == actual[0] ==> scope_verdict(parties, actual) == scope_verdict(parties, other),
        scope_shape_valid(parties) && party_verdict(parties[0].expected_version, actual[0]) is Ok
            ==> scope_verdict(parties, actual) == party_verdict(parties[1].expected_version, actual[1]),
{
}

/// The verdict on a whole scope, given the live version of each Party in
/// scope order: the first failing Party decides.
pub open spec fn scope_verdict(parties: Seq<PartyVersionExpectation>, actual: Seq<Option<i64>>)
    -> Result<(), IdentityResolutionError>
{
    if !scope_shape_valid(parties) {
        Err(IdentityResolutionError::ReferenceUnavailable)
    } else if party_verdict(parties[0].expected_version, actual[0]) is Err {
        party_verdict(parties[0].expected_version, actual[0])
    } else {
        party_verdict(parties[1].expected_version, actual[1])
    }
}

/// Checks candidate evidence against the live versions of its Parties:
/// the scope must name two distinct Parties, each of which must exist at
/// exactly the version the evidence compared. `actual` holds, in scope
/// order, the live version of each Party, or `None` where it is missing.
pub fn validate_evidence_scope(scope: &EvidenceReferenceScope, actual: &Vec<Option<i64>>)
    -> (r: Result<(), IdentityResolutionError>)
    requires
        actual@.len() == scope.parties@.len(),
    ensures
        r == scope_verdict(scope.parties@, actual@),
{
    if scope.parties.len() != 2
        || str_eq(scope.parties[0].party_ref.as_str(), scope.parties[1].party_ref.as_str())
    {
        return Err(IdentityResolutionError::ReferenceUnavailable);
    }
    check_party_version(&scope.parties[0], actual[0])?;
    check_party_version(&scope.parties[1], actual[1])
}

/// The evidence versions recorded on a stored candidate case.
pub struct CandidateEvidenceVersions {
    pub case_id: String,
    pub parties: Vec<PartyVersionExpectation>,
}

/// The verdict on a terminal decision over `case_id`, given the case's
/// recorded evidence and the live version of each of its Parties.
pub open spec fn current_evidence_verdict(case_id: Seq<char>, current: Option<CandidateEvidenceVersions>,
    actual: Seq<Option<i64>>) -> Result<(), IdentityResolutionError>
{
    match current {
        None => Err(IdentityResolutionError::ReferenceUnavailable),
        Some(c) => if c.case_id@ != case_id || c.parties@.len() != 2 {
            Err(IdentityResolutionError::ReferenceUnavailable)
        } else {
            scope_verdict(c.parties@, actual)
        },
    }
}

/// The stored evidence versions a reference points at, by value.
pub open spec fn stored_versions(current: Option<&CandidateEvidenceVersions>) -> Option<CandidateEvidenceVersions> {
    match current {
        Some(c) => Some(*c),
        None => None,
    }
}

/// The scope a terminal decision re-checks, before any Party is read: the
/// stored case must exist, be the one named and record two Parties; its
/// recorded Parties and versions are the scope. Checking that scope against
/// the live versions gives the same verdict as
/// [`validate_current_candidate_evidence`].
pub fn candidate_evidence_scope(case_id: &str, current: Option<&CandidateEvidenceVersions>)
    -> (r: Result<EvidenceReferenceScope, IdentityResolutionError>)
    ensures
        match current {
            Some(c) if c.case_id@ == case_id@ && c.parties@.len() == 2 => match r {
                Ok(scope) => scope.parties@.len() == 2 && forall|i: int| 0 <= i < 2 ==> (
                    #[trigger] scope.parties@[i]).party_ref@ == c.parties@[i].party_ref@
                    && scope.parties@[i].expected_version == c.parties@[i].expected_version,
                Err(_) => false,
            },
            _ => r == Err::<EvidenceReferenceScope, IdentityResolutionError>(
                IdentityResolutionError::ReferenceUnavailable),
        },
        forall|actual: Seq<Option<i64>>| actual.len() == 2 ==> #[trigger] current_evidence_verdict(case_id@,
            stored_versions(current), actual) == match r {
            Ok(scope) => scope_verdict(scope.parties@, actual),
            Err(e) => Err(e),
        },
{
    let c = match current {
        None => return Err(IdentityResolutionError::ReferenceUnavailable),
        Some(c) => c,
    };
    if !str_eq(c.case_id.as_str(), case_id) || c.parties.len() != 2 {
        return Err(IdentityResolutionError::ReferenceUnavailable);
    }
    let scope = EvidenceReferenceScope { parties: clone_expectations(&c.parties) };
    proof {
        assert forall|actual: Seq<Option<i64>>| actual.len() == 2 implies scope_verdict(c.parties@, actual)
            == scope_verdict(scope.parties@, actual) by {
            assert(scope.parties@[0].party_ref@ == c.parties@[0].party_ref@);
            assert(scope.parties@[1].party_ref@ == c.parties@[1].party_ref@);
        }
    }
    Ok(scope)
}

/// Re-checks a stored case's current evidence against live Party versions
/// before a terminal decision: the case must exist, be the one named, and
/// its evidence must still match.
pub fn validate_current_candidate_evidence(case_id: &str, current: Option<&CandidateEvidenceVersions>,
    actual: &Vec<Option<i64>>) -> (r: Result<(), IdentityResolutionError>)
    requires
        current matches Some(c) ==> actual@.len() == c.parties@.len(),
    ensures
        r == current_evidence_verdict(case_id@, match current { Some(c) => Some(*c), None => None }, actual@),
{
    let c = match current {
        None => return Err(IdentityResolutionError::ReferenceUnavailable),
        Some(c) => c,
    };
    if !str_eq(c.case_id.as_str(), case_id) || c.parties.len() != 2 {
        return Err(IdentityResolutionError::ReferenceUnavailable);
    }
    let scope = EvidenceReferenceScope { parties: clone_expectations(&c.parties) };
    validate_evidence_scope(&scope, actual)
}

fn clone_expectations(parties: &Vec<PartyVersionExpectation>) -> (r: Vec<PartyVersionExpectation>)
    ensures
        r@.len() == parties@.len(),
        forall|i: int| 0 <= i < r@.len() ==> #[trigger] r@[i].party_ref@ == parties@[i].party_ref@
            && r@[i].expected_version == parties@[i].expected_version,
{
    let mut out: Vec<PartyVersionExpectation> = Vec::new();
    let mut i: usize = 0;
    while i < parties.len()
        invariant
            i <= parties@.len(),
            out@.len() == i,
            forall|j: int| 0 <= j < i ==> #[trigger] out@[j].party_ref@ == parties@[j].party_ref@
                && out@[j].expected_version == parties@[j].expected_version,
        decreases parties@.len() - i,
    {
        out.push(PartyVersionExpectation {
            party_ref: parties[i].party_ref.clone(),
            expected_version: parties[i].expected_version,
        });
        i = i + 1;
    }
    out
}

/// Which checks the composition boundary runs before a mutation executes.
#[derive(Debug, Clone, Copy, PartialEq, Eq, Structural)]
pub struct CompositionChecks {
    /// Check the request's evidence against live Party versions.
    pub evidence_scope: bool,
    /// Re-check the stored case's current evidence (terminal decisions).
    pub current_case_evidence: bool,
}

/// The checks the composition boundary runs for a capability: none of it
/// runs for a coordinate this module does not publish.
pub fn composition_checks(capability_id: &str) -> (r: Result<CompositionChecks, IdentityResolutionError>)
    ensures
        !is_mutation_capability(capability_id@) ==> r == Err::<CompositionChecks, IdentityResolutionError>(
            IdentityResolutionError::CompositionCapabilityUnsupported),
        is_mutation_capability(capability_id@) ==> r == Ok::<CompositionChecks, IdentityResolutionError>(CompositionChecks {
            evidence_scope: candidate_action_of(capability_id@) == Some(CandidateAction::Register)
                || candidate_action_of(capability_id@) == Some(CandidateAction::Refresh),
            current_case_evidence: candidate_action_of(capability_id@) == Some(CandidateAction::Dismiss)
                || candidate_action_of(capability_id@) == Some(CandidateAction::Confirm),
        }),
{
    if !is_mutation_capability_id(capability_id) {
        return Err(IdentityResolutionError::CompositionCapabilityUnsupported);
    }
    let action = CandidateAction::of_capability(capability_id);
    Ok(CompositionChecks {
        evidence_scope: action == Some(CandidateAction::Register) || action == Some(CandidateAction::Refresh),
        current_case_evidence: action == Some(CandidateAction::Dismiss) || action == Some(CandidateAction::Confirm),
    })
}

/// A terminal decision re-checks exactly what a fresh check of the case's
/// recorded evidence would: the recorded Parties at their recorded versions.
pub proof fn recheck_is_scope_check(case_id: Seq<char>, current: CandidateEvidenceVersions, actual: Seq<Option<i64>>)
    requires
        current.case_id@ == case_id,
        current.parties@.len() == 2,
    ensures
        current_evidence_verdict(case_id, Some(current), actual) == scope_verdict(current.parties@, actual),
{
}

/// Evidence passes exactly when it names two distinct Parties that both
/// exist at the versions it compared; a missing Party is reported before a
/// stale one that follows it.
pub proof fn scope_verdict_is_exact(parties: Seq<PartyVersionExpectation>, actual: Seq<Option<i64>>)
    requires
        actual.len() == parties.len(),
    ensures
        scope_verdict(parties, actual) is Ok <==> scope_shape_valid(parties)
            && actual[0] == Some(parties[0].expected_version) && actual[1] == Some(parties[1].expected_version),
        scope_shape_valid(parties) && actual[0] is None ==> scope_verdict(parties, actual)
            == Err::<(), IdentityResolutionError>(IdentityResolutionError::ReferenceUnavailable),
{
}


/// A registration is planned only when no case exists yet and the request
/// carries evidence; every other candidate action only on the stored case
/// the request names, stored at its own identity and version, and a refresh
/// only with new evidence.
pub proof fn candidate_actions_land_on_the_named_case(definition_matches: bool, action: Option<CandidateAction>,
    current: Option<CandidateCaseRecord>, command: CandidateCommand)
    ensures
        candidate_outcome(definition_matches, action, current, command) matches Ok(a) ==> (definition_matches
            && action == Some(a)),
        candidate_outcome(definition_matches, action, current, command) == Ok::<CandidateAction, IdentityResolutionError>(
            CandidateAction::Register) ==> current is None && command.evidence is Some,
        (candidate_outcome(definition_matches, action, current, command) matches Ok(a) && a
            != CandidateAction::Register) ==> (current is Some && command.case_id is Some && command.case_id->0@
            == current->0.record_id@ && current->0.decoded_case_id@ == current->0.record_id@
            && current->0.decoded_version == current->0.version),
        candidate_outcome(definition_matches, action, current, command) == Ok::<CandidateAction, IdentityResolutionError>(
            CandidateAction::Refresh) ==> command.evidence is Some,
        action == Some(CandidateAction::Register) && current is Some ==> candidate_outcome(definition_matches, action,
            current, command) is Err,
{
}

} // verus!
