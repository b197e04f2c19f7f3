//! Field visibility and finding filters of the Data Quality queries: the
//! fields each query may disclose of each record type, the deployment's
//! hidden-field configuration, the owner-projection visibility decision, and
//! the strict finding filters of the list queries.
use vstd::prelude::*;
use crate::dq_model::{
    FindingStatus, QualitySeverity, MODULE_ID, PARTY_RULE_SET_VERSION_RECORD_TYPE, PARTY_EVALUATION_JOB_RECORD_TYPE,
    FINDING_RECORD_TYPE, FINDING_OBSERVATION_RECORD_TYPE, PARTY_COMPLETENESS_RESULT_RECORD_TYPE, status_from_wire,
    severity_from_wire, status_to_wire, severity_to_wire,
};
use crate::dq_query::{
    QueryError, GET_PARTY_RULE_SET_CAPABILITY, GET_PARTY_COMPLETENESS_PROFILE_CAPABILITY,
    GET_PARTY_EVALUATION_JOB_CAPABILITY, GET_FINDING_CAPABILITY, LIST_FINDINGS_BY_PARTY_CAPABILITY,
    LIST_ASSIGNED_FINDINGS_CAPABILITY, GET_PARTY_COMPLETENESS_RESULT_CAPABILITY, MAXIMUM_VISIBILITY_SCAN_RECORDS,
};
use crate::text::{
    names_view, owned_strings, push_str, split_on, split_spec, str_eq, strings_contain, strings_view, trim_whitespace,
    trimmed,
};

verus! {

pub const DEFINITION_FIELDS: [&'static str; 1] = ["definition"];
pub const EVALUATION_JOB_FIELDS: [&'static str; 10] = [
    "party_ref", "rule_set_version_ref", "completeness_profile_version_ref", "status",
    "evaluated_party_resource_version", "evaluated_rules", "failed_rules", "created_at", "updated_at",
    "resource_version",
];
pub const FINDING_FIELDS: [&'static str; 14] = [
    "party_ref", "rule_set_version_ref", "rule_key", "severity", "status", "current_observation_ref",
    "current_observation", "evaluated_party_resource_version", "assigned_actor_id", "waiver_reason", "created_at",
    "updated_at", "resource_version", "remediated_by_rule_outcome_ref",
];
pub const FINDING_OBSERVATION_FIELDS: [&'static str; 7] = [
    "finding_ref", "party_ref", "rule_set_version_ref", "rule_key", "evaluated_party_resource_version", "reason_code",
    "observed_at",
];
pub const COMPLETENESS_RESULT_FIELDS: [&'static str; 8] = [
    "evaluation_job_ref", "party_ref", "evaluated_party_resource_version", "completeness_profile_version_ref",
    "score_basis_points", "components", "computed_at", "resource_version",
];

/// The fields a query capability may disclose of a record type: the
/// definition of a rule set (also through a completeness-profile query),
/// and the public fields of an evaluation job, a finding (through any
/// finding query), an observation (through the finding query) and a
/// completeness result; nothing otherwise.
pub open spec fn visible_field_names(capability: Seq<char>, record_type: Seq<char>) -> Seq<Seq<char>> {
    if (capability == GET_PARTY_RULE_SET_CAPABILITY@ || capability == GET_PARTY_COMPLETENESS_PROFILE_CAPABILITY@)
        && record_type == PARTY_RULE_SET_VERSION_RECORD_TYPE@ {
        names_view(DEFINITION_FIELDS@)
    } else if capability == GET_PARTY_EVALUATION_JOB_CAPABILITY@ && record_type == PARTY_EVALUATION_JOB_RECORD_TYPE@ {
        names_view(EVALUATION_JOB_FIELDS@)
    } else if (capability == GET_FINDING_CAPABILITY@ || capability == LIST_FINDINGS_BY_PARTY_CAPABILITY@
        || capability == LIST_ASSIGNED_FINDINGS_CAPABILITY@) && record_type == FINDING_RECORD_TYPE@ {
        names_view(FINDING_FIELDS@)
    } else if capability == GET_FINDING_CAPABILITY@ && record_type == FINDING_OBSERVATION_RECORD_TYPE@ {
        names_view(FINDING_OBSERVATION_FIELDS@)
    } else if capability == GET_PARTY_COMPLETENESS_RESULT_CAPABILITY@
        && record_type == PARTY_COMPLETENESS_RESULT_RECORD_TYPE@ {
        names_view(COMPLETENESS_RESULT_FIELDS@)
    } else {
        Seq::empty()
    }
}

/// The fields a query capability may disclose of a record type, each once.
pub fn visible_fields(capability_id: &str, record_type: &str) -> (r: Vec<String>)
    ensures
        strings_view(r@) == visible_field_names(capability_id@, record_type@),
{
    let cap = capability_id;
    if (str_eq(cap, GET_PARTY_RULE_SET_CAPABILITY) || str_eq(cap, GET_PARTY_COMPLETENESS_PROFILE_CAPABILITY))
        && str_eq(record_type, PARTY_RULE_SET_VERSION_RECORD_TYPE)
    {
        owned_strings(&DEFINITION_FIELDS)
    } else if str_eq(cap, GET_PARTY_EVALUATION_JOB_CAPABILITY) && str_eq(record_type, PARTY_EVALUATION_JOB_RECORD_TYPE) {
        owned_strings(&EVALUATION_JOB_FIELDS)
    } else if (str_eq(cap, GET_FINDING_CAPABILITY) || str_eq(cap, LIST_FINDINGS_BY_PARTY_CAPABILITY)
        || str_eq(cap, LIST_ASSIGNED_FINDINGS_CAPABILITY)) && str_eq(record_type, FINDING_RECORD_TYPE)
    {
        owned_strings(&FINDING_FIELDS)
    } else if str_eq(cap, GET_FINDING_CAPABILITY) && str_eq(record_type, FINDING_OBSERVATION_RECORD_TYPE) {
        owned_strings(&FINDING_OBSERVATION_FIELDS)
    } else if str_eq(cap, GET_PARTY_COMPLETENESS_RESULT_CAPABILITY)
        && str_eq(record_type, PARTY_COMPLETENESS_RESULT_RECORD_TYPE)
    {
        owned_strings(&COMPLETENESS_RESULT_FIELDS)
    } else {
        Vec::new()
    }
}

/// The field one entry of the hidden-field configuration hides for the
/// given capability and record type: an entry is
/// `capability|owner|record type|field`, each part trimmed, and applies
/// only with exactly four parts naming this module, capability and type.
pub open spec fn entry_hidden_field(entry: Seq<char>, capability: Seq<char>, record_type: Seq<char>) -> Option<Seq<char>> {
    let t = trimmed(entry);
    let parts = split_spec(t, '|');
    if t.len() == 0 || parts.len() != 4 {
        None
    } else if trimmed(parts[0]) == capability && trimmed(parts[1]) == MODULE_ID@ && trimmed(parts[2]) == record_type {
        Some(trimmed(parts[3]))
    } else {
        None
    }
}

/// The fields the hidden-field configuration `config` hides for the given
/// capability and record type: one per applying comma-separated entry.
pub open spec fn hidden_field_set(config: Seq<char>, capability: Seq<char>, record_type: Seq<char>) -> Set<Seq<char>> {
    Set::new(|f: Seq<char>| exists|i: int| 0 <= i < split_spec(config, ',').len()
        && entry_hidden_field(#[trigger] split_spec(config, ',')[i], capability, record_type) == Some(f))
}

fn entry_field(entry: &String, capability_id: &str, record_type: &str) -> (r: Option<String>)
    ensures
        match (r, entry_hidden_field(entry@, capability_id@, record_type@)) {
            (Some(a), Some(b)) => a@ == b,
            (None, None) => true,
            _ => false,
        },
{
    let t = trim_whitespace(entry.as_str());
    if t.unicode_len() == 0 {
        return None;
    }
    let parts = split_on(t.as_str(), '|');
    if parts.len() != 4 {
        return None;
    }
    proof {
        assert(parts@[0]@ == split_spec(t@, '|')[0]);
        assert(parts@[1]@ == split_spec(t@, '|')[1]);
        assert(parts@[2]@ == split_spec(t@, '|')[2]);
        assert(parts@[3]@ == split_spec(t@, '|')[3]);
    }
    let entry_capability = trim_whitespace(parts[0].as_str());
    let entry_owner = trim_whitespace(parts[1].as_str());
    let entry_record_type = trim_whitespace(parts[2].as_str());
    if str_eq(entry_capability.as_str(), capability_id) && str_eq(entry_owner.as_str(), MODULE_ID)
        && str_eq(entry_record_type.as_str(), record_type)
    {
        Some(trim_whitespace(parts[3].as_str()))
    } else {
        None
    }
}

/// The fields the hidden-field configuration `config` hides for the given
/// capability and record type.
pub fn hidden_fields(config: &str, capability_id: &str, record_type: &str) -> (r: Vec<String>)
    ensures
        strings_view(r@).to_set() == hidden_field_set(config@, capability_id@, record_type@),
{
    let entries = split_on(config, ',');
    let ghost pieces = split_spec(config@, ',');
    let mut out: Vec<String> = Vec::new();
    let mut i: usize = 0;
    while i < entries.len()
        invariant
            entries@.map_values(|p: String| p@) == pieces,
            pieces == split_spec(config@, ','),
            i <= entries@.len(),
            forall|f: Seq<char>| strings_view(out@).contains(f) <==> exists|j: int| 0 <= j < i
                && entry_hidden_field(#[trigger] pieces[j], capability_id@, record_type@) == Some(f),
        decreases entries@.len() - i,
    {
        assert(pieces[i as int] == entries@[i as int]@);
        let found = entry_field(&entries[i], capability_id, record_type);
        let ghost before = strings_view(out@);
        match found {
            Some(f) => {
                out.push(f);
                assert(strings_view(out@) =~= before.push(f@));
            },
            None => {},
        }
        assert forall|f: Seq<char>| strings_view(out@).contains(f) <==> exists|j: int| 0 <= j < i + 1
            && entry_hidden_field(#[trigger] pieces[j], capability_id@, record_type@) == Some(f) by {
            if strings_view(out@).contains(f) {
                if !before.contains(f) {
                    assert(entry_hidden_field(pieces[i as int], capability_id@, record_type@) == Some(f));
                }
            }
            if exists|j: int| 0 <= j < i + 1 && entry_hidden_field(#[trigger] pieces[j], capability_id@, record_type@)
                == Some(f) {
                let j = choose|j: int| 0 <= j < i + 1 && entry_hidden_field(#[trigger] pieces[j], capability_id@,
                    record_type@) == Some(f);
                if j == i {
                    assert(strings_view(out@).last() == f);
                    assert(strings_view(out@).contains(f));
                } else {
                    assert(before.contains(f));
                    let k = choose|k: int| 0 <= k < before.len() && before[k] == f;
                    assert(strings_view(out@)[k] == f);
                }
            }
        }
        i = i + 1;
    }
    assert(strings_view(out@).to_set() =~= hidden_field_set(config@, capability_id@, record_type@));
    out
}

/// The fields of `fields` that are not hidden, in their given order.
pub open spec fn without_hidden(fields: Seq<Seq<char>>, hidden: Set<Seq<char>>) -> Seq<Seq<char>> {
    fields.filter(|f: Seq<char>| !hidden.contains(f))
}

/// The fields an owner projection of `record_type` discloses to the query
/// `capability`: the query's visible fields, less what the deployment's
/// hidden-field configuration (if one is set) hides for them.
pub open spec fn projection_field_names(capability: Seq<char>, record_type: Seq<char>, hidden_config: Option<Seq<char>>)
    -> Seq<Seq<char>>
{
    match hidden_config {
        None => visible_field_names(capability, record_type),
        Some(c) => without_hidden(visible_field_names(capability, record_type),
            hidden_field_set(c, capability, record_type)),
    }
}

/// The optional characters of an optional configuration.
pub open spec fn config_view(c: Option<&str>) -> Option<Seq<char>> {
    match c {
        Some(v) => Some(v@),
        None => None,
    }
}

/// The fields a query may disclose of a record type once the deployment's
/// hidden-field configuration (`hidden_config`, if one is set) has removed
/// what it hides for that query and type.
pub fn owner_projection_fields(capability_id: &str, record_type: &str, hidden_config: Option<&str>) -> (r: Vec<String>)
    ensures
        strings_view(r@) == projection_field_names(capability_id@, record_type@, config_view(hidden_config)),
{
    let visible = visible_fields(capability_id, record_type);
    let config = match hidden_config {
        None => return visible,
        Some(c) => c,
    };
    let hidden = hidden_fields(config, capability_id, record_type);
    let ghost hidden_set = hidden_field_set(config@, capability_id@, record_type@);
    let mut out: Vec<String> = Vec::new();
    let mut i: usize = 0;
    while i < visible.len()
        invariant
            i <= visible@.len(),
            strings_view(hidden@).to_set() == hidden_set,
            strings_view(out@) == without_hidden(strings_view(visible@).take(i as int), hidden_set),
        decreases visible@.len() - i,
    {
        let ghost before = strings_view(out@);
        let ghost prefix = strings_view(visible@).take(i + 1);
        assert(prefix.drop_last() =~= strings_view(visible@).take(i as int));
        assert(prefix.last() == visible@[i as int]@);
        assert(without_hidden(prefix, hidden_set) == {
            let p = without_hidden(prefix.drop_last(), hidden_set);
            if !hidden_set.contains(prefix.last()) { p.push(prefix.last()) } else { p }
        }) by {
            reveal_with_fuel(Seq::filter, 1);
        }
        let is_hidden = strings_contain(&hidden, &visible[i]);
        assert(is_hidden == hidden_set.contains(visible@[i as int]@)) by {
            assert(strings_view(hidden@).contains(visible@[i as int]@) == strings_view(hidden@).to_set().contains(
                visible@[i as int]@));
        }
        if !is_hidden {
            out.push(visible[i].clone());
            assert(strings_view(out@) =~= before.push(visible@[i as int]@));
        }
        i = i + 1;
    }
    assert(strings_view(visible@).take(visible@.len() as int) =~= strings_view(visible@));
    out
}

/// The deployment configuration never lets a query disclose a field it
/// hides, and takes away nothing it does not hide.
pub proof fn hidden_fields_stay_hidden(fields: Seq<Seq<char>>, hidden: Set<Seq<char>>)
    ensures
        forall|i: int| 0 <= i < without_hidden(fields, hidden).len()
            ==> !hidden.contains(#[trigger] without_hidden(fields, hidden)[i]),
        forall|i: int| 0 <= i < fields.len() && !hidden.contains(fields[i])
            ==> without_hidden(fields, hidden).contains(#[trigger] fields[i]),
{
    let pred = |f: Seq<char>| !hidden.contains(f);
    assert forall|i: int| 0 <= i < without_hidden(fields, hidden).len()
        implies !hidden.contains(#[trigger] without_hidden(fields, hidden)[i]) by {
        fields.lemma_filter_pred(pred, i);
    }
    assert forall|i: int| 0 <= i < fields.len() && !hidden.contains(fields[i])
        implies without_hidden(fields, hidden).contains(#[trigger] fields[i]) by {
        fields.lemma_filter_contains(pred, i);
    }
}

/// A visibility decision of the platform's query authorizer, as plain
/// values.
pub struct VisibilityDecision {
    pub resource_visible: bool,
    pub allowed_fields: Vec<String>,
    pub decision_id: String,
    pub policy_version: String,
}

/// Suffix of the policy version of an owner-projection decision.
pub const OWNER_PROJECTION_POLICY_SUFFIX: &'static str = "+data-quality-owner-projection/v1";
/// Infix of the decision identity of an owner-projection decision.
pub const OWNER_PROJECTION_DECISION_INFIX: &'static str = ":dq-owner-projection:";

/// What the owner-projection decision discloses when the exact decision
/// hides a record but its owner proxy is visible: the record with the
/// query's projection fields, under a decision derived from the proxy's.
pub open spec fn owner_projection(proxy: VisibilityDecision, record_type: Seq<char>, fields: Seq<Seq<char>>)
    -> (bool, Seq<Seq<char>>, Seq<char>, Seq<char>)
{
    (true, fields, proxy.decision_id@ + OWNER_PROJECTION_DECISION_INFIX@ + record_type,
        proxy.policy_version@ + OWNER_PROJECTION_POLICY_SUFFIX@)
}

/// The plain view of a decision.
pub open spec fn decision_view(d: VisibilityDecision) -> (bool, Seq<Seq<char>>, Seq<char>, Seq<char>) {
    (d.resource_visible, strings_view(d.allowed_fields@), d.decision_id@, d.policy_version@)
}

/// The record type through whose visibility a Data Quality record's owner
/// projection is authorized.
pub const VISIBILITY_PROXY_RECORD_TYPE: &'static str = PARTY_RULE_SET_VERSION_RECORD_TYPE;

/// A reference to a stored record of the module.
pub struct RecordReference {
    pub record_type: String,
    pub record_id: String,
}

/// The owner proxy of a Data Quality record: the rule-set version record of
/// the same identity, whose visibility authorizes the record's owner
/// projection.
pub fn visibility_proxy(record_id: &str) -> (r: RecordReference)
    ensures
        r.record_type@ == VISIBILITY_PROXY_RECORD_TYPE@,
        r.record_id@ == record_id@,
{
    RecordReference { record_type: VISIBILITY_PROXY_RECORD_TYPE.to_owned(), record_id: record_id.to_owned() }
}

/// Combines the exact decision on a record with the decision on its owner
/// proxy (the rule-set version record of the same identity, asked for only
/// when the exact decision hides the record): a visible record keeps its
/// exact decision; a hidden one with a hidden proxy keeps the proxy's; a
/// hidden one with a visible proxy is disclosed to the query `capability_id`
/// with its owner-projection fields, less what the deployment's hidden-field
/// configuration `hidden_config` hides.
pub fn data_quality_visibility(exact: VisibilityDecision, proxy: Option<VisibilityDecision>, capability_id: &str,
    record_type: &str, hidden_config: Option<&str>) -> (r: VisibilityDecision)
    requires
        !exact.resource_visible ==> proxy is Some,
    ensures
        exact.resource_visible ==> decision_view(r) == decision_view(exact),
        !exact.resource_visible && !proxy->0.resource_visible ==> decision_view(r) == decision_view(proxy->0),
        !exact.resource_visible && proxy->0.resource_visible ==> decision_view(r) == owner_projection(proxy->0,
            record_type@, projection_field_names(capability_id@, record_type@, config_view(hidden_config))),
{
    if exact.resource_visible {
        return exact;
    }
    let proxy = match proxy {
        Some(p) => p,
        None => return exact,
    };
    if !proxy.resource_visible {
        return proxy;
    }
    let projection_fields = owner_projection_fields(capability_id, record_type, hidden_config);
    let mut decision_id = proxy.decision_id.clone();
    push_str(&mut decision_id, OWNER_PROJECTION_DECISION_INFIX);
    push_str(&mut decision_id, record_type);
    let mut policy_version = proxy.policy_version.clone();
    push_str(&mut policy_version, OWNER_PROJECTION_POLICY_SUFFIX);
    VisibilityDecision { resource_visible: true, allowed_fields: projection_fields, decision_id, policy_version }
}

/// Clears a definition the caller may not see.
pub fn apply_definition_visibility<T>(definition: &mut Option<T>, definition_visible: bool)
    ensures
        definition_visible ==> *final(definition) == *old(definition),
        !definition_visible ==> *final(definition) is None,
{
    if !definition_visible {
        *definition = None;
    }
}

/// Refuses a finding list that has inspected more records than the bound.
pub fn enforce_scan_limit(scanned: usize) -> (r: Result<(), QueryError>)
    ensures
        scanned <= MAXIMUM_VISIBILITY_SCAN_RECORDS ==> r is Ok,
        scanned > MAXIMUM_VISIBILITY_SCAN_RECORDS ==> r == Err::<(), QueryError>(QueryError::ScanLimitExceeded),
{
    if scanned > MAXIMUM_VISIBILITY_SCAN_RECORDS {
        return Err(QueryError::ScanLimitExceeded);
    }
    Ok(())
}

/// Reads an optional finding status filter; a present one must be a
/// specified, known status.
pub fn validated_status_filter(value: Option<i32>) -> (r: Result<Option<FindingStatus>, QueryError>)
    ensures
        match value {
            None => r == Ok::<Option<FindingStatus>, QueryError>(None),
            Some(v) => match status_from_wire(v) {
                Some(s) => r == Ok::<Option<FindingStatus>, QueryError>(Some(s)),
                None => r == Err::<Option<FindingStatus>, QueryError>(QueryError::InvalidStatusFilter),
            },
        },
{
    match value {
        None => Ok(None),
        Some(v) => match FindingStatus::from_wire(v) {
            Some(s) => Ok(Some(s)),
            None => Err(QueryError::InvalidStatusFilter),
        },
    }
}

/// Reads an optional finding severity filter; a present one must be a
/// specified, known severity.
pub fn validated_severity_filter(value: Option<i32>) -> (r: Result<Option<QualitySeverity>, QueryError>)
    ensures
        match value {
            None => r == Ok::<Option<QualitySeverity>, QueryError>(None),
            Some(v) => match severity_from_wire(v) {
                Some(s) => r == Ok::<Option<QualitySeverity>, QueryError>(Some(s)),
                None => r == Err::<Option<QualitySeverity>, QueryError>(QueryError::InvalidSeverityFilter),
            },
        },
{
    match value {
        None => Ok(None),
        Some(v) => match QualitySeverity::from_wire(v) {
            Some(s) => Ok(Some(s)),
            None => Err(QueryError::InvalidSeverityFilter),
        },
    }
}

/// The wire number a status filter is bound to a cursor with: zero when
/// absent.
pub fn status_filter_wire(value: Option<FindingStatus>) -> (r: i32)
    ensures
        r == match value { None => 0, Some(s) => status_to_wire(s) },
{
    match value {
        None => 0,
        Some(s) => s.to_wire(),
    }
}

/// The wire number a severity filter is bound to a cursor with: zero when
/// absent.
pub fn severity_filter_wire(value: Option<QualitySeverity>) -> (r: i32)
    ensures
        r == match value { None => 0, Some(s) => severity_to_wire(s) },
{
    match value {
        None => 0,
        Some(s) => s.to_wire(),
    }
}

/// A read filter never changes what it reads: every admitted filter binds
/// to the wire number it was read from.
pub proof fn filter_binding_round_trip(value: i32)
    ensures
        status_from_wire(value) matches Some(s) ==> status_to_wire(s) == value,
        severity_from_wire(value) matches Some(s) ==> severity_to_wire(s) == value,
{
}

/// The assigned-actor filter of the assigned-findings list: the actor the
/// request names, or the requesting actor.
pub fn assigned_actor_filter(value: Option<String>, requesting_actor_id: &str) -> (r: String)
    ensures
        r@ == match value { Some(v) => v@, None => requesting_actor_id@ },
{
    match value {
        Some(v) => v,
        None => requesting_actor_id.to_owned(),
    }
}

/// What a finding filter reads of a finding.
pub struct FindingSummary {
    pub party_id: String,
    pub assigned_actor_id: Option<String>,
    pub status: FindingStatus,
    pub severity: QualitySeverity,
}

/// The filter of a finding list query.
pub struct FindingFilter {
    pub party_id: Option<String>,
    pub assigned_actor_id: Option<String>,
    pub status: Option<FindingStatus>,
    pub severity: Option<QualitySeverity>,
}

/// Whether a finding passes a filter: every criterion the filter sets must
/// hold; an actor criterion needs the finding to be assigned to that actor.
pub open spec fn filter_admits(f: FindingFilter, finding: FindingSummary) -> bool {
    &&& (f.party_id matches Some(p) ==> p@ == finding.party_id@)
    &&& (f.assigned_actor_id matches Some(a) ==> (finding.assigned_actor_id matches Some(b) && b@ == a@))
    &&& (f.status matches Some(s) ==> finding.status == s)
    &&& (f.severity matches Some(s) ==> finding.severity == s)
}

/// Each criterion a filter sets excludes every finding that does not meet
/// it: another Party, an actor the finding is not assigned to (or no actor
/// at all), another status, another severity. A filter that sets nothing
/// admits every finding, and a finding that meets every criterion set is
/// admitted.
pub proof fn filter_criteria_each_exclude(f: FindingFilter, finding: FindingSummary)
    ensures
        f.party_id is Some && f.party_id->0@ != finding.party_id@ ==> !filter_admits(f, finding),
        f.assigned_actor_id is Some && finding.assigned_actor_id is None ==> !filter_admits(f, finding),
        f.assigned_actor_id is Some && finding.assigned_actor_id is Some && f.assigned_actor_id->0@
            != finding.assigned_actor_id->0@ ==> !filter_admits(f, finding),
        f.status is Some && f.status->0 != finding.status ==> !filter_admits(f, finding),
        f.severity is Some && f.severity->0 != finding.severity ==> !filter_admits(f, finding),
        f.party_id is None && f.assigned_actor_id is None && f.status is None && f.severity is None ==> filter_admits(
            f,
            finding,
        ),
        (f.party_id is None || f.party_id->0@ == finding.party_id@) && (f.assigned_actor_id is None || (
        finding.assigned_actor_id is Some && f.assigned_actor_id->0@ == finding.assigned_actor_id->0@)) && (f.status
            is None || f.status->0 == finding.status) && (f.severity is None || f.severity->0 == finding.severity)
            ==> filter_admits(f, finding),
{
}

impl FindingFilter {
    /// Whether `finding` passes this filter.
    pub fn matches(&self, finding: &FindingSummary) -> (r: bool)
        ensures
            r == filter_admits(*self, *finding),
    {
        let party_ok = match &self.party_id {
            None => true,
            Some(p) => str_eq(p.as_str(), finding.party_id.as_str()),
        };
        let actor_ok = match &self.assigned_actor_id {
            None => true,
            Some(a) => match &finding.assigned_actor_id {
                None => false,
                Some(b) => str_eq(b.as_str(), a.as_str()),
            },
        };
        let status_ok = match self.status {
            None => true,
            Some(s) => finding.status == s,
        };
        let severity_ok = match self.severity {
            None => true,
            Some(s) => finding.severity == s,
        };
        party_ok && actor_ok && status_ok && severity_ok
    }
}


/// An owner projection discloses only fields the query may see of the
/// record type, never one the deployment hides for them, and every visible
/// field that is not hidden; with no configuration it discloses exactly the
/// visible fields.
pub proof fn projections_disclose_exactly_the_visible_unhidden_fields(capability: Seq<char>, record_type: Seq<char>,
    hidden_config: Option<Seq<char>>)
    ensures
        forall|i: int| 0 <= i < projection_field_names(capability, record_type, hidden_config).len()
            ==> visible_field_names(capability, record_type).contains(
            #[trigger] projection_field_names(capability, record_type, hidden_config)[i]),
        forall|i: int| 0 <= i < projection_field_names(capability, record_type, hidden_config).len()
            && hidden_config is Some ==> !hidden_field_set(hidden_config->0, capability, record_type).contains(
            #[trigger] projection_field_names(capability, record_type, hidden_config)[i]),
        forall|i: int| 0 <= i < visible_field_names(capability, record_type).len() && (hidden_config is None
            || !hidden_field_set(hidden_config->0, capability, record_type).contains(
            visible_field_names(capability, record_type)[i])) ==> projection_field_names(capability, record_type,
            hidden_config).contains(#[trigger] visible_field_names(capability, record_type)[i]),
        hidden_config is None ==> projection_field_names(capability, record_type, hidden_config)
            == visible_field_names(capability, record_type),
{
    let visible = visible_field_names(capability, record_type);
    let p = projection_field_names(capability, record_type, hidden_config);
    if hidden_config is Some {
        let hidden = hidden_field_set(hidden_config->0, capability, record_type);
        hidden_fields_stay_hidden(visible, hidden);
        let pred = |f: Seq<char>| !hidden.contains(f);
        assert forall|i: int| 0 <= i < p.len() implies visible.contains(#[trigger] p[i]) by {
            assert(p.contains(p[i]));
            visible.lemma_filter_contains_rev(pred, p[i]);
        }
    } else {
        assert forall|i: int| 0 <= i < visible.len() implies p.contains(#[trigger] visible[i]) by {
            assert(p[i] == visible[i]);
        }
        assert forall|i: int| 0 <= i < p.len() implies visible.contains(#[trigger] p[i]) by {
            assert(visible[i] == p[i]);
        }
    }
}

/// The decision on a Data Quality record keeps a visible record's exact
/// decision, keeps a hidden record hidden when its owner proxy is hidden too,
/// and discloses a hidden record with a visible proxy only through the
/// owner projection: visible, with the projection's fields.
pub proof fn owner_projection_discloses_only_projected_fields(proxy: VisibilityDecision, record_type: Seq<char>,
    fields: Seq<Seq<char>>)
    ensures
        owner_projection(proxy, record_type, fields).0,
        owner_projection(proxy, record_type, fields).1 == fields,
        owner_projection(proxy, record_type, fields).2 == proxy.decision_id@ + ":dq-owner-projection:"@ + record_type,
        owner_projection(proxy, record_type, fields).3 == proxy.policy_version@
            + "+data-quality-owner-projection/v1"@,
{
}

} // verus!
