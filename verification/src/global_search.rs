//! The rebuildable global CRM search projection: which owner-domain
//! snapshot events feed a generation of the index, the contract each event
//! must carry, and the search document each event projects to.
use vstd::prelude::*;
use crate::capability::DataClass;
use crate::errors::ErrorCategory;
use crate::dq_stage::{PARTY_KIND_PERSON, PARTY_KIND_ORGANIZATION};
use crate::text::{push_char, str_eq, trim_whitespace, trimmed};

verus! {

pub const GLOBAL_SEARCH_INDEX_ID: &'static str = "crm.global-search";
pub const GLOBAL_SEARCH_SCHEMA_VERSION: &'static str = "1";
pub const SEARCH_INDEXER_CONSUMER_MODULE_ID: &'static str = "crm.search-indexer";
pub const INITIAL_GLOBAL_SEARCH_GENERATION_ID: &'static str = "g2";
/// Prefix of the projection identity of a generation.
pub const PROJECTION_ID_PREFIX: &'static str = "search.global.";
/// Longest admitted generation identity.
pub const MAXIMUM_GENERATION_ID_LENGTH: usize = 120;

pub const SALES_MODULE_ID: &'static str = "crm.sales";
pub const ACTIVITIES_MODULE_ID: &'static str = "crm.activities";
pub const PARTIES_MODULE_ID: &'static str = "crm.parties";
/// The version every source event contract carries.
pub const SOURCE_CONTRACT_VERSION: &'static str = "1.0.0";

pub const DEAL_RESOURCE_TYPE: &'static str = "sales.deal";
pub const TASK_RESOURCE_TYPE: &'static str = "activities.task";
pub const PARTY_RESOURCE_TYPE: &'static str = "parties.party";

pub const SALES_CREATED: &'static str = "sales.deal.created";
pub const SALES_UPDATED: &'static str = "sales.deal.updated";
pub const SALES_CREATED_SCHEMA: &'static str = "crm.sales.v1.DealCreatedEvent";
pub const SALES_UPDATED_SCHEMA: &'static str = "crm.sales.v1.DealUpdatedEvent";
pub const TASK_CREATED: &'static str = "activities.task.created";
pub const TASK_UPDATED: &'static str = "activities.task.updated";
pub const TASK_CREATED_SCHEMA: &'static str = "crm.activities.v1.TaskCreatedEvent";
pub const TASK_UPDATED_SCHEMA: &'static str = "crm.activities.v1.TaskUpdatedEvent";
pub const PARTY_CREATED: &'static str = "parties.party.created";
pub const PARTY_UPDATED: &'static str = "parties.party.updated";
pub const PARTY_CREATED_SCHEMA: &'static str = "crm.parties.v1.PartyCreatedEvent";
pub const PARTY_UPDATED_SCHEMA: &'static str = "crm.parties.v1.PartyUpdatedEvent";

/// The six snapshot events a generation subscribes to, in subscription order.
pub const SUBSCRIBED_EVENT_TYPES: [&'static str; 6] = [
    SALES_CREATED, SALES_UPDATED, TASK_CREATED, TASK_UPDATED, PARTY_CREATED, PARTY_UPDATED,
];

/// Why a search generation or projection was refused.
#[derive(Debug, Clone, Copy, PartialEq, Eq, Structural)]
pub enum SearchError {
    ConfigurationInvalid,
    EventInvalid,
}

impl SearchError {
    /// The code reported for this refusal.
    pub open spec fn error_code(self) -> &'static str {
        match self {
            SearchError::ConfigurationInvalid => "GLOBAL_SEARCH_CONFIGURATION_INVALID",
            SearchError::EventInvalid => "GLOBAL_SEARCH_EVENT_INVALID",
        }
    }

    /// The stable error code reported to callers.
    pub fn code(&self) -> (r: &'static str)
        ensures
            r == self.error_code(),
    {
        match self {
            SearchError::ConfigurationInvalid => "GLOBAL_SEARCH_CONFIGURATION_INVALID",
            SearchError::EventInvalid => "GLOBAL_SEARCH_EVENT_INVALID",
        }
    }

    /// The category under which this refusal is reported.
    pub open spec fn error_category(self) -> ErrorCategory {
        match self {
            SearchError::ConfigurationInvalid => ErrorCategory::Internal,
            SearchError::EventInvalid => ErrorCategory::InvalidArgument,
        }
    }

    /// The category under which the failure is reported.
    pub fn category(&self) -> (r: ErrorCategory)
        ensures
            r == self.error_category(),
    {
        match self {
            SearchError::ConfigurationInvalid => ErrorCategory::Internal,
            SearchError::EventInvalid => ErrorCategory::InvalidArgument,
        }
    }
}

/// Whether `c` may appear in a generation identity: an ASCII letter or
/// digit, `.`, `-` or `_`.
pub open spec fn generation_char(c: char) -> bool {
    ('a' <= c <= 'z') || ('A' <= c <= 'Z') || ('0' <= c <= '9') || c == '.' || c == '-' || c == '_'
}

/// Whether `id` is an admitted generation identity: non-empty, at most
/// [`MAXIMUM_GENERATION_ID_LENGTH`] characters, each admitted.
pub open spec fn generation_id_valid(id: Seq<char>) -> bool {
    &&& 0 < id.len() <= MAXIMUM_GENERATION_ID_LENGTH
    &&& forall|i: int| 0 <= i < id.len() ==> #[trigger] generation_char(id[i])
}

/// Refuses a generation identity that is empty, too long, or holds any
/// character but ASCII letters, digits, `.`, `-` and `_` (so no path
/// separator, whitespace or control character).
pub fn validate_generation_id(value: &str) -> (r: Result<(), SearchError>)
    ensures
        r is Ok <==> generation_id_valid(value@),
        r is Err ==> r == Err::<(), SearchError>(SearchError::ConfigurationInvalid),
{
    let n = value.unicode_len();
    if n == 0 || n > MAXIMUM_GENERATION_ID_LENGTH {
        return Err(SearchError::ConfigurationInvalid);
    }
    let mut i: usize = 0;
    while i < n
        invariant
            n == value@.len(),
            i <= n,
            forall|j: int| 0 <= j < i ==> #[trigger] generation_char(value@[j]),
        decreases n - i,
    {
        let c = value.get_char(i);
        if !(('a' <= c && c <= 'z') || ('A' <= c && c <= 'Z') || ('0' <= c && c <= '9') || c == '.' || c == '-'
            || c == '_')
        {
            assert(!generation_char(value@[i as int]));
            return Err(SearchError::ConfigurationInvalid);
        }
        i = i + 1;
    }
    Ok(())
}

/// One generation of the global search projection.
pub struct SearchProjectionGeneration {
    pub generation_id: String,
    pub projection_id: String,
    pub consumer_module_id: &'static str,
    pub event_types: Vec<&'static str>,
}

impl SearchProjectionGeneration {
    /// A generation under an admitted identity: its projection is named
    /// after it, consumed by the search indexer, and subscribed to the six
    /// snapshot events.
    pub fn new(generation_id: String) -> (r: Result<SearchProjectionGeneration, SearchError>)
        ensures
            !generation_id_valid(generation_id@) ==> r is Err && r->Err_0 == SearchError::ConfigurationInvalid,
            generation_id_valid(generation_id@) ==> match r {
                Ok(g) => {
                    &&& g.generation_id@ == generation_id@
                    &&& g.projection_id@ == PROJECTION_ID_PREFIX@ + generation_id@
                    &&& g.consumer_module_id == SEARCH_INDEXER_CONSUMER_MODULE_ID
                    &&& g.event_types@ == SUBSCRIBED_EVENT_TYPES@
                },
                Err(_) => false,
            },
    {
        validate_generation_id(generation_id.as_str())?;
        let mut projection_id = PROJECTION_ID_PREFIX.to_owned();
        let n = generation_id.unicode_len();
        let mut i: usize = 0;
        while i < n
            invariant
                n == generation_id@.len(),
                i <= n,
                projection_id@ == PROJECTION_ID_PREFIX@ + generation_id@.take(i as int),
            decreases n - i,
        {
            let c = generation_id.get_char(i);
            push_char(&mut projection_id, c);
            assert(generation_id@.take(i + 1) =~= generation_id@.take(i as int).push(c));
            assert(projection_id@ =~= PROJECTION_ID_PREFIX@ + generation_id@.take(i + 1));
            i = i + 1;
        }
        assert(generation_id@.take(n as int) =~= generation_id@);
        let mut event_types: Vec<&'static str> = Vec::new();
        event_types.push(SALES_CREATED);
        event_types.push(SALES_UPDATED);
        event_types.push(TASK_CREATED);
        event_types.push(TASK_UPDATED);
        event_types.push(PARTY_CREATED);
        event_types.push(PARTY_UPDATED);
        assert(event_types@ =~= SUBSCRIBED_EVENT_TYPES@);
        Ok(SearchProjectionGeneration {
            generation_id,
            projection_id,
            consumer_module_id: SEARCH_INDEXER_CONSUMER_MODULE_ID,
            event_types,
        })
    }
}

/// A snapshot event that feeds the search index.
#[derive(Debug, Clone, Copy, PartialEq, Eq, Structural)]
pub enum SearchEventKind {
    DealCreated,
    DealUpdated,
    TaskCreated,
    TaskUpdated,
    PartyCreated,
    PartyUpdated,
}

/// The search event an event type names, if it feeds the index.
pub open spec fn search_event_of(t: Seq<char>) -> Option<SearchEventKind> {
    if t == SALES_CREATED@ { Some(SearchEventKind::DealCreated) }
    else if t == SALES_UPDATED@ { Some(SearchEventKind::DealUpdated) }
    else if t == TASK_CREATED@ { Some(SearchEventKind::TaskCreated) }
    else if t == TASK_UPDATED@ { Some(SearchEventKind::TaskUpdated) }
    else if t == PARTY_CREATED@ { Some(SearchEventKind::PartyCreated) }
    else if t == PARTY_UPDATED@ { Some(SearchEventKind::PartyUpdated) }
    else { None }
}

/// The owner module of a search event.
pub open spec fn event_owner(k: SearchEventKind) -> &'static str {
    match k {
        SearchEventKind::DealCreated | SearchEventKind::DealUpdated => SALES_MODULE_ID,
        SearchEventKind::TaskCreated | SearchEventKind::TaskUpdated => ACTIVITIES_MODULE_ID,
        _ => PARTIES_MODULE_ID,
    }
}

/// The payload schema of a search event.
pub open spec fn event_schema(k: SearchEventKind) -> &'static str {
    match k {
        SearchEventKind::DealCreated => SALES_CREATED_SCHEMA,
        SearchEventKind::DealUpdated => SALES_UPDATED_SCHEMA,
        SearchEventKind::TaskCreated => TASK_CREATED_SCHEMA,
        SearchEventKind::TaskUpdated => TASK_UPDATED_SCHEMA,
        SearchEventKind::PartyCreated => PARTY_CREATED_SCHEMA,
        SearchEventKind::PartyUpdated => PARTY_UPDATED_SCHEMA,
    }
}

/// The data class of a search event's payload: Parties are personal,
/// deals and tasks confidential.
pub open spec fn event_class(k: SearchEventKind) -> DataClass {
    match k {
        SearchEventKind::PartyCreated | SearchEventKind::PartyUpdated => DataClass::Personal,
        _ => DataClass::Confidential,
    }
}

/// The resource type a search event snapshots.
pub open spec fn event_resource_type(k: SearchEventKind) -> &'static str {
    match k {
        SearchEventKind::DealCreated | SearchEventKind::DealUpdated => DEAL_RESOURCE_TYPE,
        SearchEventKind::TaskCreated | SearchEventKind::TaskUpdated => TASK_RESOURCE_TYPE,
        _ => PARTY_RESOURCE_TYPE,
    }
}

/// The title field of a deal or task document.
pub open spec fn event_title_field(k: SearchEventKind) -> &'static str {
    match k {
        SearchEventKind::DealCreated | SearchEventKind::DealUpdated => "name",
        _ => "subject",
    }
}

/// Whether a search event snapshots a Party.
pub open spec fn is_party_event(k: SearchEventKind) -> bool {
    k == SearchEventKind::PartyCreated || k == SearchEventKind::PartyUpdated
}

struct EventContract {
    kind: SearchEventKind,
    owner: &'static str,
    schema: &'static str,
    class: DataClass,
    resource_type: &'static str,
    title_field: &'static str,
}

fn event_contract(event_type: &str) -> (r: Option<EventContract>)
    ensures
        match search_event_of(event_type@) {
            None => r is None,
            Some(k) => r matches Some(c) && c.kind == k && c.owner == event_owner(k) && c.schema == event_schema(k)
                && c.class == event_class(k) && c.resource_type == event_resource_type(k)
                && (!is_party_event(k) ==> c.title_field == event_title_field(k)),
        },
{
    if str_eq(event_type, SALES_CREATED) {
        Some(EventContract { kind: SearchEventKind::DealCreated, owner: SALES_MODULE_ID, schema: SALES_CREATED_SCHEMA,
            class: DataClass::Confidential, resource_type: DEAL_RESOURCE_TYPE, title_field: "name" })
    } else if str_eq(event_type, SALES_UPDATED) {
        Some(EventContract { kind: SearchEventKind::DealUpdated, owner: SALES_MODULE_ID, schema: SALES_UPDATED_SCHEMA,
            class: DataClass::Confidential, resource_type: DEAL_RESOURCE_TYPE, title_field: "name" })
    } else if str_eq(event_type, TASK_CREATED) {
        Some(EventContract { kind: SearchEventKind::TaskCreated, owner: ACTIVITIES_MODULE_ID, schema: TASK_CREATED_SCHEMA,
            class: DataClass::Confidential, resource_type: TASK_RESOURCE_TYPE, title_field: "subject" })
    } else if str_eq(event_type, TASK_UPDATED) {
        Some(EventContract { kind: SearchEventKind::TaskUpdated, owner: ACTIVITIES_MODULE_ID, schema: TASK_UPDATED_SCHEMA,
            class: DataClass::Confidential, resource_type: TASK_RESOURCE_TYPE, title_field: "subject" })
    } else if str_eq(event_type, PARTY_CREATED) {
        Some(EventContract { kind: SearchEventKind::PartyCreated, owner: PARTIES_MODULE_ID, schema: PARTY_CREATED_SCHEMA,
            class: DataClass::Personal, resource_type: PARTY_RESOURCE_TYPE, title_field: "display_name" })
    } else if str_eq(event_type, PARTY_UPDATED) {
        Some(EventContract { kind: SearchEventKind::PartyUpdated, owner: PARTIES_MODULE_ID, schema: PARTY_UPDATED_SCHEMA,
            class: DataClass::Personal, resource_type: PARTY_RESOURCE_TYPE, title_field: "display_name" })
    } else {
        None
    }
}

/// An event delivered to the search projection, as plain values. Whether
/// the payload's descriptor hash is the one of its schema is decided by the
/// schema registry and handed in as `descriptor_matches`.
pub struct SearchEventDelivery {
    pub event_type: String,
    pub source_module_id: String,
    pub event_version: String,
    pub payload_owner: String,
    pub schema_id: String,
    pub schema_version: String,
    pub descriptor_matches: bool,
    pub data_class: DataClass,
    pub protobuf_encoded: bool,
    pub aggregate_record_type: String,
    pub aggregate_record_id: String,
    pub aggregate_version: i64,
}

/// The resource snapshot a decoded event carries: a deal or task always
/// has its identity and version; a Party may lack them, and has a kind.
pub struct SearchSource {
    pub resource_id: Option<String>,
    pub version: Option<i64>,
    pub title: String,
    pub party_kind: i32,
}

/// Whether a delivery carries exactly the contract of the search event `k`.
pub open spec fn contract_valid(d: SearchEventDelivery, k: SearchEventKind) -> bool {
    &&& d.source_module_id@ == event_owner(k)@
    &&& d.payload_owner@ == event_owner(k)@
    &&& d.event_version@ == SOURCE_CONTRACT_VERSION@
    &&& d.schema_id@ == event_schema(k)@
    &&& d.schema_version@ == SOURCE_CONTRACT_VERSION@
    &&& d.descriptor_matches
    &&& d.data_class == event_class(k)
    &&& d.protobuf_encoded
}

/// Whether a delivery's aggregate is the snapshot's resource at its version.
pub open spec fn snapshot_consistent(d: SearchEventDelivery, resource_type: Seq<char>, id: Seq<char>, version: i64) -> bool {
    d.aggregate_record_type@ == resource_type && d.aggregate_record_id@ == id && d.aggregate_version == version
}

/// The document a search event projects to.
pub struct SearchDocument {
    pub index_id: &'static str,
    pub generation_id: String,
    pub schema_version: &'static str,
    pub owner_module_id: &'static str,
    pub resource_type: &'static str,
    pub resource_id: String,
    pub source_version: i64,
    /// Searchable fields, by field name in ascending order.
    pub searchable_fields: Vec<(String, String)>,
    /// Displayed fields, by field name in ascending order.
    pub display_fields: Vec<(String, String)>,
}

/// The plain view of a field list.
pub open spec fn fields_view(s: Seq<(String, String)>) -> Seq<(Seq<char>, Seq<char>)> {
    s.map_values(|p: (String, String)| (p.0@, p.1@))
}

/// The word a Party kind is displayed as.
pub open spec fn party_kind_word(kind: i32) -> Option<Seq<char>> {
    if kind == PARTY_KIND_PERSON {
        Some("person"@)
    } else if kind == PARTY_KIND_ORGANIZATION {
        Some("organization"@)
    } else {
        None
    }
}

/// What a search event projects to, given its title with surrounding
/// whitespace trimmed as `trimmed_title`: the owner, resource type,
/// identity, version and the searchable and displayed fields of its
/// document, or why it is refused, in the order the projection checks.
pub open spec fn projection_outcome(d: SearchEventDelivery, source: Option<SearchSource>, trimmed_title: Seq<char>)
    -> Result<(&'static str, &'static str, Seq<char>, i64, Seq<(Seq<char>, Seq<char>)>, Seq<(Seq<char>, Seq<char>)>), SearchError>
{
    match search_event_of(d.event_type@) {
        None => Err(SearchError::EventInvalid),
        Some(k) => if !contract_valid(d, k) {
            Err(SearchError::EventInvalid)
        } else {
            match source {
                None => Err(SearchError::EventInvalid),
                Some(s) => match s.resource_id {
                    None => Err(SearchError::EventInvalid),
                    Some(id) => match s.version {
                        None => Err(SearchError::EventInvalid),
                        Some(v) => if !snapshot_consistent(d, event_resource_type(k)@, id@, v) {
                            Err(SearchError::EventInvalid)
                        } else if is_party_event(k) {
                            match party_kind_word(s.party_kind) {
                                None => Err(SearchError::EventInvalid),
                                Some(word) => if trimmed_title.len() == 0 {
                                    Err(SearchError::EventInvalid)
                                } else {
                                    Ok((event_owner(k), event_resource_type(k), id@, v,
                                        seq![("display_name"@, trimmed_title)],
                                        seq![("display_name"@, trimmed_title), ("kind"@, word)]))
                                },
                            }
                        } else if trimmed_title.len() == 0 {
                            Err(SearchError::EventInvalid)
                        } else {
                            Ok((event_owner(k), event_resource_type(k), id@, v,
                                seq![(event_title_field(k)@, s.title@)], seq![(event_title_field(k)@, s.title@)]))
                        },
                    },
                },
            }
        },
    }
}

fn contract_matches(d: &SearchEventDelivery, c: &EventContract) -> (r: bool)
    requires
        c.owner == event_owner(c.kind),
        c.schema == event_schema(c.kind),
        c.class == event_class(c.kind),
    ensures
        r == contract_valid(*d, c.kind),
{
    str_eq(d.source_module_id.as_str(), c.owner) && str_eq(d.payload_owner.as_str(), c.owner)
        && str_eq(d.event_version.as_str(), SOURCE_CONTRACT_VERSION) && str_eq(d.schema_id.as_str(), c.schema)
        && str_eq(d.schema_version.as_str(), SOURCE_CONTRACT_VERSION) && d.descriptor_matches
        && d.data_class == c.class && d.protobuf_encoded
}

fn field(name: &str, value: &String) -> (r: (String, String))
    ensures
        r.0@ == name@,
        r.1@ == value@,
{
    (name.to_owned(), value.clone())
}

/// Only the six subscribed snapshot events project to a document.
pub proof fn projected_events_are_subscribed(d: SearchEventDelivery, source: Option<SearchSource>, t: Seq<char>)
    requires
        projection_outcome(d, source, t) is Ok,
    ensures
        exists|i: int| 0 <= i < 6 && #[trigger] SUBSCRIBED_EVENT_TYPES@[i]@ == d.event_type@,
{
    let k = search_event_of(d.event_type@)->0;
    let i: int = match k {
        SearchEventKind::DealCreated => 0,
        SearchEventKind::DealUpdated => 1,
        SearchEventKind::TaskCreated => 2,
        SearchEventKind::TaskUpdated => 3,
        SearchEventKind::PartyCreated => 4,
        SearchEventKind::PartyUpdated => 5,
    };
    assert(SUBSCRIBED_EVENT_TYPES@[i]@ == d.event_type@);
}

/// The title of a snapshot with surrounding whitespace trimmed, if the
/// event carries a snapshot.
pub open spec fn trimmed_title_of(source: Option<SearchSource>) -> Seq<char> {
    match source {
        Some(s) => trimmed(s.title@),
        None => Seq::empty(),
    }
}

/// Projects one snapshot event of the generation `generation_id` into its
/// search document: the event must be one the index subscribes to, carry
/// its exact contract, and snapshot the very aggregate it was raised for;
/// a deal or task needs a title that is not blank, a Party a specified kind
/// and a display name that is not blank once trimmed.
pub fn project(generation_id: &String, delivery: &SearchEventDelivery, source: Option<SearchSource>)
    -> (r: Result<SearchDocument, SearchError>)
    ensures
        projected(r, *generation_id, projection_outcome(*delivery, source, trimmed_title_of(source))),
{
    let title = match &source {
        Some(s) => trim_whitespace(s.title.as_str()),
        None => String::new(),
    };
    project_trimmed(generation_id, delivery, source, &title)
}

/// Whether `r` is the document `outcome` describes, for `generation_id`, or
/// the refusal it describes.
pub open spec fn projected(r: Result<SearchDocument, SearchError>, generation_id: String,
    outcome: Result<(&'static str, &'static str, Seq<char>, i64, Seq<(Seq<char>, Seq<char>)>, Seq<(Seq<char>, Seq<char>)>), SearchError>)
    -> bool
{
    match (r, outcome) {
        (Ok(doc), Ok((owner, resource_type, id, version, searchable, display))) => {
            &&& doc.index_id == GLOBAL_SEARCH_INDEX_ID
            &&& doc.generation_id@ == generation_id@
            &&& doc.schema_version == GLOBAL_SEARCH_SCHEMA_VERSION
            &&& doc.owner_module_id == owner
            &&& doc.resource_type == resource_type
            &&& doc.resource_id@ == id
            &&& doc.source_version == version
            &&& fields_view(doc.searchable_fields@) == searchable
            &&& fields_view(doc.display_fields@) == display
        },
        (Err(e), Err(f)) => e == f,
        _ => false,
    }
}

/// [`project`], given the snapshot's title already trimmed of surrounding
/// whitespace as `trimmed_title`.
pub fn project_trimmed(generation_id: &String, delivery: &SearchEventDelivery, source: Option<SearchSource>,
    trimmed_title: &String) -> (r: Result<SearchDocument, SearchError>)
    ensures
        projected(r, *generation_id, projection_outcome(*delivery, source, trimmed_title@)),
{
    let c = match event_contract(delivery.event_type.as_str()) {
        None => return Err(SearchError::EventInvalid),
        Some(c) => c,
    };
    if !contract_matches(delivery, &c) {
        return Err(SearchError::EventInvalid);
    }
    let s = match source {
        None => return Err(SearchError::EventInvalid),
        Some(s) => s,
    };
    let id = match s.resource_id {
        None => return Err(SearchError::EventInvalid),
        Some(id) => id,
    };
    let version = match s.version {
        None => return Err(SearchError::EventInvalid),
        Some(v) => v,
    };
    if !str_eq(delivery.aggregate_record_type.as_str(), c.resource_type)
        || !str_eq(delivery.aggregate_record_id.as_str(), id.as_str()) || delivery.aggregate_version != version
    {
        return Err(SearchError::EventInvalid);
    }
    let mut searchable: Vec<(String, String)> = Vec::new();
    let mut display: Vec<(String, String)> = Vec::new();
    if c.kind == SearchEventKind::PartyCreated || c.kind == SearchEventKind::PartyUpdated {
        let word = if s.party_kind == PARTY_KIND_PERSON {
            "person"
        } else if s.party_kind == PARTY_KIND_ORGANIZATION {
            "organization"
        } else {
            return Err(SearchError::EventInvalid);
        };
        if trimmed_title.unicode_len() == 0 {
            return Err(SearchError::EventInvalid);
        }
        let kind_word = word.to_owned();
        searchable.push(field("display_name", trimmed_title));
        display.push(field("display_name", trimmed_title));
        display.push(field("kind", &kind_word));
        assert(fields_view(searchable@) =~= seq![("display_name"@, trimmed_title@)]);
        assert(fields_view(display@) =~= seq![("display_name"@, trimmed_title@), ("kind"@, word@)]);
    } else {
        if trimmed_title.unicode_len() == 0 {
            return Err(SearchError::EventInvalid);
        }
        searchable.push(field(c.title_field, &s.title));
        display.push(field(c.title_field, &s.title));
        assert(fields_view(searchable@) =~= seq![(c.title_field@, s.title@)]);
        assert(fields_view(display@) =~= seq![(c.title_field@, s.title@)]);
    }
    Ok(SearchDocument {
        index_id: GLOBAL_SEARCH_INDEX_ID,
        generation_id: generation_id.clone(),
        schema_version: GLOBAL_SEARCH_SCHEMA_VERSION,
        owner_module_id: c.owner,
        resource_type: c.resource_type,
        resource_id: id,
        source_version: version,
        searchable_fields: searchable,
        display_fields: display,
    })
}


/// A deal or task event that projects gives a document indexed by its
/// snapshot's title, untrimmed, under the event's title field (`name` for a
/// deal, `subject` for a task): that one field is both what is searched and
/// what is displayed. A Party event gives a document searched by its
/// trimmed display name and displaying that name and the Party's kind. Every
/// projected document of an event has exactly one searchable field, the
/// first of its displayed fields, and belongs to the snapshot's resource at
/// the snapshot's version.
pub proof fn projected_documents_index_their_title(generation_id: String, d: SearchEventDelivery,
    source: Option<SearchSource>, trimmed_title: Seq<char>, r: Result<SearchDocument, SearchError>)
    requires
        projected(r, generation_id, projection_outcome(d, source, trimmed_title)),
        r is Ok,
    ensures
        ({
            let doc = r->Ok_0;
            let s = source->0;
            let k = search_event_of(d.event_type@);
            let searchable = fields_view(doc.searchable_fields@);
            let display = fields_view(doc.display_fields@);
            &&& source is Some
            &&& k is Some
            &&& s.resource_id matches Some(id) && doc.resource_id@ == id@
            &&& s.version == Some(doc.source_version)
            &&& doc.generation_id@ == generation_id@
            &&& searchable.len() == 1
            &&& display.len() >= 1
            &&& searchable[0] == display[0]
            &&& (k == Some(SearchEventKind::DealCreated) || k == Some(SearchEventKind::DealUpdated)) ==> (searchable
                == seq![("name"@, s.title@)] && display == seq![("name"@, s.title@)])
            &&& (k == Some(SearchEventKind::TaskCreated) || k == Some(SearchEventKind::TaskUpdated)) ==> (searchable
                == seq![("subject"@, s.title@)] && display == seq![("subject"@, s.title@)])
            &&& (k == Some(SearchEventKind::PartyCreated) || k == Some(SearchEventKind::PartyUpdated)) ==> (
                searchable == seq![("display_name"@, trimmed_title)] && display.len() == 2 && display[0] == (
                "display_name"@, trimmed_title) && display[1].0 == "kind"@ && trimmed_title.len() > 0)
        }),
{
    let doc = r->Ok_0;
    let s = source->0;
    let k = search_event_of(d.event_type@)->0;
    let o = projection_outcome(d, source, trimmed_title)->Ok_0;
    assert(fields_view(doc.searchable_fields@) == o.4);
    assert(fields_view(doc.display_fields@) == o.5);
}


/// An admitted generation identity is non-empty, bounded, and holds no path
/// separator, no whitespace and no control character.
pub proof fn generation_ids_hold_no_separator_or_whitespace(id: Seq<char>)
    requires
        generation_id_valid(id),
    ensures
        0 < id.len() <= MAXIMUM_GENERATION_ID_LENGTH,
        forall|i: int| 0 <= i < id.len() ==> #[trigger] id[i] != '/' && id[i] != '\\' && id[i] != ' ' && id[i]
            != '\t' && id[i] != '\n' && (id[i] as u32) >= 0x21 && (id[i] as u32) < 0x7f,
{
    assert forall|i: int| 0 <= i < id.len() implies #[trigger] id[i] != '/' && id[i] != '\\' && id[i] != ' '
        && id[i] != '\t' && id[i] != '\n' && (id[i] as u32) >= 0x21 && (id[i] as u32) < 0x7f by {
        assert(generation_char(id[i]));
    }
}

} // verus!
