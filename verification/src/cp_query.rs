//! Permission-aware Customer Privacy queries: the case and control query
//! catalogs, the resources and fields each query may disclose, and the strict
//! bounds and filters of the list queries.
use vstd::prelude::*;
use crate::capability::{CapabilityDefinition, CapabilityRisk, DataClass, CONTRACT_VERSION, is_protobuf_definition,
    protobuf_definition};
use crate::cp_case::CustomerPrivacyCoordinates;
use crate::errors::ErrorCategory;
use crate::text::{names_view, owned_strings, str_eq, strings_view};

verus! {

pub const GET_PRIVACY_CASE_CAPABILITY: &'static str = "customer_privacy.case.get";
pub const GET_PRIVACY_CASE_REQUEST_SCHEMA: &'static str = "crm.customer_privacy.v1.GetPrivacyCaseRequest";
pub const GET_PRIVACY_CASE_RESPONSE_SCHEMA: &'static str = "crm.customer_privacy.v1.GetPrivacyCaseResponse";
pub const LIST_PRIVACY_CASES_CAPABILITY: &'static str = "customer_privacy.case.list";
pub const LIST_PRIVACY_CASES_REQUEST_SCHEMA: &'static str = "crm.customer_privacy.v1.ListPrivacyCasesRequest";
pub const LIST_PRIVACY_CASES_RESPONSE_SCHEMA: &'static str = "crm.customer_privacy.v1.ListPrivacyCasesResponse";
pub const QUERY_CAPABILITY_IDS: [&'static str; 2] = [GET_PRIVACY_CASE_CAPABILITY, LIST_PRIVACY_CASES_CAPABILITY];

pub const GET_PROCESSING_RESTRICTION_CAPABILITY: &'static str = "customer_privacy.restriction.get";
pub const GET_PROCESSING_RESTRICTION_REQUEST_SCHEMA: &'static str = "crm.customer_privacy.v1.GetProcessingRestrictionRequest";
pub const GET_PROCESSING_RESTRICTION_RESPONSE_SCHEMA: &'static str = "crm.customer_privacy.v1.GetProcessingRestrictionResponse";
pub const GET_CUSTOMER_DATA_LEGAL_HOLD_CAPABILITY: &'static str = "customer_privacy.legal_hold.get";
pub const GET_CUSTOMER_DATA_LEGAL_HOLD_REQUEST_SCHEMA: &'static str = "crm.customer_privacy.v1.GetCustomerDataLegalHoldRequest";
pub const GET_CUSTOMER_DATA_LEGAL_HOLD_RESPONSE_SCHEMA: &'static str = "crm.customer_privacy.v1.GetCustomerDataLegalHoldResponse";
pub const LIST_CUSTOMER_DATA_LEGAL_HOLDS_BY_SUBJECT_CAPABILITY: &'static str = "customer_privacy.legal_hold.list_by_subject";
pub const LIST_CUSTOMER_DATA_LEGAL_HOLDS_BY_SUBJECT_REQUEST_SCHEMA: &'static str =
    "crm.customer_privacy.v1.ListCustomerDataLegalHoldsBySubjectRequest";
pub const LIST_CUSTOMER_DATA_LEGAL_HOLDS_BY_SUBJECT_RESPONSE_SCHEMA: &'static str =
    "crm.customer_privacy.v1.ListCustomerDataLegalHoldsBySubjectResponse";
pub const CONTROL_QUERY_CAPABILITY_IDS: [&'static str; 3] = [
    GET_PROCESSING_RESTRICTION_CAPABILITY,
    GET_CUSTOMER_DATA_LEGAL_HOLD_CAPABILITY,
    LIST_CUSTOMER_DATA_LEGAL_HOLDS_BY_SUBJECT_CAPABILITY,
];

/// The Party record type whose visibility gates every privacy query.
pub const PARTY_RECORD_TYPE: &'static str = "parties.party";

/// Page size of a list query that names none.
pub const DEFAULT_PAGE_SIZE: u32 = 50;
/// Largest page a list query may ask for.
pub const MAXIMUM_PAGE_SIZE: u32 = 100;
/// Records a list query may inspect for visibility before it gives up.
pub const MAXIMUM_VISIBILITY_SCAN_RECORDS: usize = 4_096;
/// How many records one read of a list's continuation probe asks for.
pub const INTERNAL_SCAN_PAGE_SIZE: u32 = 100;

/// The fields of a privacy case a caller may be allowed to see.
pub const PRIVACY_CASE_FIELDS: [&'static str; 13] = [
    "kind", "status", "version", "policy_version", "created_at_unix_ms", "updated_at_unix_ms",
    "previous_privacy_case_ref", "subject_binding", "pending_rescope", "scope_snapshot_id",
    "privacy_action_plan_ref", "approval", "retry_resume_stage",
];
/// The fields of a processing restriction a caller may be allowed to see.
pub const RESTRICTION_FIELDS: [&'static str; 11] = [
    "canonical_party_ref", "scope", "status", "version", "policy_version", "placed_by_actor_id",
    "placed_at_unix_ms", "effective_from_unix_ms", "expires_at_unix_ms", "released_by_actor_id",
    "released_at_unix_ms",
];
/// The fields of a legal hold a caller may be allowed to see.
pub const LEGAL_HOLD_FIELDS: [&'static str; 12] = [
    "canonical_party_ref", "scope", "authority_reference_id", "reason_code", "policy_version", "status",
    "version", "placed_by_actor_id", "effective_from_unix_ms", "effective_until_unix_ms",
    "released_by_actor_id", "released_at_unix_ms",
];

/// A resource a privacy case query may disclose, and its disclosable fields.
pub struct CustomerPrivacyVisibilityResource {
    pub owner_module_id: &'static str,
    pub resource_type: &'static str,
    pub allowed_fields: Vec<String>,
}

/// A resource a privacy control query may disclose, and its disclosable fields.
pub struct ControlVisibilityResource {
    pub owner_module_id: &'static str,
    pub resource_type: &'static str,
    pub allowed_fields: Vec<String>,
}

/// Whether `id` is one of the privacy case queries.
pub open spec fn is_case_query(id: Seq<char>) -> bool {
    id == GET_PRIVACY_CASE_CAPABILITY@ || id == LIST_PRIVACY_CASES_CAPABILITY@
}

/// The resources a privacy case query may disclose: the subject Party with
/// no field of its own, and the case with all of its fields. Any other
/// coordinate discloses nothing.
pub fn query_visibility_resources(coords: &CustomerPrivacyCoordinates, capability_id: &str)
    -> (r: Vec<CustomerPrivacyVisibilityResource>)
    ensures
        !is_case_query(capability_id@) ==> r@.len() == 0,
        is_case_query(capability_id@) ==> {
            &&& r@.len() == 2
            &&& r@[0].owner_module_id == coords.module_id
            &&& r@[0].resource_type == PARTY_RECORD_TYPE
            &&& r@[0].allowed_fields@.len() == 0
            &&& r@[1].owner_module_id == coords.module_id
            &&& r@[1].resource_type == coords.privacy_case_record_type
            &&& strings_view(r@[1].allowed_fields@) == names_view(PRIVACY_CASE_FIELDS@)
        },
{
    let mut out: Vec<CustomerPrivacyVisibilityResource> = Vec::new();
    if !str_eq(capability_id, GET_PRIVACY_CASE_CAPABILITY) && !str_eq(capability_id, LIST_PRIVACY_CASES_CAPABILITY) {
        return out;
    }
    out.push(CustomerPrivacyVisibilityResource {
        owner_module_id: coords.module_id,
        resource_type: PARTY_RECORD_TYPE,
        allowed_fields: Vec::new(),
    });
    out.push(CustomerPrivacyVisibilityResource {
        owner_module_id: coords.module_id,
        resource_type: coords.privacy_case_record_type,
        allowed_fields: owned_strings(&PRIVACY_CASE_FIELDS),
    });
    out
}

/// The control record type and fields a control query discloses, if it is one.
pub open spec fn control_resource_of(coords: CustomerPrivacyCoordinates, id: Seq<char>)
    -> Option<(&'static str, Seq<Seq<char>>)>
{
    if id == GET_PROCESSING_RESTRICTION_CAPABILITY@ {
        Some((coords.restriction_record_type, names_view(RESTRICTION_FIELDS@)))
    } else if id == GET_CUSTOMER_DATA_LEGAL_HOLD_CAPABILITY@ || id == LIST_CUSTOMER_DATA_LEGAL_HOLDS_BY_SUBJECT_CAPABILITY@ {
        Some((coords.legal_hold_record_type, names_view(LEGAL_HOLD_FIELDS@)))
    } else {
        None
    }
}

/// The resources a control query may disclose: the subject Party with no
/// field of its own, and the restriction or legal hold with all of its
/// fields. Any other coordinate discloses nothing.
pub fn control_query_visibility_resources(coords: &CustomerPrivacyCoordinates, capability_id: &str)
    -> (r: Vec<ControlVisibilityResource>)
    ensures
        match control_resource_of(*coords, capability_id@) {
            None => r@.len() == 0,
            Some((resource_type, fields)) => {
                &&& r@.len() == 2
                &&& r@[0].owner_module_id == coords.module_id
                &&& r@[0].resource_type == PARTY_RECORD_TYPE
                &&& r@[0].allowed_fields@.len() == 0
                &&& r@[1].owner_module_id == coords.module_id
                &&& r@[1].resource_type == resource_type
                &&& strings_view(r@[1].allowed_fields@) == fields
            },
        },
{
    let mut out: Vec<ControlVisibilityResource> = Vec::new();
    let (resource_type, fields) = if str_eq(capability_id, GET_PROCESSING_RESTRICTION_CAPABILITY) {
        (coords.restriction_record_type, owned_strings(&RESTRICTION_FIELDS))
    } else if str_eq(capability_id, GET_CUSTOMER_DATA_LEGAL_HOLD_CAPABILITY)
        || str_eq(capability_id, LIST_CUSTOMER_DATA_LEGAL_HOLDS_BY_SUBJECT_CAPABILITY)
    {
        (coords.legal_hold_record_type, owned_strings(&LEGAL_HOLD_FIELDS))
    } else {
        return out;
    };
    out.push(ControlVisibilityResource {
        owner_module_id: coords.module_id,
        resource_type: PARTY_RECORD_TYPE,
        allowed_fields: Vec::new(),
    });
    out.push(ControlVisibilityResource { owner_module_id: coords.module_id, resource_type, allowed_fields: fields });
    out
}

/// `d` is the read-only privacy query `id` admitting exactly `class`.
pub open spec fn is_privacy_query_definition(d: CapabilityDefinition, owner: Seq<char>, id: Seq<char>, input: Seq<char>,
    output: Seq<char>, class: DataClass) -> bool
{
    &&& is_protobuf_definition(d, id, owner, input, output, class)
    &&& d.risk == CapabilityRisk::Low
    &&& !d.mutation
    &&& !d.requires_idempotency
    &&& !d.requires_approval
}

fn query_definition(coords: &CustomerPrivacyCoordinates, id: &str, input: &str, output: &str, class: DataClass)
    -> (r: CapabilityDefinition)
    ensures
        is_privacy_query_definition(r, coords.module_id@, id@, input@, output@, class),
{
    protobuf_definition(id, coords.module_id, input, output, class, CapabilityRisk::Low, false, false)
}

/// The privacy case query catalog: get and list, confidential and read-only.
pub fn query_capability_definitions(coords: &CustomerPrivacyCoordinates)
    -> (r: Result<Vec<CapabilityDefinition>, QueryRefusal>)
    ensures
        match r {
            Ok(v) => {
                &&& v@.len() == 2
                &&& is_privacy_query_definition(v@[0], coords.module_id@, GET_PRIVACY_CASE_CAPABILITY@,
                    GET_PRIVACY_CASE_REQUEST_SCHEMA@, GET_PRIVACY_CASE_RESPONSE_SCHEMA@, DataClass::Confidential)
                &&& is_privacy_query_definition(v@[1], coords.module_id@, LIST_PRIVACY_CASES_CAPABILITY@,
                    LIST_PRIVACY_CASES_REQUEST_SCHEMA@, LIST_PRIVACY_CASES_RESPONSE_SCHEMA@, DataClass::Confidential)
            },
            Err(_) => false,
        },
{
    let mut v = Vec::new();
    v.push(query_definition(coords, GET_PRIVACY_CASE_CAPABILITY, GET_PRIVACY_CASE_REQUEST_SCHEMA,
        GET_PRIVACY_CASE_RESPONSE_SCHEMA, DataClass::Confidential));
    v.push(query_definition(coords, LIST_PRIVACY_CASES_CAPABILITY, LIST_PRIVACY_CASES_REQUEST_SCHEMA,
        LIST_PRIVACY_CASES_RESPONSE_SCHEMA, DataClass::Confidential));
    Ok(v)
}

/// The control query catalog: restriction get, legal hold get and legal
/// holds by subject, personal and read-only, in that order.
pub fn control_query_capability_definitions(coords: &CustomerPrivacyCoordinates)
    -> (r: Result<Vec<CapabilityDefinition>, QueryRefusal>)
    ensures
        match r {
            Ok(v) => {
                &&& v@.len() == 3
                &&& is_privacy_query_definition(v@[0], coords.module_id@, GET_PROCESSING_RESTRICTION_CAPABILITY@,
                    GET_PROCESSING_RESTRICTION_REQUEST_SCHEMA@, GET_PROCESSING_RESTRICTION_RESPONSE_SCHEMA@,
                    DataClass::Personal)
                &&& is_privacy_query_definition(v@[1], coords.module_id@, GET_CUSTOMER_DATA_LEGAL_HOLD_CAPABILITY@,
                    GET_CUSTOMER_DATA_LEGAL_HOLD_REQUEST_SCHEMA@, GET_CUSTOMER_DATA_LEGAL_HOLD_RESPONSE_SCHEMA@,
                    DataClass::Personal)
                &&& is_privacy_query_definition(v@[2], coords.module_id@,
                    LIST_CUSTOMER_DATA_LEGAL_HOLDS_BY_SUBJECT_CAPABILITY@,
                    LIST_CUSTOMER_DATA_LEGAL_HOLDS_BY_SUBJECT_REQUEST_SCHEMA@,
                    LIST_CUSTOMER_DATA_LEGAL_HOLDS_BY_SUBJECT_RESPONSE_SCHEMA@, DataClass::Personal)
            },
            Err(_) => false,
        },
{
    let mut v = Vec::new();
    v.push(query_definition(coords, GET_PROCESSING_RESTRICTION_CAPABILITY, GET_PROCESSING_RESTRICTION_REQUEST_SCHEMA,
        GET_PROCESSING_RESTRICTION_RESPONSE_SCHEMA, DataClass::Personal));
    v.push(query_definition(coords, GET_CUSTOMER_DATA_LEGAL_HOLD_CAPABILITY, GET_CUSTOMER_DATA_LEGAL_HOLD_REQUEST_SCHEMA,
        GET_CUSTOMER_DATA_LEGAL_HOLD_RESPONSE_SCHEMA, DataClass::Personal));
    v.push(query_definition(coords, LIST_CUSTOMER_DATA_LEGAL_HOLDS_BY_SUBJECT_CAPABILITY,
        LIST_CUSTOMER_DATA_LEGAL_HOLDS_BY_SUBJECT_REQUEST_SCHEMA, LIST_CUSTOMER_DATA_LEGAL_HOLDS_BY_SUBJECT_RESPONSE_SCHEMA,
        DataClass::Personal));
    Ok(v)
}

/// Why a privacy query was refused.
#[derive(Debug, Clone, Copy, PartialEq, Eq, Structural)]
pub enum QueryRefusal {
    CaseQueryUnsupported,
    ControlQueryUnsupported,
    /// A list page size is negative.
    NegativePageSize,
    /// A list page size is above [`MAXIMUM_PAGE_SIZE`].
    PageSizeTooLarge,
    /// A case kind filter is unspecified or unknown.
    InvalidKindFilter,
    /// A case status filter is unspecified or unknown.
    InvalidStatusFilter,
    /// A legal-hold status filter is neither active nor released.
    InvalidLegalHoldStatusFilter,
    CaseListScanLimitExceeded,
    LegalHoldListScanLimitExceeded,
    /// A stored case carries a negative timestamp.
    CaseStateInvalid,
    /// A stored control carries a negative timestamp, cannot be decoded, or
    /// names another control or tenant than the record it was read from.
    ControlStateInvalid,
    /// The requested case is absent, hidden, names another case or tenant,
    /// or its bound subject is hidden: the caller cannot tell these apart.
    CaseNotFound,
    /// The requested control is absent, hidden, or protects a hidden subject.
    ControlNotFound,
}

impl QueryRefusal {
    /// The code reported for this refusal.
    pub open spec fn error_code(self) -> &'static str {
        match self {
            QueryRefusal::CaseQueryUnsupported => "CUSTOMER_PRIVACY_QUERY_UNSUPPORTED",
            QueryRefusal::ControlQueryUnsupported => "CUSTOMER_PRIVACY_CONTROL_QUERY_UNSUPPORTED",
            QueryRefusal::NegativePageSize
            | QueryRefusal::PageSizeTooLarge
            | QueryRefusal::InvalidKindFilter
            | QueryRefusal::InvalidStatusFilter
            | QueryRefusal::InvalidLegalHoldStatusFilter => "SDK_INVALID_ARGUMENT",
            QueryRefusal::CaseListScanLimitExceeded => "CUSTOMER_PRIVACY_CASE_LIST_SCAN_LIMIT_EXCEEDED",
            QueryRefusal::LegalHoldListScanLimitExceeded => "CUSTOMER_PRIVACY_LEGAL_HOLD_LIST_SCAN_LIMIT_EXCEEDED",
            QueryRefusal::CaseStateInvalid => "CUSTOMER_PRIVACY_CASE_STATE_INVALID",
            QueryRefusal::ControlStateInvalid => "CUSTOMER_PRIVACY_CONTROL_STATE_INVALID",
            QueryRefusal::CaseNotFound => "CUSTOMER_PRIVACY_CASE_NOT_FOUND",
            QueryRefusal::ControlNotFound => "CUSTOMER_PRIVACY_CONTROL_NOT_FOUND",
        }
    }

    /// The stable error code reported to callers.
    pub fn code(&self) -> (r: &'static str)
        ensures
            r == self.error_code(),
    {
        match self {
            QueryRefusal::CaseQueryUnsupported => "CUSTOMER_PRIVACY_QUERY_UNSUPPORTED",
            QueryRefusal::ControlQueryUnsupported => "CUSTOMER_PRIVACY_CONTROL_QUERY_UNSUPPORTED",
            QueryRefusal::NegativePageSize
            | QueryRefusal::PageSizeTooLarge
            | QueryRefusal::InvalidKindFilter
            | QueryRefusal::InvalidStatusFilter
            | QueryRefusal::InvalidLegalHoldStatusFilter => "SDK_INVALID_ARGUMENT",
            QueryRefusal::CaseListScanLimitExceeded => "CUSTOMER_PRIVACY_CASE_LIST_SCAN_LIMIT_EXCEEDED",
            QueryRefusal::LegalHoldListScanLimitExceeded => "CUSTOMER_PRIVACY_LEGAL_HOLD_LIST_SCAN_LIMIT_EXCEEDED",
            QueryRefusal::CaseStateInvalid => "CUSTOMER_PRIVACY_CASE_STATE_INVALID",
            QueryRefusal::ControlStateInvalid => "CUSTOMER_PRIVACY_CONTROL_STATE_INVALID",
            QueryRefusal::CaseNotFound => "CUSTOMER_PRIVACY_CASE_NOT_FOUND",
            QueryRefusal::ControlNotFound => "CUSTOMER_PRIVACY_CONTROL_NOT_FOUND",
        }
    }

    /// The category under which this refusal is reported.
    pub open spec fn error_category(self) -> ErrorCategory {
        match self {
            QueryRefusal::CaseListScanLimitExceeded | QueryRefusal::LegalHoldListScanLimitExceeded =>
                ErrorCategory::Unavailable,
            QueryRefusal::CaseStateInvalid | QueryRefusal::ControlStateInvalid => ErrorCategory::Internal,
            QueryRefusal::CaseNotFound | QueryRefusal::ControlNotFound => ErrorCategory::NotFound,
            _ => ErrorCategory::InvalidArgument,
        }
    }

    /// The category under which the refusal is reported.
    pub fn category(&self) -> (r: ErrorCategory)
        ensures
            r == self.error_category(),
    {
        match self {
            QueryRefusal::CaseListScanLimitExceeded | QueryRefusal::LegalHoldListScanLimitExceeded =>
                ErrorCategory::Unavailable,
            QueryRefusal::CaseStateInvalid | QueryRefusal::ControlStateInvalid => ErrorCategory::Internal,
            QueryRefusal::CaseNotFound | QueryRefusal::ControlNotFound => ErrorCategory::NotFound,
            _ => ErrorCategory::InvalidArgument,
        }
    }
}

/// Whether a definition is a read-only privacy query of `ids` at the
/// release contract version, owned by the privacy module.
pub open spec fn is_served_query(coords: CustomerPrivacyCoordinates, d: CapabilityDefinition, control: bool) -> bool {
    &&& d.owner_module_id@ == coords.module_id@
    &&& (if control {
        d.capability_id@ == GET_PROCESSING_RESTRICTION_CAPABILITY@
            || d.capability_id@ == GET_CUSTOMER_DATA_LEGAL_HOLD_CAPABILITY@
            || d.capability_id@ == LIST_CUSTOMER_DATA_LEGAL_HOLDS_BY_SUBJECT_CAPABILITY@
    } else {
        is_case_query(d.capability_id@)
    })
    &&& d.capability_version@ == CONTRACT_VERSION@
    &&& !d.mutation
}

/// Refuses a definition the case (`control == false`) or control query
/// adapter does not serve.
pub fn ensure_query_definition(coords: &CustomerPrivacyCoordinates, definition: &CapabilityDefinition, control: bool)
    -> (r: Result<(), QueryRefusal>)
    ensures
        r is Ok <==> is_served_query(*coords, *definition, control),
        r is Err ==> r == Err::<(), QueryRefusal>(if control { QueryRefusal::ControlQueryUnsupported } else {
            QueryRefusal::CaseQueryUnsupported }),
{
    let id = definition.capability_id.as_str();
    let known = if control {
        str_eq(id, GET_PROCESSING_RESTRICTION_CAPABILITY) || str_eq(id, GET_CUSTOMER_DATA_LEGAL_HOLD_CAPABILITY)
            || str_eq(id, LIST_CUSTOMER_DATA_LEGAL_HOLDS_BY_SUBJECT_CAPABILITY)
    } else {
        str_eq(id, GET_PRIVACY_CASE_CAPABILITY) || str_eq(id, LIST_PRIVACY_CASES_CAPABILITY)
    };
    if !str_eq(definition.owner_module_id.as_str(), coords.module_id) || !known
        || !str_eq(definition.capability_version.as_str(), CONTRACT_VERSION) || definition.mutation
    {
        return Err(if control { QueryRefusal::ControlQueryUnsupported } else { QueryRefusal::CaseQueryUnsupported });
    }
    Ok(())
}

/// The page size a list query serves: zero means the default, a negative
/// size or one above the maximum is refused.
pub open spec fn page_size_outcome(value: i32) -> Result<u32, QueryRefusal> {
    if value < 0 {
        Err(QueryRefusal::NegativePageSize)
    } else if value == 0 {
        Ok(DEFAULT_PAGE_SIZE)
    } else if value > MAXIMUM_PAGE_SIZE {
        Err(QueryRefusal::PageSizeTooLarge)
    } else {
        Ok(value as u32)
    }
}

/// Reads the page size of a privacy list query.
pub fn page_size(value: i32) -> (r: Result<u32, QueryRefusal>)
    ensures
        r == page_size_outcome(value),
{
    if value < 0 {
        return Err(QueryRefusal::NegativePageSize);
    }
    let size = value as u32;
    let size = if size == 0 { DEFAULT_PAGE_SIZE } else { size };
    if size > MAXIMUM_PAGE_SIZE {
        return Err(QueryRefusal::PageSizeTooLarge);
    }
    Ok(size)
}

/// A served page size is always between one and the maximum.
pub proof fn served_page_sizes_are_bounded(value: i32)
    ensures
        page_size_outcome(value) matches Ok(size) ==> 1 <= size <= MAXIMUM_PAGE_SIZE,
{
}

/// Wire number of the last privacy case kind.
pub const LAST_PRIVACY_CASE_KIND: i32 = 4;
/// Wire number of the last privacy case status.
pub const LAST_PRIVACY_CASE_STATUS: i32 = 16;
/// Wire number of an active legal hold.
pub const LEGAL_HOLD_STATUS_ACTIVE: i32 = 1;
/// Wire number of a released legal hold.
pub const LEGAL_HOLD_STATUS_RELEASED: i32 = 2;

/// Reads an optional case kind filter: absent passes, a specified known
/// kind passes unchanged, anything else is refused.
pub fn kind_filter(value: Option<i32>) -> (r: Result<Option<i32>, QueryRefusal>)
    ensures
        match value {
            None => r == Ok::<Option<i32>, QueryRefusal>(None),
            Some(v) => if 1 <= v <= LAST_PRIVACY_CASE_KIND {
                r == Ok::<Option<i32>, QueryRefusal>(Some(v))
            } else {
                r == Err::<Option<i32>, QueryRefusal>(QueryRefusal::InvalidKindFilter)
            },
        },
{
    match value {
        None => Ok(None),
        Some(v) => if 1 <= v && v <= LAST_PRIVACY_CASE_KIND { Ok(Some(v)) } else { Err(QueryRefusal::InvalidKindFilter) },
    }
}

/// Reads an optional case status filter: absent passes, a specified known
/// status passes unchanged, anything else is refused.
pub fn status_filter(value: Option<i32>) -> (r: Result<Option<i32>, QueryRefusal>)
    ensures
        match value {
            None => r == Ok::<Option<i32>, QueryRefusal>(None),
            Some(v) => if 1 <= v <= LAST_PRIVACY_CASE_STATUS {
                r == Ok::<Option<i32>, QueryRefusal>(Some(v))
            } else {
                r == Err::<Option<i32>, QueryRefusal>(QueryRefusal::InvalidStatusFilter)
            },
        },
{
    match value {
        None => Ok(None),
        Some(v) => if 1 <= v && v <= LAST_PRIVACY_CASE_STATUS { Ok(Some(v)) } else { Err(QueryRefusal::InvalidStatusFilter) },
    }
}

/// Reads an optional legal-hold status filter: only active or released.
pub fn legal_hold_status_filter(value: Option<i32>) -> (r: Result<Option<i32>, QueryRefusal>)
    ensures
        match value {
            None => r == Ok::<Option<i32>, QueryRefusal>(None),
            Some(v) => if v == LEGAL_HOLD_STATUS_ACTIVE || v == LEGAL_HOLD_STATUS_RELEASED {
                r == Ok::<Option<i32>, QueryRefusal>(Some(v))
            } else {
                r == Err::<Option<i32>, QueryRefusal>(QueryRefusal::InvalidLegalHoldStatusFilter)
            },
        },
{
    match value {
        None => Ok(None),
        Some(v) => if v == LEGAL_HOLD_STATUS_ACTIVE || v == LEGAL_HOLD_STATUS_RELEASED {
            Ok(Some(v))
        } else {
            Err(QueryRefusal::InvalidLegalHoldStatusFilter)
        },
    }
}

/// Whether a legal hold, active or released, passes a status filter.
pub fn legal_hold_status_matches(hold_active: bool, filter: Option<i32>) -> (r: bool)
    ensures
        r == match filter {
            None => true,
            Some(s) => s == (if hold_active { LEGAL_HOLD_STATUS_ACTIVE } else { LEGAL_HOLD_STATUS_RELEASED }),
        },
{
    match filter {
        None => true,
        Some(s) => s == (if hold_active { LEGAL_HOLD_STATUS_ACTIVE } else { LEGAL_HOLD_STATUS_RELEASED }),
    }
}

/// Refuses a list query that has inspected more records than the bound;
/// the legal-hold list (`control`) and the case list report it apart.
pub fn enforce_scan_limit(scanned: usize, control: bool) -> (r: Result<(), QueryRefusal>)
    ensures
        scanned <= MAXIMUM_VISIBILITY_SCAN_RECORDS ==> r is Ok,
        scanned > MAXIMUM_VISIBILITY_SCAN_RECORDS ==> r == Err::<(), QueryRefusal>(if control {
            QueryRefusal::LegalHoldListScanLimitExceeded } else { QueryRefusal::CaseListScanLimitExceeded }),
{
    if scanned > MAXIMUM_VISIBILITY_SCAN_RECORDS {
        return Err(if control { QueryRefusal::LegalHoldListScanLimitExceeded } else {
            QueryRefusal::CaseListScanLimitExceeded });
    }
    Ok(())
}

/// Milliseconds of a stored non-negative nanosecond timestamp; a negative
/// one is corrupt state of a control (`control`) or a case.
pub fn stored_nanos_to_millis(value: i64, control: bool) -> (r: Result<i64, QueryRefusal>)
    ensures
        value >= 0 ==> r == Ok::<i64, QueryRefusal>((value / 1_000_000) as i64),
        value < 0 ==> r == Err::<i64, QueryRefusal>(if control { QueryRefusal::ControlStateInvalid } else {
            QueryRefusal::CaseStateInvalid }),
{
    if value < 0 {
        return Err(if control { QueryRefusal::ControlStateInvalid } else { QueryRefusal::CaseStateInvalid });
    }
    Ok(value / 1_000_000)
}

/// Whether a stored case passes a case list's filters: it is bound to the
/// listed canonical Party, and its wire kind and status pass the filters
/// that are set.
pub open spec fn case_admitted(subject_party_id: Option<String>, kind: i32, status: i32, party_id: String,
    kind_filter: Option<i32>, status_filter: Option<i32>) -> bool
{
    &&& subject_party_id matches Some(p) && p@ == party_id@
    &&& (kind_filter matches Some(k) ==> k == kind)
    &&& (status_filter matches Some(s) ==> s == status)
}

/// Whether a stored case passes a case list's filters; a case without a
/// subject binding passes none.
pub fn case_matches_filters(subject_party_id: Option<&String>, kind: i32, status: i32, party_id: &String,
    kind_filter: Option<i32>, status_filter: Option<i32>) -> (r: bool)
    ensures
        r == case_admitted(match subject_party_id {
            Some(p) => Some(*p),
            None => None,
        }, kind, status, *party_id, kind_filter, status_filter),
{
    let bound = match subject_party_id {
        None => return false,
        Some(p) => str_eq(p.as_str(), party_id.as_str()),
    };
    let kind_ok = match kind_filter {
        None => true,
        Some(k) => k == kind,
    };
    let status_ok = match status_filter {
        None => true,
        Some(s) => s == status,
    };
    bound && kind_ok && status_ok
}

/// Whether a stored legal hold passes a hold list's filters: it holds data
/// of the listed canonical Party and its status passes the filter.
pub fn hold_matches_filters(hold_party_id: &String, hold_active: bool, party_id: &String, status_filter: Option<i32>)
    -> (r: bool)
    ensures
        r == (hold_party_id@ == party_id@ && match status_filter {
            None => true,
            Some(s) => s == (if hold_active { LEGAL_HOLD_STATUS_ACTIVE } else { LEGAL_HOLD_STATUS_RELEASED }),
        }),
{
    str_eq(hold_party_id.as_str(), party_id.as_str()) && legal_hold_status_matches(hold_active, status_filter)
}

/// What a read of one privacy case by id answers, from what the read learned
/// in turn: whether the record exists in the tenant, whether the caller may
/// see it, whether it decodes, the case and tenant ids it decodes to, and,
/// where the case binds a subject, whether the caller may see that Party.
pub open spec fn case_read_outcome(found: bool, record_visible: bool, decoded: bool, case_id: Seq<char>,
    case_tenant: Seq<char>, requested_id: Seq<char>, tenant: Seq<char>, subject_visible: Option<bool>)
    -> Result<(), QueryRefusal> {
    if !found || !record_visible {
        Err(QueryRefusal::CaseNotFound)
    } else if !decoded {
        Err(QueryRefusal::CaseStateInvalid)
    } else if case_id != requested_id || case_tenant != tenant {
        Err(QueryRefusal::CaseNotFound)
    } else if subject_visible == Some(false) {
        Err(QueryRefusal::CaseNotFound)
    } else {
        Ok(())
    }
}

/// Decides a read of one privacy case by id. An absent record, a hidden
/// record, a record that decodes to another case or tenant, and a case whose
/// bound subject is hidden are all answered with the same not-found refusal;
/// only a record that cannot be decoded is reported as invalid state.
pub fn case_read_verdict(found: bool, record_visible: bool, decoded: bool, case_id: &str, case_tenant: &str,
    requested_id: &str, tenant: &str, subject_visible: Option<bool>) -> (r: Result<(), QueryRefusal>)
    ensures
        r == case_read_outcome(found, record_visible, decoded, case_id@, case_tenant@, requested_id@, tenant@,
            subject_visible),
{
    if !found || !record_visible {
        Err(QueryRefusal::CaseNotFound)
    } else if !decoded {
        Err(QueryRefusal::CaseStateInvalid)
    } else if !str_eq(case_id, requested_id) || !str_eq(case_tenant, tenant) {
        Err(QueryRefusal::CaseNotFound)
    } else if subject_visible == Some(false) {
        Err(QueryRefusal::CaseNotFound)
    } else {
        Ok(())
    }
}

/// What a read of one processing restriction or legal hold by id answers:
/// an absent or hidden record is not found; a record that does not decode, or
/// decodes to another control or tenant, is invalid state; a control whose
/// canonical Party is hidden is not found.
pub open spec fn control_read_outcome(found: bool, record_visible: bool, decoded: bool, control_id: Seq<char>,
    control_tenant: Seq<char>, stored_id: Seq<char>, tenant: Seq<char>, subject_visible: bool)
    -> Result<(), QueryRefusal> {
    if !found || !record_visible {
        Err(QueryRefusal::ControlNotFound)
    } else if !decoded || control_id != stored_id || control_tenant != tenant {
        Err(QueryRefusal::ControlStateInvalid)
    } else if !subject_visible {
        Err(QueryRefusal::ControlNotFound)
    } else {
        Ok(())
    }
}

/// Decides a read of one processing restriction or legal hold by id.
pub fn control_read_verdict(found: bool, record_visible: bool, decoded: bool, control_id: &str,
    control_tenant: &str, stored_id: &str, tenant: &str, subject_visible: bool) -> (r: Result<(), QueryRefusal>)
    ensures
        r == control_read_outcome(found, record_visible, decoded, control_id@, control_tenant@, stored_id@, tenant@,
            subject_visible),
{
    if !found || !record_visible {
        Err(QueryRefusal::ControlNotFound)
    } else if !decoded || !str_eq(control_id, stored_id) || !str_eq(control_tenant, tenant) {
        Err(QueryRefusal::ControlStateInvalid)
    } else if !subject_visible {
        Err(QueryRefusal::ControlNotFound)
    } else {
        Ok(())
    }
}

/// A read of a case by id never tells a caller why it was not served: every
/// refusal is the one not-found answer, except for a visible record that does
/// not decode; and the case is served exactly when it exists, is visible,
/// decodes to the requested case of the caller's tenant, and its bound
/// subject, if any, is visible.
pub proof fn case_reads_refuse_uniformly(found: bool, record_visible: bool, decoded: bool, case_id: Seq<char>,
    case_tenant: Seq<char>, requested_id: Seq<char>, tenant: Seq<char>, subject_visible: Option<bool>)
    ensures
        ({
            let r = case_read_outcome(found, record_visible, decoded, case_id, case_tenant, requested_id, tenant,
                subject_visible);
            &&& r is Err ==> (r->Err_0 == QueryRefusal::CaseNotFound || (r->Err_0 == QueryRefusal::CaseStateInvalid
                && found && record_visible && !decoded))
            &&& r is Err ==> r->Err_0.error_category() == ErrorCategory::NotFound
                || r->Err_0.error_category() == ErrorCategory::Internal
            &&& r is Ok <==> (found && record_visible && decoded && case_id == requested_id && case_tenant == tenant
                && subject_visible != Some(false))
        }),
{
}


/// A case list only lists cases bound to the listed canonical Party, and
/// each filter it sets excludes every case of another kind or status; a case
/// with no subject binding is never listed.
pub proof fn case_lists_show_only_matching_cases_of_the_party(subject_party_id: Option<String>, kind: i32,
    status: i32, party_id: String, kind_filter: Option<i32>, status_filter: Option<i32>)
    ensures
        subject_party_id is None ==> !case_admitted(subject_party_id, kind, status, party_id, kind_filter,
            status_filter),
        subject_party_id is Some && subject_party_id->0@ != party_id@ ==> !case_admitted(subject_party_id, kind,
            status, party_id, kind_filter, status_filter),
        kind_filter is Some && kind_filter->0 != kind ==> !case_admitted(subject_party_id, kind, status, party_id,
            kind_filter, status_filter),
        status_filter is Some && status_filter->0 != status ==> !case_admitted(subject_party_id, kind, status,
            party_id, kind_filter, status_filter),
        subject_party_id is Some && subject_party_id->0@ == party_id@ && kind_filter is None && status_filter
            is None ==> case_admitted(subject_party_id, kind, status, party_id, kind_filter, status_filter),
{
}

} // verus!
