//! Serving one page of a Data Quality privacy-scope contribution, with its
//! strict validation first. The steps are types: definition rows are counted
//! against their bound, then owner rows against theirs, then the definition
//! catalog is admitted, then the lineage of every record is validated, and
//! only a scope that passed all of them can be paged. Each step returns the
//! refusal of its own check, in the order the checks are made.
use vstd::prelude::*;
use crate::privacy_associations::{
    association_verdict, validate_associations, DefinitionCatalog, DirectRecords, ProfileDefinition,
    RuleSetDefinition,
};
use crate::privacy_contract::{
    PrivacyScopeError, MAX_PRIVACY_DEFINITION_RECORDS_REHYDRATED, MAX_PRIVACY_OWNER_RECORDS_SCANNED,
};
use crate::privacy_page::{is_page_of, resources_after, walk_sorted, CursorState, ScopePage};
use crate::privacy_records::{build_definition_catalog, check_definition_count, owner_scan_total, seq_sum,
    strict_catalog};
use crate::privacy_resolution::CanonicalResolutionCache;
use crate::privacy_walk::{all_resolved, data_quality_page, records_ordered, scope_walk, FamilyRecords};

verus! {

/// The rule-set and profile rows were counted within their bound.
pub struct DefinitionRowsCounted {
    definition_rows: usize,
}

/// The owner rows of the seven families were counted within their bound.
pub struct OwnerRowsCounted {
    scanned: u64,
}

/// The definition catalog was admitted: no identity twice, and every
/// profile's rule set present.
pub struct CatalogAdmitted {
    catalog: DefinitionCatalog,
    scanned: u64,
}

/// A contribution whose rows passed every strict check, with the records
/// its pages are drawn from.
pub struct AdmittedScope {
    records: FamilyRecords,
    scanned: u64,
}

impl DefinitionRowsCounted {
    /// How many definition rows were counted.
    pub closed spec fn definition_rows(&self) -> int {
        self.definition_rows as int
    }

    /// Counts the rule-set and profile rows read for the tenant; together
    /// they must stay within the definition rehydration bound.
    pub fn count(rule_set_rows: usize, profile_rows: usize) -> (r: Result<DefinitionRowsCounted, PrivacyScopeError>)
        ensures
            r is Ok <==> rule_set_rows + profile_rows <= MAX_PRIVACY_DEFINITION_RECORDS_REHYDRATED,
            r is Err ==> r->Err_0 == PrivacyScopeError::ScanLimitExceeded,
            r matches Ok(c) ==> c.definition_rows() == rule_set_rows + profile_rows,
    {
        match check_definition_count(rule_set_rows, profile_rows) {
            Err(e) => Err(e),
            Ok(()) => Ok(DefinitionRowsCounted { definition_rows: rule_set_rows + profile_rows }),
        }
    }

    /// Counts the owner rows read for each of the seven families, in walk
    /// order; together they must stay within the owner scan bound.
    pub fn count_owner_rows(self, counts: &[usize; 7]) -> (r: Result<OwnerRowsCounted, PrivacyScopeError>)
        ensures
            r is Ok <==> seq_sum(counts@) <= MAX_PRIVACY_OWNER_RECORDS_SCANNED,
            r is Err ==> r->Err_0 == PrivacyScopeError::ScanLimitExceeded,
            r matches Ok(c) ==> c.scanned() == seq_sum(counts@),
    {
        match owner_scan_total(counts) {
            Err(e) => Err(e),
            Ok(scanned) => Ok(OwnerRowsCounted { scanned }),
        }
    }
}

impl OwnerRowsCounted {
    /// How many owner rows were scanned.
    pub closed spec fn scanned(&self) -> int {
        self.scanned as int
    }

    /// Admits the decoded rule sets and profiles as the definition catalog.
    pub fn admit_catalog(self, rule_sets: Vec<RuleSetDefinition>, profiles: Vec<ProfileDefinition>)
        -> (r: Result<CatalogAdmitted, PrivacyScopeError>)
        ensures
            r is Ok <==> strict_catalog(rule_sets@, profiles@),
            r is Err ==> r->Err_0 == PrivacyScopeError::StoredStateInvalid,
            r matches Ok(c) ==> c.catalog().rule_sets@ == rule_sets@ && c.catalog().profiles@ == profiles@
                && c.scanned() == self.scanned(),
    {
        match build_definition_catalog(rule_sets, profiles) {
            Err(e) => Err(e),
            Ok(catalog) => Ok(CatalogAdmitted { catalog, scanned: self.scanned }),
        }
    }
}

impl CatalogAdmitted {
    /// The admitted catalog.
    pub closed spec fn catalog(&self) -> DefinitionCatalog {
        self.catalog
    }

    /// How many owner rows were scanned.
    pub closed spec fn scanned(&self) -> int {
        self.scanned as int
    }

    /// Validates the lineage of the decoded `lineage` records of the tenant
    /// against the catalog; the scope admitted is paged from `records`, the
    /// same rows as the walk reads them.
    pub fn admit_records(self, tenant_id: &String, lineage: &DirectRecords, records: FamilyRecords)
        -> (r: Result<AdmittedScope, PrivacyScopeError>)
        ensures
            match association_verdict(tenant_id@, self.catalog(), *lineage) {
                Ok(()) => r matches Ok(a) && a.records() == records && a.scanned() == self.scanned(),
                Err(e) => r matches Err(f) && f == e,
            },
    {
        match validate_associations(tenant_id, &self.catalog, lineage) {
            Err(e) => Err(e),
            Ok(()) => Ok(AdmittedScope { records, scanned: self.scanned }),
        }
    }
}

impl AdmittedScope {
    /// The records the admitted scope is paged from.
    pub closed spec fn records(&self) -> FamilyRecords {
        self.records
    }

    /// How many owner rows were scanned.
    pub closed spec fn scanned(&self) -> int {
        self.scanned as int
    }

    /// The records the admitted scope is paged from.
    pub fn family_records(&self) -> (r: &FamilyRecords)
        ensures
            *r == self.records(),
    {
        &self.records
    }

    /// How many owner rows the contribution scanned, as its response reports.
    pub fn scanned_resource_count(&self) -> (r: u64)
        ensures
            r == self.scanned(),
    {
        self.scanned
    }

    /// The page of the admitted scope that follows `cursor`, once every
    /// Party its records name has a settled verdict in `cache`: the walk of
    /// the subject's records after the cursor, at most `page_size` of them,
    /// with a cursor at the last one when more follow.
    pub fn page(&self, cache: &CanonicalResolutionCache, cursor: &CursorState, page_size: u32)
        -> (r: Result<ScopePage, PrivacyScopeError>)
        requires
            all_resolved(self.records(), cache.verdicts()),
        ensures
            is_page_of(resources_after(scope_walk(self.records(), cache.verdicts()), *cursor), page_size, r),
            records_ordered(self.records()) ==> (r matches Ok(page) ==> walk_sorted(page.resources@)),
    {
        data_quality_page(&self.records, cache, cursor, page_size)
    }
}

} // verus!
