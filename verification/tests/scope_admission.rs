use crm_adapters::privacy_associations::{
    validate_associations, DefinitionCatalog, DirectRecords, EvaluationJobStatus, JobFacts, ProfileDefinition,
    RuleSetDefinition,
};
use crm_adapters::privacy_contract::{
    PrivacyScopeError, MAX_PRIVACY_DEFINITION_RECORDS_REHYDRATED, MAX_PRIVACY_OWNER_RECORDS_SCANNED,
};
use crm_adapters::privacy_page::{CursorState, ResourceFamily};
use crm_adapters::privacy_records::{check_definition_count, owner_scan_total};
use crm_adapters::privacy_resolution::CanonicalResolutionCache;
use crm_adapters::privacy_scope_read::DefinitionRowsCounted;
use crm_adapters::privacy_walk::{FamilyRecords, ScopeRecord};

fn rule_set() -> RuleSetDefinition {
    RuleSetDefinition { version_id: "rule-set-1".to_owned(), rule_keys: vec!["display_name.minimum".to_owned()] }
}

fn profile() -> ProfileDefinition {
    ProfileDefinition {
        version_id: "profile-1".to_owned(),
        rule_set_version_id: "rule-set-1".to_owned(),
        components: Vec::new(),
    }
}

fn catalog() -> DefinitionCatalog {
    DefinitionCatalog { rule_sets: vec![rule_set()], profiles: vec![profile()] }
}

fn created_job(id: &str, rule_set_id: &str) -> JobFacts {
    JobFacts {
        job_id: id.to_owned(),
        party_id: "party-a".to_owned(),
        rule_set_version_id: rule_set_id.to_owned(),
        profile_version_id: "profile-1".to_owned(),
        status: EvaluationJobStatus::Created,
        evaluated_rules: 0,
        failed_rules: 0,
        party_resource_version: None,
        outcomes_materialized: false,
        created_at: 1,
        updated_at: 1,
    }
}

fn lineage(jobs: Vec<JobFacts>) -> DirectRecords {
    DirectRecords {
        jobs,
        inputs: Vec::new(),
        outcomes: Vec::new(),
        findings: Vec::new(),
        observations: Vec::new(),
        completeness_results: Vec::new(),
        remediation_attempts: Vec::new(),
    }
}

fn walk_records(jobs: Vec<ScopeRecord>) -> FamilyRecords {
    FamilyRecords {
        jobs,
        inputs: Vec::new(),
        outcomes: Vec::new(),
        findings: Vec::new(),
        observations: Vec::new(),
        completeness_results: Vec::new(),
        remediation_attempts: Vec::new(),
    }
}

#[test]
fn definition_rows_are_bounded_together() {
    assert_eq!(check_definition_count(MAX_PRIVACY_DEFINITION_RECORDS_REHYDRATED, 0), Ok(()));
    assert_eq!(check_definition_count(4_096, 4_096), Ok(()));
    assert_eq!(
        check_definition_count(MAX_PRIVACY_DEFINITION_RECORDS_REHYDRATED, 1),
        Err(PrivacyScopeError::ScanLimitExceeded)
    );
    assert_eq!(check_definition_count(usize::MAX, 1), Err(PrivacyScopeError::ScanLimitExceeded));
}

#[test]
fn owner_rows_are_bounded_across_the_seven_families() {
    assert_eq!(owner_scan_total(&[1, 2, 3, 4, 5, 6, 7]), Ok(28));
    assert_eq!(owner_scan_total(&[3, 3, 3, 3, 3, 3, 3]), Ok(21));
    assert_eq!(owner_scan_total(&[MAX_PRIVACY_OWNER_RECORDS_SCANNED, 0, 0, 0, 0, 0, 0]), Ok(65_536));
    assert_eq!(
        owner_scan_total(&[MAX_PRIVACY_OWNER_RECORDS_SCANNED, 0, 0, 0, 0, 0, 1]),
        Err(PrivacyScopeError::ScanLimitExceeded)
    );
    assert_eq!(owner_scan_total(&[usize::MAX, 1, 0, 0, 0, 0, 0]), Err(PrivacyScopeError::ScanLimitExceeded));
}

#[test]
fn lineage_validation_admits_consistent_records_and_refuses_broken_links() {
    let tenant = "tenant-a".to_owned();
    assert_eq!(validate_associations(&tenant, &catalog(), &lineage(Vec::new())), Ok(()));
    assert_eq!(validate_associations(&tenant, &catalog(), &lineage(vec![created_job("job-1", "rule-set-1")])), Ok(()));
    assert_eq!(
        validate_associations(&tenant, &catalog(), &lineage(vec![created_job("job-1", "rule-set-missing")])),
        Err(PrivacyScopeError::AssociationStateInvalid)
    );
    let mut staged = created_job("job-2", "rule-set-1");
    staged.status = EvaluationJobStatus::Staged;
    staged.party_resource_version = Some(3);
    assert_eq!(
        validate_associations(&tenant, &catalog(), &lineage(vec![staged])),
        Err(PrivacyScopeError::AssociationStateInvalid)
    );
}

#[test]
fn the_first_refusal_met_decides_between_a_broken_link_and_the_bound() {
    let tenant = "tenant-a".to_owned();
    let within: Vec<JobFacts> = (0..32_768).map(|i| created_job(&format!("job-{i}"), "rule-set-1")).collect();
    assert_eq!(validate_associations(&tenant, &catalog(), &lineage(within)), Ok(()));
    let mut late: Vec<JobFacts> = (0..32_768).map(|i| created_job(&format!("job-{i}"), "rule-set-1")).collect();
    late.push(created_job("job-broken", "rule-set-missing"));
    assert_eq!(validate_associations(&tenant, &catalog(), &lineage(late)), Err(PrivacyScopeError::ScanLimitExceeded));
    let mut early = vec![created_job("job-broken", "rule-set-missing")];
    early.extend((0..32_768).map(|i| created_job(&format!("job-{i}"), "rule-set-1")));
    assert_eq!(
        validate_associations(&tenant, &catalog(), &lineage(early)),
        Err(PrivacyScopeError::AssociationStateInvalid)
    );
}

#[test]
fn a_scope_is_checked_in_order_before_it_is_paged() {
    let tenant = "tenant-a".to_owned();
    assert_eq!(
        DefinitionRowsCounted::count(MAX_PRIVACY_DEFINITION_RECORDS_REHYDRATED, 1).err(),
        Some(PrivacyScopeError::ScanLimitExceeded)
    );
    let counted = DefinitionRowsCounted::count(1, 1).unwrap();
    assert_eq!(
        DefinitionRowsCounted::count(1, 1).unwrap().count_owner_rows(&[MAX_PRIVACY_OWNER_RECORDS_SCANNED, 1, 0, 0, 0, 0, 0]).err(),
        Some(PrivacyScopeError::ScanLimitExceeded)
    );
    let owner = counted.count_owner_rows(&[2, 0, 0, 0, 0, 0, 0]).unwrap();
    let duplicated = DefinitionRowsCounted::count(2, 1)
        .unwrap()
        .count_owner_rows(&[0; 7])
        .unwrap()
        .admit_catalog(vec![rule_set(), rule_set()], vec![profile()]);
    assert_eq!(duplicated.err(), Some(PrivacyScopeError::StoredStateInvalid));
    let admitted_catalog = owner.admit_catalog(vec![rule_set()], vec![profile()]).unwrap();
    let broken = DefinitionRowsCounted::count(1, 1)
        .unwrap()
        .count_owner_rows(&[1, 0, 0, 0, 0, 0, 0])
        .unwrap()
        .admit_catalog(vec![rule_set()], vec![profile()])
        .unwrap()
        .admit_records(&tenant, &lineage(vec![created_job("job-1", "rule-set-missing")]), walk_records(Vec::new()));
    assert_eq!(broken.err(), Some(PrivacyScopeError::AssociationStateInvalid));

    let records = walk_records(vec![
        ScopeRecord { party_id: "party-a".to_owned(), record_id: "job-1".to_owned(), version: 1 },
        ScopeRecord { party_id: "party-z".to_owned(), record_id: "job-2".to_owned(), version: 1 },
    ]);
    let scope = admitted_catalog
        .admit_records(
            &tenant,
            &lineage(vec![created_job("job-1", "rule-set-1"), created_job("job-2", "rule-set-1")]),
            records,
        )
        .unwrap();
    assert_eq!(scope.scanned_resource_count(), 2);
    let mut cache = CanonicalResolutionCache::new();
    assert_eq!(cache.settle("party-a".to_owned(), Ok(())), Ok(true));
    assert_eq!(cache.settle("party-z".to_owned(), Err("IDENTITY_RESOLUTION_CANONICAL_PARTY_MISMATCH")), Ok(false));
    let start = CursorState { family: ResourceFamily::EvaluationJob, after_record_id: None };
    let page = scope.page(&cache, &start, 10).unwrap();
    assert_eq!(page.resources.len(), 1);
    assert_eq!(page.resources[0].record_id, "job-1");
    assert!(page.next.is_none());
}
