use crm_adapters::privacy_page::{CursorState, ResourceFamily};
use crm_adapters::privacy_resolution::{CanonicalResolutionCache, CANONICAL_PARTY_MISMATCH_CODE};
use crm_adapters::privacy_walk::{data_quality_page, relevant_walk, FamilyRecords, ScopeRecord};

fn record(party: &str, id: &str, version: u64) -> ScopeRecord {
    ScopeRecord { party_id: party.to_owned(), record_id: id.to_owned(), version }
}

fn family_records() -> FamilyRecords {
    FamilyRecords {
        jobs: vec![record("party-alias", "job-1", 1), record("party-unrelated", "job-2", 1), record("party-canonical", "job-3", 2)],
        inputs: vec![record("party-canonical", "input-1", 1)],
        outcomes: vec![record("party-unrelated", "outcome-1", 1)],
        findings: vec![record("party-alias", "finding-1", 3), record("party-canonical", "finding-2", 1)],
        observations: vec![],
        completeness_results: vec![record("party-canonical", "result-1", 1)],
        remediation_attempts: vec![record("party-unrelated", "attempt-1", 1), record("party-alias", "attempt-2", 4)],
    }
}

fn resolved_cache() -> CanonicalResolutionCache {
    let mut cache = CanonicalResolutionCache::new();
    assert_eq!(cache.settle("party-canonical".to_owned(), Ok(())), Ok(true));
    assert_eq!(cache.settle("party-alias".to_owned(), Ok(())), Ok(true));
    assert_eq!(cache.settle("party-unrelated".to_owned(), Err(CANONICAL_PARTY_MISMATCH_CODE)), Ok(false));
    cache
}

#[test]
fn walk_keeps_the_subjects_records_family_by_family_in_identity_order() {
    let walk = relevant_walk(&family_records(), &resolved_cache());
    let ids: Vec<(ResourceFamily, &str, u64)> =
        walk.iter().map(|r| (r.family, r.record_id.as_str(), r.resource_version)).collect();
    assert_eq!(
        ids,
        vec![
            (ResourceFamily::EvaluationJob, "job-1", 1),
            (ResourceFamily::EvaluationJob, "job-3", 2),
            (ResourceFamily::EvaluationInput, "input-1", 1),
            (ResourceFamily::Finding, "finding-1", 3),
            (ResourceFamily::Finding, "finding-2", 1),
            (ResourceFamily::CompletenessResult, "result-1", 1),
            (ResourceFamily::RemediationAttempt, "attempt-2", 4),
        ]
    );
}

#[test]
fn a_family_is_walked_in_the_order_it_was_read() {
    let mut records = family_records();
    records.findings = vec![record("party-canonical", "finding-2", 1), record("party-alias", "finding-1", 3)];
    let walk = relevant_walk(&records, &resolved_cache());
    let ids: Vec<&str> = walk.iter().map(|r| r.record_id.as_str()).collect();
    assert_eq!(ids, vec!["job-1", "job-3", "input-1", "finding-2", "finding-1", "result-1", "attempt-2"]);
    let start = CursorState { family: ResourceFamily::EvaluationJob, after_record_id: None };
    let page = data_quality_page(&records, &resolved_cache(), &start, 10).unwrap();
    assert_eq!(page.resources.len(), 7);
    assert!(page.next.is_none());
}

#[test]
fn pages_of_the_walk_follow_one_another_to_the_end() {
    let records = family_records();
    let cache = resolved_cache();
    let mut cursor = CursorState { family: ResourceFamily::EvaluationJob, after_record_id: None };
    let mut seen: Vec<String> = Vec::new();
    let mut pages = 0;
    loop {
        let page = data_quality_page(&records, &cache, &cursor, 3).unwrap();
        pages += 1;
        assert!(page.resources.len() <= 3);
        seen.extend(page.resources.iter().map(|r| r.record_id.clone()));
        match page.next {
            Some(next) => {
                let last = page.resources.last().unwrap();
                assert_eq!(next.family, last.family);
                assert_eq!(next.after_record_id.as_deref(), Some(last.record_id.as_str()));
                cursor = next;
            }
            None => break,
        }
    }
    assert_eq!(pages, 3);
    assert_eq!(seen, vec!["job-1", "job-3", "input-1", "finding-1", "finding-2", "result-1", "attempt-2"]);
    assert!(!seen.iter().any(|id| id == "job-2" || id == "outcome-1" || id == "attempt-1"));
}

#[test]
fn a_page_starts_after_its_cursor() {
    let cursor = CursorState { family: ResourceFamily::Finding, after_record_id: Some("finding-1".to_owned()) };
    let page = data_quality_page(&family_records(), &resolved_cache(), &cursor, 10).unwrap();
    let ids: Vec<&str> = page.resources.iter().map(|r| r.record_id.as_str()).collect();
    assert_eq!(ids, vec!["finding-2", "result-1", "attempt-2"]);
    assert!(page.next.is_none());
}
