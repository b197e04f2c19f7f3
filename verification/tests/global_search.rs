use crm_adapters::capability::DataClass;
use crm_adapters::global_search::{
    project, project_trimmed, validate_generation_id, SearchError, SearchEventDelivery, SearchProjectionGeneration,
    SearchSource, INITIAL_GLOBAL_SEARCH_GENERATION_ID, PARTY_CREATED, PARTY_UPDATED, SALES_CREATED, SALES_UPDATED,
    SEARCH_INDEXER_CONSUMER_MODULE_ID, TASK_CREATED, TASK_UPDATED,
};

#[test]
fn generation_registry_subscribes_to_six_authoritative_snapshot_events() {
    let generation = SearchProjectionGeneration::new("g2-test".to_owned()).unwrap();
    assert_eq!(generation.projection_id, "search.global.g2-test");
    assert_eq!(generation.consumer_module_id, SEARCH_INDEXER_CONSUMER_MODULE_ID);
    let event_types = generation.event_types;
    assert_eq!(event_types.len(), 6);
    assert!(event_types.contains(&SALES_CREATED));
    assert!(event_types.contains(&SALES_UPDATED));
    assert!(event_types.contains(&TASK_CREATED));
    assert!(event_types.contains(&TASK_UPDATED));
    assert!(event_types.contains(&PARTY_CREATED));
    assert!(event_types.contains(&PARTY_UPDATED));
    assert!(!event_types.contains(&"sales.deal.stage_changed"));
    assert!(!event_types.contains(&"activities.task.completed"));
}

#[test]
fn production_generation_advances_to_g2_for_subscription_rebuild() {
    assert_eq!(INITIAL_GLOBAL_SEARCH_GENERATION_ID, "g2");
    let generation = SearchProjectionGeneration::new(INITIAL_GLOBAL_SEARCH_GENERATION_ID.to_owned())
        .expect("valid production search generation");
    assert_eq!(generation.projection_id, "search.global.g2");
}

#[test]
fn generation_id_rejects_path_or_whitespace_characters() {
    let error = SearchProjectionGeneration::new("g2/../../bad generation".to_owned()).map(|g| g.projection_id).unwrap_err();
    assert_eq!(error.code(), "GLOBAL_SEARCH_CONFIGURATION_INVALID");
    assert!(validate_generation_id("").is_err());
    assert!(validate_generation_id(&"a".repeat(121)).is_err());
    assert!(validate_generation_id(&"a".repeat(120)).is_ok());
    assert!(validate_generation_id("g2\n").is_err());
}

fn delivery(event_type: &str, owner: &str, schema: &str, class: DataClass, record_type: &str, id: &str, version: i64)
    -> SearchEventDelivery
{
    SearchEventDelivery {
        event_type: event_type.to_owned(),
        source_module_id: owner.to_owned(),
        event_version: "1.0.0".to_owned(),
        payload_owner: owner.to_owned(),
        schema_id: schema.to_owned(),
        schema_version: "1.0.0".to_owned(),
        descriptor_matches: true,
        data_class: class,
        protobuf_encoded: true,
        aggregate_record_type: record_type.to_owned(),
        aggregate_record_id: id.to_owned(),
        aggregate_version: version,
    }
}

fn source(id: Option<&str>, version: Option<i64>, title: &str, kind: i32) -> Option<SearchSource> {
    Some(SearchSource { resource_id: id.map(str::to_owned), version, title: title.to_owned(), party_kind: kind })
}

#[test]
fn party_snapshot_projects_trimmed_display_name_and_kind() {
    let d = delivery(PARTY_UPDATED, "crm.parties", "crm.parties.v1.PartyUpdatedEvent", DataClass::Personal, "parties.party",
        "party-1", 3);
    let doc = project(&"g2".to_owned(), &d, source(Some("party-1"), Some(3), "  Ada Lovelace ", 1)).unwrap();
    assert_eq!(doc.index_id, "crm.global-search");
    assert_eq!(doc.owner_module_id, "crm.parties");
    assert_eq!(doc.resource_id, "party-1");
    assert_eq!(doc.source_version, 3);
    assert_eq!(doc.searchable_fields, vec![("display_name".to_owned(), "Ada Lovelace".to_owned())]);
    assert_eq!(
        doc.display_fields,
        vec![("display_name".to_owned(), "Ada Lovelace".to_owned()), ("kind".to_owned(), "person".to_owned())]
    );
    let blank = project(&"g2".to_owned(), &d, source(Some("party-1"), Some(3), "   ", 1));
    assert_eq!(blank.map(|doc| doc.source_version), Err(SearchError::EventInvalid));
    let kindless = project(&"g2".to_owned(), &d, source(Some("party-1"), Some(3), "Ada", 0));
    assert_eq!(kindless.map(|doc| doc.source_version), Err(SearchError::EventInvalid));
}

#[test]
fn deal_snapshot_keeps_its_title_and_must_match_its_aggregate() {
    let d = delivery(SALES_CREATED, "crm.sales", "crm.sales.v1.DealCreatedEvent", DataClass::Confidential, "sales.deal",
        "deal-1", 1);
    let doc = project(&"g2".to_owned(), &d, source(Some("deal-1"), Some(1), " Big deal", 0)).unwrap();
    assert_eq!(doc.searchable_fields, vec![("name".to_owned(), " Big deal".to_owned())]);
    let stale = project(&"g2".to_owned(), &d, source(Some("deal-1"), Some(2), "Big deal", 0));
    assert_eq!(stale.map(|doc| doc.source_version), Err(SearchError::EventInvalid));
    let mut wrong_class = d;
    wrong_class.data_class = DataClass::Personal;
    let refused = project_trimmed(&"g2".to_owned(), &wrong_class, source(Some("deal-1"), Some(1), "Big deal", 0),
        &"Big deal".to_owned());
    assert_eq!(refused.map(|doc| doc.source_version), Err(SearchError::EventInvalid));
}
