use crm_adapters::dq_model::{
    FindingStatus, QualitySeverity, FINDING_OBSERVATION_RECORD_TYPE, FINDING_RECORD_TYPE, PARTY_RULE_SET_VERSION_RECORD_TYPE,
};
use crm_adapters::capability::{CapabilityRisk, DataClass};
use crm_adapters::dq_model::MODULE_ID;
use crm_adapters::dq_query::{
    ensure_definition, ensure_extended_definition, extended_query_capability_definitions,
    finding_query_capability_definition, query_capability_definitions, QueryError, EXTENDED_QUERY_CAPABILITY_IDS,
    GET_FINDING_CAPABILITY, GET_PARTY_COMPLETENESS_PROFILE_CAPABILITY, GET_PARTY_RULE_SET_CAPABILITY,
    LIST_ASSIGNED_FINDINGS_CAPABILITY, QUERY_CAPABILITY_IDS,
};
use crm_adapters::dq_visibility::{
    apply_definition_visibility, assigned_actor_filter, data_quality_visibility, enforce_scan_limit, hidden_fields,
    owner_projection_fields, severity_filter_wire, status_filter_wire, validated_severity_filter,
    validated_status_filter, visible_fields, FindingFilter, FindingSummary, VisibilityDecision, FINDING_FIELDS,
};

#[test]
fn immutable_definition_queries_are_exact_confidential_read_only_surfaces() {
    let definitions = query_capability_definitions().unwrap();
    assert_eq!(definitions.len(), 2);
    for (definition, expected_capability) in definitions.iter().zip(QUERY_CAPABILITY_IDS) {
        assert_eq!(definition.capability_id.as_str(), expected_capability);
        assert_eq!(definition.owner_module_id.as_str(), MODULE_ID);
        assert_eq!(definition.input_contract.allowed_data_classes, vec![DataClass::Confidential]);
        assert_eq!(definition.risk, CapabilityRisk::Low);
        assert!(!definition.mutation);
        assert!(!definition.requires_idempotency);
        assert!(!definition.requires_approval);
    }
}

#[test]
fn immutable_definition_gets_remain_exact_confidential_read_only_surfaces() {
    let definitions = query_capability_definitions().unwrap();
    assert_eq!(definitions.len(), 2);
    for capability in [GET_PARTY_RULE_SET_CAPABILITY, GET_PARTY_COMPLETENESS_PROFILE_CAPABILITY] {
        let definition = definitions
            .iter()
            .find(|definition| definition.capability_id.as_str() == capability)
            .expect("registered Data Quality query capability");
        assert_eq!(definition.input_contract.allowed_data_classes, vec![DataClass::Confidential]);
        assert_eq!(definition.risk, CapabilityRisk::Low);
        assert!(!definition.mutation);
        assert!(!definition.requires_idempotency);
        assert!(!definition.requires_approval);
    }
}

#[test]
fn published_queries_admit_only_the_definition_queries() {
    for definition in query_capability_definitions().unwrap().iter() {
        assert!(ensure_definition(definition).is_ok());
    }
    let finding = finding_query_capability_definition().unwrap();
    assert_eq!(ensure_definition(&finding), Err(QueryError::UnsupportedQuery));
    assert!(ensure_extended_definition(&finding).is_ok());
}

#[test]
fn extended_query_catalog_matches_capability_order_and_is_read_only() {
    let definitions = extended_query_capability_definitions().unwrap();
    assert_eq!(definitions.len(), EXTENDED_QUERY_CAPABILITY_IDS.len());
    for (definition, id) in definitions.iter().zip(EXTENDED_QUERY_CAPABILITY_IDS) {
        assert_eq!(definition.capability_id.as_str(), id);
        assert!(!definition.mutation);
        assert!(ensure_extended_definition(definition).is_ok());
    }
    let mut foreign = finding_query_capability_definition().unwrap();
    foreign.owner_module_id = "crm.other".to_owned();
    assert_eq!(ensure_extended_definition(&foreign), Err(QueryError::UnsupportedQuery));
}

#[test]
fn visible_fields_follow_capability_and_record_type() {
    assert_eq!(visible_fields(GET_PARTY_COMPLETENESS_PROFILE_CAPABILITY, PARTY_RULE_SET_VERSION_RECORD_TYPE), vec!["definition"]);
    assert_eq!(visible_fields(LIST_ASSIGNED_FINDINGS_CAPABILITY, FINDING_RECORD_TYPE).len(), FINDING_FIELDS.len());
    assert_eq!(visible_fields(GET_FINDING_CAPABILITY, FINDING_OBSERVATION_RECORD_TYPE).len(), 7);
    assert!(visible_fields(LIST_ASSIGNED_FINDINGS_CAPABILITY, FINDING_OBSERVATION_RECORD_TYPE).is_empty());
}

#[test]
fn deployment_hidden_fields_remove_only_exact_matches() {
    let config = " data_quality.finding.get | crm.data-quality | data_quality.finding | waiver_reason ,,\
                  data_quality.finding.get|crm.other|data_quality.finding|status,\
                  data_quality.finding.get|crm.data-quality|data_quality.finding|rule_key|extra";
    let hidden = hidden_fields(config, GET_FINDING_CAPABILITY, FINDING_RECORD_TYPE);
    assert_eq!(hidden, vec!["waiver_reason"]);
    let fields = owner_projection_fields(GET_FINDING_CAPABILITY, FINDING_RECORD_TYPE, Some(config));
    assert_eq!(fields.len(), FINDING_FIELDS.len() - 1);
    assert!(!fields.contains(&"waiver_reason".to_owned()));
    assert!(fields.contains(&"status".to_owned()));
    assert_eq!(owner_projection_fields(GET_FINDING_CAPABILITY, FINDING_RECORD_TYPE, None).len(), FINDING_FIELDS.len());
}

fn decision(visible: bool, id: &str) -> VisibilityDecision {
    VisibilityDecision {
        resource_visible: visible,
        allowed_fields: vec!["party_ref".to_owned()],
        decision_id: id.to_owned(),
        policy_version: "policy/7".to_owned(),
    }
}

#[test]
fn owner_projection_discloses_through_a_visible_proxy_only() {
    let exact = data_quality_visibility(decision(true, "exact"), None, GET_FINDING_CAPABILITY, FINDING_RECORD_TYPE, None);
    assert_eq!(exact.decision_id, "exact");
    let hidden = data_quality_visibility(
        decision(false, "exact"),
        Some(decision(false, "proxy")),
        GET_FINDING_CAPABILITY,
        FINDING_RECORD_TYPE,
        None,
    );
    assert!(!hidden.resource_visible);
    assert_eq!(hidden.decision_id, "proxy");
    let config = "data_quality.finding.get|crm.data-quality|data_quality.finding|waiver_reason";
    let projected = data_quality_visibility(
        decision(false, "exact"),
        Some(decision(true, "proxy")),
        GET_FINDING_CAPABILITY,
        FINDING_RECORD_TYPE,
        Some(config),
    );
    assert!(projected.resource_visible);
    let mut expected = visible_fields(GET_FINDING_CAPABILITY, FINDING_RECORD_TYPE);
    expected.retain(|f| f != "waiver_reason");
    assert_eq!(projected.allowed_fields, expected);
    assert!(!projected.allowed_fields.contains(&"waiver_reason".to_owned()));
    assert_eq!(projected.decision_id, "proxy:dq-owner-projection:data_quality.finding");
    assert_eq!(projected.policy_version, "policy/7+data-quality-owner-projection/v1");
    let listed = data_quality_visibility(
        decision(false, "exact"),
        Some(decision(true, "proxy")),
        LIST_ASSIGNED_FINDINGS_CAPABILITY,
        FINDING_OBSERVATION_RECORD_TYPE,
        None,
    );
    assert!(listed.allowed_fields.is_empty());
}

#[test]
fn finding_filters_are_strict_and_bind_their_wire_numbers() {
    assert_eq!(validated_status_filter(Some(2)), Ok(Some(FindingStatus::Acknowledged)));
    assert_eq!(validated_status_filter(Some(0)), Err(QueryError::InvalidStatusFilter));
    assert_eq!(validated_severity_filter(Some(9)), Err(QueryError::InvalidSeverityFilter));
    assert_eq!(validated_severity_filter(None), Ok(None));
    assert_eq!(status_filter_wire(None), 0);
    assert_eq!(status_filter_wire(Some(FindingStatus::Remediated)), 4);
    assert_eq!(severity_filter_wire(Some(QualitySeverity::Warning)), 2);
    assert_eq!(enforce_scan_limit(10_001), Err(QueryError::ScanLimitExceeded));
    assert!(enforce_scan_limit(10_000).is_ok());
    assert_eq!(assigned_actor_filter(None, "actor-self"), "actor-self");
    assert_eq!(assigned_actor_filter(Some("actor-b".to_owned()), "actor-self"), "actor-b");
}

#[test]
fn finding_filter_requires_every_set_criterion() {
    let finding = FindingSummary {
        party_id: "party-a".to_owned(),
        assigned_actor_id: Some("steward".to_owned()),
        status: FindingStatus::Open,
        severity: QualitySeverity::Error,
    };
    let filter = |party: Option<&str>, actor: Option<&str>, status, severity| FindingFilter {
        party_id: party.map(str::to_owned),
        assigned_actor_id: actor.map(str::to_owned),
        status,
        severity,
    };
    assert!(filter(None, None, None, None).matches(&finding));
    assert!(filter(Some("party-a"), Some("steward"), Some(FindingStatus::Open), Some(QualitySeverity::Error)).matches(&finding));
    assert!(!filter(Some("party-b"), None, None, None).matches(&finding));
    assert!(!filter(None, Some("other"), None, None).matches(&finding));
    assert!(!filter(None, None, Some(FindingStatus::Waived), None).matches(&finding));
    let unassigned = FindingSummary { assigned_actor_id: None, ..finding };
    assert!(!filter(None, Some("steward"), None, None).matches(&unassigned));
}

#[test]
fn hidden_definitions_are_cleared() {
    let mut definition = Some(3);
    apply_definition_visibility(&mut definition, true);
    assert_eq!(definition, Some(3));
    apply_definition_visibility(&mut definition, false);
    assert_eq!(definition, None);
}

#[test]
fn the_visibility_proxy_is_the_rule_set_record_of_the_same_identity() {
    let proxy = crm_adapters::dq_visibility::visibility_proxy("finding-9");
    assert_eq!(proxy.record_type, crm_adapters::dq_visibility::VISIBILITY_PROXY_RECORD_TYPE);
    assert_eq!(proxy.record_type, crm_adapters::dq_model::PARTY_RULE_SET_VERSION_RECORD_TYPE);
    assert_eq!(proxy.record_id, "finding-9");
}
