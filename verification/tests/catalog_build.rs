use spaghetti_catalog::build_rules::authorization_gate;
use spaghetti_catalog::build_rules::sort_ids;
use spaghetti_catalog::build_rules::{require_authorized_instances, require_durable_plan};
use spaghetti_catalog::snapshot::CatalogCoveragePlanId;
use spaghetti_catalog::build_rules::{
    common_contract_selection, publish_action, source_pass_priority, validate_configured_sources,
    CatalogBuildIntent, CatalogConfiguredSource, CatalogReadinessPhase, DurableBuildReadiness,
    IngestPriority, PublishAction,
};
use spaghetti_catalog::build_rules::CatalogBuildIntent::{Refresh, Startup};
use spaghetti_catalog::build_rules::CatalogReadinessPhase::{Building, Degraded, Error, Partial, Pending, Ready};
use spaghetti_catalog::error::{catalog_composition_error, CatalogCompositionError, EngineError};
use spaghetti_catalog::snapshot::{ContractVersionSelection, FactFamilyVersion};

#[test]
fn composition_failures_classify_source_loss_without_leaking_integrity_detail() {
    let source = catalog_composition_error(
        "produce catalog source",
        &CatalogCompositionError::source_unavailable("catalog producer failed to read a declared source object"),
    );
    assert!(matches!(source, EngineError::Observation { operation: "produce catalog source", .. }));

    let integrity = catalog_composition_error(
        "assemble catalog refresh projection",
        &CatalogCompositionError::invalid("/Users/alice/private/catalog.json"),
    );
    assert!(matches!(
        integrity,
        EngineError::CatalogIntegrity { operation: "assemble catalog refresh projection" }
    ));
    let message = integrity.message();
    assert!(!message.contains("/Users/"));
    assert!(!message.contains("alice"));
    assert!(!message.contains("private"));
}

fn source(adapter: &str) -> CatalogConfiguredSource {
    CatalogConfiguredSource::new(adapter.to_owned(), vec![format!("/roots/{adapter}")], [5; 32])
}

#[test]
fn duplicate_empty_invalid_or_cancelled_configuration_is_refused() {
    assert_eq!(validate_configured_sources(&vec![source("alpha"), source("beta")], false), Ok(()));
    assert!(matches!(
        validate_configured_sources(&vec![source("alpha"), source("alpha")], false),
        Err(EngineError::InvalidConfig(_))
    ));
    assert!(matches!(validate_configured_sources(&Vec::new(), false), Err(EngineError::InvalidConfig(_))));
    assert!(matches!(
        validate_configured_sources(&vec![source("not valid")], false),
        Err(EngineError::InvalidConfig(_))
    ));
    assert_eq!(validate_configured_sources(&vec![source("alpha")], true), Err(EngineError::QueryCancelled));
}

#[test]
fn duplicate_or_cancelled_catalog_configuration_mutates_nothing() {
    let alpha = source("alpha");
    // Both refusals come before any source is recorded.
    assert!(matches!(
        validate_configured_sources(&vec![alpha.clone(), alpha.clone()], false),
        Err(EngineError::InvalidConfig(_))
    ));
    assert!(matches!(validate_configured_sources(&vec![alpha], true), Err(EngineError::QueryCancelled)));
}

fn state(phase: CatalogReadinessPhase, complete: bool, refreshing: bool) -> Option<DurableBuildReadiness> {
    Some(DurableBuildReadiness { phase, has_last_complete_snapshot: complete, refreshing })
}

#[test]
fn prepared_builds_resume_from_the_durable_phase() {
    assert_eq!(publish_action(None, true, Startup), Ok(PublishAction::PublishInitial));
    assert_eq!(publish_action(state(Pending, false, false), true, Startup), Ok(PublishAction::PublishInitial));
    assert_eq!(publish_action(state(Building, true, false), true, Startup), Ok(PublishAction::PublishRefresh));
    assert_eq!(publish_action(state(Building, false, false), true, Refresh), Ok(PublishAction::PublishInitial));
    assert_eq!(publish_action(state(Ready, true, false), true, Startup), Ok(PublishAction::RetainLastComplete));
    assert_eq!(publish_action(state(Ready, true, true), true, Startup), Ok(PublishAction::PublishRefresh));
    assert_eq!(publish_action(state(Ready, true, false), true, Refresh), Ok(PublishAction::PublishRefresh));
    assert_eq!(publish_action(state(Error, true, false), true, Startup), Ok(PublishAction::RetainLastComplete));
    assert_eq!(publish_action(state(Error, false, false), true, Startup), Ok(PublishAction::PublishInitial));
    assert_eq!(publish_action(state(Error, true, false), true, Refresh), Ok(PublishAction::PublishRefresh));
    assert_eq!(publish_action(state(Degraded, true, false), true, Startup), Ok(PublishAction::RetainLastComplete));
    assert_eq!(publish_action(state(Degraded, true, false), true, Refresh), Ok(PublishAction::PublishRefresh));
    assert!(matches!(publish_action(state(Partial, true, false), true, Refresh), Err(EngineError::InvalidCommit(_))));
    assert!(matches!(publish_action(state(Ready, true, false), false, Startup), Err(EngineError::InvalidCommit(_))));
    assert_eq!(source_pass_priority(Startup), IngestPriority::Backfill);
    assert_eq!(source_pass_priority(Refresh), IngestPriority::ForegroundRepair);
}

fn selection(pack: Option<u32>) -> ContractVersionSelection {
    ContractVersionSelection {
        selection_contract_version: 1,
        model_major: 1,
        external_entity_reference_version: 1,
        semantic_revision_reference_version: 1,
        coverage_contract_version: 1,
        fact_family_versions: vec![FactFamilyVersion { family: "catalog.project".to_owned(), version: 1 }],
        query_pack_version: pack,
        observation_contract_version: None,
    }
}

#[test]
fn sources_must_negotiate_one_contract_selection() {
    let common = common_contract_selection(&vec![selection(Some(1)), selection(Some(1))]).unwrap();
    assert_eq!(common, selection(Some(1)));
    assert!(matches!(
        common_contract_selection(&vec![selection(Some(1)), selection(None)]),
        Err(EngineError::InvalidConfig(_))
    ));
}

#[test]
fn every_configured_source_registers_before_all_source_authority_denial() {
    let ids = vec!["gamma".to_owned(), "alpha".to_owned(), "beta".to_owned()];
    assert_eq!(
        authorization_gate(&ids, &vec![false, false, false]),
        Some(vec!["alpha".to_owned(), "beta".to_owned(), "gamma".to_owned()])
    );
    assert_eq!(authorization_gate(&ids, &vec![true, false, true]), Some(vec!["alpha".to_owned()]));
    assert_eq!(authorization_gate(&ids, &vec![true, true, true]), None);
}

#[test]
fn ids_sort_by_their_bytes() {
    let sorted = sort_ids(vec!["b".to_owned(), "a-2".to_owned(), "a".to_owned(), "B".to_owned(), "a".to_owned()]);
    assert_eq!(sorted, vec!["B", "a", "a", "a-2", "b"]);
    assert!(sort_ids(Vec::new()).is_empty());
}

#[test]
fn authorized_instances_and_durable_plans_are_required() {
    assert!(matches!(require_authorized_instances(0), Err(EngineError::InvalidConfig(_))));
    assert_eq!(require_authorized_instances(2), Ok(()));
    let plan = CatalogCoveragePlanId { bytes: [1; 32] };
    let other = CatalogCoveragePlanId { bytes: [2; 32] };
    assert_eq!(require_durable_plan(None, &plan), Ok(()));
    assert_eq!(require_durable_plan(Some(&plan), &plan), Ok(()));
    assert!(matches!(require_durable_plan(Some(&other), &plan), Err(EngineError::InvalidCommit(_))));
}
