use spaghetti_catalog::readiness::{
    assemble_readiness, catalog_field, convergence_field, usage_field, Evidence, ReadinessField,
    ReadinessState, UsageReadinessRow,
};

fn evidence() -> Evidence {
    Evidence {
        sources: 2,
        degraded_sources: 0,
        degraded_reason: None,
        catalog_projects: 3,
        catalog_sessions: 10,
        transcript_sessions: 8,
        canonical_sessions: 5,
        hydrated_sessions: 4,
        scanned_at_commit_seq: 77,
        search_ready: false,
    }
}

#[test]
fn readiness_states_have_stable_wire_text() {
    assert_eq!(ReadinessState::Pending.as_str(), "pending");
    assert_eq!(ReadinessState::Indexing.as_str(), "indexing");
    assert_eq!(ReadinessState::Ready.as_str(), "ready");
    assert_eq!(ReadinessState::Degraded.as_str(), "degraded");
    assert_eq!(ReadinessState::Unavailable.as_str(), "unavailable");
}

#[test]
fn catalog_is_ready_while_history_still_indexes() {
    let readiness = assemble_readiness(&evidence(), ReadinessField::new(ReadinessState::Ready, 9, None), 90);
    assert_eq!(readiness.at_commit_seq, 90);
    assert_eq!(readiness.catalog.state, ReadinessState::Ready);
    assert_eq!(readiness.catalog.committed_at_seq, 77);
    assert_eq!(readiness.catalog.detail.as_deref(), Some("3 projects, 10 sessions"));
    assert_eq!(readiness.history.state, ReadinessState::Indexing);
    assert_eq!(readiness.history.detail.as_deref(), Some("5 of 8 transcripts decoded"));
    assert_eq!(readiness.capabilities.detail.as_deref(), Some("4 of 8 sessions decoded for capability facts"));
    assert_eq!(readiness.artifacts.detail.as_deref(), Some("4 of 8 sessions decoded for artifact facts"));
    assert_eq!(readiness.search.state, ReadinessState::Pending);
    assert_eq!(readiness.search.detail.as_deref(), Some("full-text bootstrap has not finished"));
}

#[test]
fn unscanned_degraded_and_empty_catalogs() {
    let mut unscanned = evidence();
    unscanned.sources = 0;
    let field = catalog_field(&unscanned, 0);
    assert_eq!(field.state, ReadinessState::Pending);
    assert_eq!(field.detail.as_deref(), Some("no configured source has been scanned yet"));
    assert_eq!(convergence_field(&unscanned, 0, 5, "x"), ReadinessField::new(ReadinessState::Pending, 5, None));

    let mut degraded = evidence();
    degraded.degraded_sources = 1;
    assert_eq!(
        catalog_field(&degraded, 3).detail.as_deref(),
        Some("3 projects, 10 sessions; a configured source could not be read completely")
    );
    degraded.degraded_reason = Some("source_busy: locked".to_owned());
    assert_eq!(catalog_field(&degraded, 3).state, ReadinessState::Degraded);
    assert_eq!(catalog_field(&degraded, 3).detail.as_deref(), Some("3 projects, 10 sessions; source_busy: locked"));

    let mut empty = evidence();
    empty.transcript_sessions = 0;
    let field = convergence_field(&empty, 3, 8, "transcripts decoded");
    assert_eq!(field.state, ReadinessState::Ready);
    assert_eq!(field.detail.as_deref(), Some("0 of 0 transcripts decoded"));

    let mut searchable = evidence();
    searchable.search_ready = true;
    searchable.hydrated_sessions = 8;
    let readiness = assemble_readiness(&searchable, ReadinessField::new(ReadinessState::Pending, 1, None), 12);
    assert_eq!(readiness.search.state, ReadinessState::Ready);
    assert_eq!(readiness.search.detail.as_deref(), Some("8 of 8 sessions indexed for search"));
}

fn usage_row(readiness: &str, count: i64, commit: i64, detail: Option<&str>) -> UsageReadinessRow {
    UsageReadinessRow {
        readiness: readiness.to_owned(),
        count,
        last_commit_seq: commit,
        detail: detail.map(str::to_owned),
    }
}

#[test]
fn usage_readiness_follows_the_published_projection() {
    let none = usage_field(&Vec::new(), 40);
    assert_eq!(none.state, ReadinessState::Pending);
    assert_eq!(none.committed_at_seq, 40);

    let ready = usage_field(&vec![usage_row("ready", 2, 17, None)], 40);
    assert_eq!(ready.state, ReadinessState::Ready);
    assert_eq!(ready.committed_at_seq, 17);
    assert_eq!(ready.detail.as_deref(), Some("2 of 2 sources"));

    let indexing = usage_field(&vec![usage_row("pending", 1, 3, Some("warming")), usage_row("ready", 1, 9, None)], 40);
    assert_eq!(indexing.state, ReadinessState::Indexing);
    assert_eq!(indexing.detail.as_deref(), Some("1 of 2 sources"));

    let degraded = usage_field(
        &vec![usage_row("pending", 1, 0, Some("first")), usage_row("unavailable", 1, 0, Some("second"))],
        40,
    );
    assert_eq!(degraded.state, ReadinessState::Degraded);
    assert_eq!(degraded.committed_at_seq, 40);
    assert_eq!(degraded.detail.as_deref(), Some("first"));

    let unexplained = usage_field(&vec![usage_row("unavailable", 1, 0, None)], 40);
    assert_eq!(unexplained.detail.as_deref(), Some("a source cannot produce response-level usage"));
}
