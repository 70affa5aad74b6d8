use spaghetti_catalog::error::EngineError;
use spaghetti_catalog::retention::{
    exact_retirement_exists, plan_retirement, validate_retired_prefix,
    CatalogSnapshotRetirementCommand, CatalogSnapshotRetirementExpectation, RetirementRow,
    RetirementStep, StoredRetirement,
};
use spaghetti_catalog::snapshot::{
    CatalogCoveragePlanId, CatalogCoverageScope, CatalogRetainedSnapshotCommitment,
    CatalogSnapshotId, ContractVersionSelection, FactFamilyVersion,
    CATALOG_QUERY_PACK_CONTRACT_VERSION, MAX_RETAINED_REFRESH_LINEAGE_DEPTH,
};

const DIGEST_BYTES: usize = 32;

fn selection() -> ContractVersionSelection {
    ContractVersionSelection {
        selection_contract_version: 1,
        model_major: 1,
        external_entity_reference_version: 1,
        semantic_revision_reference_version: 1,
        coverage_contract_version: 1,
        fact_family_versions: vec![
            FactFamilyVersion { family: "catalog.project".to_owned(), version: 1 },
            FactFamilyVersion { family: "catalog.session".to_owned(), version: 1 },
        ],
        query_pack_version: Some(CATALOG_QUERY_PACK_CONTRACT_VERSION),
        observation_contract_version: None,
    }
}

fn plan_id() -> CatalogCoveragePlanId {
    CatalogCoveragePlanId { bytes: *blake3::hash(b"library plan").as_bytes() }
}

fn expectation() -> CatalogSnapshotRetirementExpectation {
    let plan = plan_id();
    let predecessor = CatalogSnapshotId::new(CATALOG_QUERY_PACK_CONTRACT_VERSION, plan, 1, 10).unwrap();
    let successor = CatalogSnapshotId::new(CATALOG_QUERY_PACK_CONTRACT_VERSION, plan, 1, 20).unwrap();
    CatalogSnapshotRetirementExpectation::new(
        CatalogCoverageScope::Library,
        plan,
        selection(),
        1,
        1,
        successor.complete_commit,
        0,
        CatalogRetainedSnapshotCommitment::from_test_parts(predecessor, [1; DIGEST_BYTES], [2; DIGEST_BYTES]),
        CatalogRetainedSnapshotCommitment::from_test_parts(successor, [3; DIGEST_BYTES], [4; DIGEST_BYTES]),
    )
    .unwrap()
}

#[test]
fn retirement_expectation_is_exact_bounded_and_redacted() {
    let expected = expectation();
    let debug = format!("{expected:?}");
    assert!(debug.contains("target_snapshot"));
    assert!(debug.contains("successor_snapshot"));
    assert!(!debug.contains("contract_selection"));
    assert!(!debug.contains(&"01".repeat(DIGEST_BYTES)));
    let commitment_debug = format!("{:?}", expected.target());
    assert!(!commitment_debug.contains("publication_digest"));
    assert!(!commitment_debug.contains("content_digest"));

    let mut zero_epoch = expected.clone();
    zero_epoch.epoch = 0;
    assert!(zero_epoch.validate().is_err());

    let mut stale_successor = expected.clone();
    stale_successor.state_commit_seq += 1;
    assert!(stale_successor.validate().is_err());

    let mut exhausted = expected.clone();
    exhausted.retired_prefix_len = MAX_RETAINED_REFRESH_LINEAGE_DEPTH;
    assert!(exhausted.validate().is_err());

    let mut drifted_selection = expected.clone();
    drifted_selection.selection.query_pack_version = Some(2);
    assert!(drifted_selection.validate().is_err());

    let mut zero_commitment = expected;
    let target = zero_commitment.target();
    zero_commitment.target_snapshot = CatalogRetainedSnapshotCommitment::from_test_parts(
        target.snapshot_id(),
        [0; DIGEST_BYTES],
        target.content_digest(),
    );
    assert!(zero_commitment.validate().is_err());
}

#[test]
fn retirement_command_rejects_reversed_time_and_redacts_digests() {
    assert!(CatalogSnapshotRetirementCommand::new(expectation(), 20, 19).is_err());
    let command = CatalogSnapshotRetirementCommand::new(expectation(), 20, 21).unwrap();
    let debug = format!("{command:?}");
    assert!(debug.contains("started_at"));
    assert!(!debug.contains(&"01".repeat(DIGEST_BYTES)));
}

#[test]
fn expectation_refuses_non_library_scope_and_reversed_lineage() {
    let mut project = expectation();
    project.scope = CatalogCoverageScope::Project;
    assert!(matches!(project.validate(), Err(EngineError::InvalidCommit(_))));

    let mut reversed = expectation();
    let target = reversed.target_snapshot;
    reversed.target_snapshot = reversed.successor_snapshot;
    reversed.successor_snapshot = target;
    assert!(reversed.validate().is_err());

    let mut foreign_plan = expectation();
    foreign_plan.coverage_plan_id = CatalogCoveragePlanId { bytes: [7; 32] };
    assert!(foreign_plan.validate().is_err());
}

fn stored_for(expected: &CatalogSnapshotRetirementExpectation) -> StoredRetirement {
    StoredRetirement {
        target_publication: Some(expected.target_snapshot.publication.to_vec()),
        target_content: Some(expected.target_snapshot.content.to_vec()),
        successor_commit: expected.successor_snapshot.snapshot.complete_commit as i64,
        successor_publication: Some(expected.successor_snapshot.publication.to_vec()),
        successor_content: Some(expected.successor_snapshot.content.to_vec()),
    }
}

#[test]
fn retirement_replay_is_idempotent_and_conflicts_are_refused() {
    let expected = expectation();
    assert_eq!(exact_retirement_exists(&expected, &None), Ok(false));
    assert_eq!(exact_retirement_exists(&expected, &Some(stored_for(&expected))), Ok(true));

    let mut conflicting = stored_for(&expected);
    conflicting.successor_content = Some(vec![9; 32]);
    assert!(matches!(
        exact_retirement_exists(&expected, &Some(conflicting)),
        Err(EngineError::InvalidCommit(_))
    ));

    let mut corrupt = stored_for(&expected);
    corrupt.successor_commit = 0;
    assert!(matches!(
        exact_retirement_exists(&expected, &Some(corrupt)),
        Err(EngineError::CorruptCatalogState(_))
    ));

    let command = CatalogSnapshotRetirementCommand::new(expected.clone(), 20, 21).unwrap();
    let mut other_current = expected.clone();
    other_current.attempt = 2;
    assert_eq!(
        plan_retirement(&command, &Some(stored_for(&expected)), &other_current),
        Ok(RetirementStep::AlreadyApplied)
    );
    assert!(matches!(plan_retirement(&command, &None, &other_current), Err(EngineError::InvalidCommit(_))));
    assert_eq!(
        plan_retirement(&command, &None, &expected),
        Ok(RetirementStep::Apply { target: expected.target_snapshot, successor: expected.successor_snapshot })
    );
}

fn chain(length: usize) -> Vec<CatalogRetainedSnapshotCommitment> {
    let plan = plan_id();
    (0..length)
        .map(|index| {
            let snapshot = CatalogSnapshotId::new(CATALOG_QUERY_PACK_CONTRACT_VERSION, plan, 1, 10 + index as u64).unwrap();
            CatalogRetainedSnapshotCommitment::from_test_parts(
                snapshot,
                [u8::try_from(index + 1).unwrap(); DIGEST_BYTES],
                [u8::try_from(index + 33).unwrap(); DIGEST_BYTES],
            )
        })
        .collect()
}

/// Retirement row `index` of `chain`, retired in favour of `successor`,
/// committed at `commit`.
fn row(chain: &[CatalogRetainedSnapshotCommitment], index: usize, successor: usize, commit: i64) -> RetirementRow {
    let target = chain[index];
    let next = chain[successor];
    RetirementRow {
        snapshot_commit: target.snapshot.complete_commit as i64,
        snapshot_publication: Some(target.publication.to_vec()),
        snapshot_content: Some(target.content.to_vec()),
        successor_commit: next.snapshot.complete_commit as i64,
        successor_publication: Some(next.publication.to_vec()),
        successor_content: Some(next.content.to_vec()),
        retirement_commit: commit,
        retired_at: 1_000 + commit,
        owner_exists: 1,
        owner_committed_at: Some(1_000 + commit),
        owner_is_retirement_commit: true,
    }
}

#[test]
fn retirement_restart_scan_accepts_the_exact_bound_and_stops_at_one_over() {
    let chain = chain(MAX_RETAINED_REFRESH_LINEAGE_DEPTH + 1);
    let current = chain.len() - 1;
    let rows: Vec<RetirementRow> = (0..MAX_RETAINED_REFRESH_LINEAGE_DEPTH)
        .map(|index| row(&chain, index, current, 100 + index as i64))
        .collect();
    assert_eq!(validate_retired_prefix(&rows, &chain), Ok(MAX_RETAINED_REFRESH_LINEAGE_DEPTH));

    let mut wrong_successor = rows.clone();
    wrong_successor[0] = row(&chain, 0, 1, 100);
    let error = validate_retired_prefix(&wrong_successor, &chain).unwrap_err();
    assert!(error.message().contains("exact current snapshot"));

    let mut over = rows.clone();
    over.push(row(&chain, current, current, 200));
    let error = validate_retired_prefix(&over, &chain).unwrap_err();
    assert!(matches!(error, EngineError::CorruptCatalogState(_)));
    assert!(error.message().contains("exceeds the bounded non-current ancestry"));
}

#[test]
fn retirement_prefix_refuses_gaps_wrong_successors_and_unordered_commits() {
    let chain = chain(4);
    assert_eq!(validate_retired_prefix(&Vec::new(), &chain), Ok(0));
    assert_eq!(validate_retired_prefix(&vec![row(&chain, 0, 3, 50)], &chain), Ok(1));

    // Skipping the oldest snapshot is not the canonical prefix.
    assert!(validate_retired_prefix(&vec![row(&chain, 1, 3, 50)], &chain).is_err());
    // The successor must be the current snapshot at the retirement commit.
    assert!(validate_retired_prefix(&vec![row(&chain, 0, 2, 50)], &chain).is_err());
    // Retirement commits must increase.
    let unordered = vec![row(&chain, 0, 3, 60), row(&chain, 1, 3, 50)];
    assert!(validate_retired_prefix(&unordered, &chain).is_err());
    // A retirement recorded before its successor existed is invalid.
    let early = vec![row(&chain, 0, 3, 12)];
    assert!(validate_retired_prefix(&early, &chain).is_err());
    // A missing digest column is corrupt state.
    let mut missing = row(&chain, 0, 3, 50);
    missing.snapshot_content = None;
    assert!(validate_retired_prefix(&vec![missing], &chain).is_err());
}
