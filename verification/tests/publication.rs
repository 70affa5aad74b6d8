use spaghetti_catalog::build_rules::CatalogReadinessPhase;
use spaghetti_catalog::error::EngineError;
use spaghetti_catalog::publication::{
    bounded_usize, check_refresh_commit_order, decode_digest_column, kind_index,
    check_snapshot_header, refresh_snapshot_lineage, validate_building_cas, validate_refresh_semantics,
    PredecessorSnapshotRow, ReadinessTarget, RefreshBuildExpectation, RefreshReadinessState,
    check_ready_transition, check_refresh_ready_transition,
    CheckedSnapshotHeader, StoredSnapshotHeader,
    validate_commit_owner_one_of, validate_member_identity_contract, validate_semantic_build,
    BuildExpectation, CatalogDurablePublicationEntryKind, CatalogReadyPublicationIdentity,
    CatalogReadyRowCommitment, CatalogSnapshotLineage, CommitOwner, DurableBuildState,
};
use spaghetti_catalog::snapshot::{
    CatalogCoveragePlanId, CatalogCoverageScope, CatalogRetainedSnapshotCommitment, CatalogSnapshotId,
    ContractVersionSelection,
};

fn commitment(key: u8, len: u32) -> CatalogReadyRowCommitment {
    let mut k = [0u8; 32];
    k[0] = key;
    CatalogReadyRowCommitment { key: k, payload_digest: [key; 32], payload_len: len }
}

fn checked_header(build_commit_seq: u64, publication: [u8; 32], content: [u8; 32]) -> CheckedSnapshotHeader {
    CheckedSnapshotHeader {
        build_commit_seq,
        durable_contract_version: 1,
        member_identity_contract_id: None,
        publication_digest: publication,
        reducer_revision: [5; 32],
        entries_digest: [6; 32],
        content_digest: content,
        entry_count: 10,
        encoded_bytes: 500,
        source_count: 0,
        member_count: 0,
        project_row_count: 3,
        session_row_count: 1,
        tombstone_count: 0,
    }
}

fn identity(depth: usize) -> CatalogReadyPublicationIdentity {
    let plan = CatalogCoveragePlanId { bytes: [3; 32] };
    let chain = (1..=3u64)
        .map(|commit| {
            CatalogRetainedSnapshotCommitment::from_test_parts(
                CatalogSnapshotId::new(1, plan, 1, commit * 10).unwrap(),
                [commit as u8; 32],
                [commit as u8 + 100; 32],
            )
        })
        .collect();
    CatalogReadyPublicationIdentity {
        header: checked_header(29, [3; 32], [103; 32]),
        lineage: CatalogSnapshotLineage::Initial,
        contract_selection: ContractVersionSelection {
            selection_contract_version: 1,
            model_major: 1,
            external_entity_reference_version: 1,
            semantic_revision_reference_version: 1,
            coverage_contract_version: 1,
            fact_family_versions: Vec::new(),
            query_pack_version: Some(1),
            observation_contract_version: None,
        },
        project_rows: vec![commitment(1, 10), commitment(4, 40), commitment(9, 90)],
        session_rows: vec![commitment(2, 20)],
        refresh_depth: depth,
        retained_chain: chain,
    }
}

#[test]
fn stored_rows_must_match_their_sorted_commitments() {
    let id = identity(0);
    let key = commitment(4, 40).key;
    assert!(id.matches_row(CatalogDurablePublicationEntryKind::ProjectRow, &key, 40, &[4; 32]));
    assert!(!id.matches_row(CatalogDurablePublicationEntryKind::ProjectRow, &key, 41, &[4; 32]));
    assert!(!id.matches_row(CatalogDurablePublicationEntryKind::ProjectRow, &key, 40, &[5; 32]));
    assert!(!id.matches_row(CatalogDurablePublicationEntryKind::SessionRow, &key, 40, &[4; 32]));
    assert!(!id.matches_row(CatalogDurablePublicationEntryKind::Tombstone, &key, 40, &[4; 32]));
    assert!(!id.matches_row(CatalogDurablePublicationEntryKind::ProjectRow, &commitment(5, 0).key, 40, &[4; 32]));

    let first = id.expected_row_keys(CatalogDurablePublicationEntryKind::ProjectRow, None, 2).unwrap();
    assert_eq!(first, vec![commitment(1, 0).key, commitment(4, 0).key]);
    let after = id.expected_row_keys(CatalogDurablePublicationEntryKind::ProjectRow, Some(&commitment(4, 0).key), 5).unwrap();
    assert_eq!(after, vec![commitment(9, 0).key]);
    let end = id.expected_row_keys(CatalogDurablePublicationEntryKind::ProjectRow, Some(&commitment(9, 0).key), 5).unwrap();
    assert!(end.is_empty());
    assert_eq!(id.expected_row_keys(CatalogDurablePublicationEntryKind::ProjectRow, Some(&commitment(5, 0).key), 5), None);
    assert_eq!(id.expected_row_keys(CatalogDurablePublicationEntryKind::Source, None, 5), None);
}

#[test]
fn retained_lineage_accepts_its_exact_ceiling_and_refuses_one_more() {
    assert!(identity(7).permits_refresh_successor());
    assert!(!identity(8).permits_refresh_successor());
    let id = identity(0);
    assert_eq!(id.retained_snapshot_count(), 3);
    let wanted = id.retained_chain()[1];
    assert_eq!(id.retained_snapshot_commitment(wanted.snapshot_id()), Some(wanted));
    let plan = CatalogCoveragePlanId { bytes: [3; 32] };
    assert_eq!(id.retained_snapshot_commitment(CatalogSnapshotId::new(1, plan, 1, 11).unwrap()), None);
    assert!(id.matches_snapshot_commitment(id.retained_chain()[2]));
    assert!(!id.matches_snapshot_commitment(wanted));
    assert!(!id.is_refresh());
    assert_eq!(id.build_commit_seq(), 29);
}

#[test]
fn durable_columns_are_bounded_and_nonzero() {
    assert_eq!(decode_digest_column(&[1; 32], "d"), Ok([1; 32]));
    assert!(matches!(decode_digest_column(&[0; 32], "d"), Err(EngineError::CorruptCatalogState(_))));
    assert!(decode_digest_column(&[1; 31], "d").is_err());
    assert_eq!(bounded_usize(5, 1, 10, "n"), Ok(5));
    assert!(bounded_usize(-1, 0, 10, "n").is_err());
    assert!(bounded_usize(11, 0, 10, "n").is_err());
    assert!(bounded_usize(0, 1, 10, "n").is_err());
    assert_eq!(validate_member_identity_contract("rfc012a/member-v1"), Ok(()));
    assert!(validate_member_identity_contract("").is_err());
    assert!(validate_member_identity_contract(" padded").is_err());
    assert!(validate_member_identity_contract(&"x".repeat(257)).is_err());
    assert_eq!(kind_index(CatalogDurablePublicationEntryKind::Source), 0);
    assert_eq!(kind_index(CatalogDurablePublicationEntryKind::Tombstone), 6);
}

#[test]
fn lineage_commits_must_be_owned_by_source_neutral_commits() {
    let owner = CommitOwner { source_instance_id: None, reason: "catalog.library.build.scheduled".to_owned(), committed_at: Some(5), fact_count: 0 };
    let reasons = vec!["catalog.library.refresh.started", "catalog.library.build.scheduled"];
    assert_eq!(validate_commit_owner_one_of(&owner, &reasons, None), Ok(()));
    assert_eq!(validate_commit_owner_one_of(&owner, &reasons, Some(5)), Ok(()));
    assert!(validate_commit_owner_one_of(&owner, &reasons, Some(6)).is_err());
    let sourced = CommitOwner { source_instance_id: Some(1), ..owner.clone() };
    assert!(validate_commit_owner_one_of(&sourced, &reasons, None).is_err());
    let foreign = CommitOwner { reason: "other".to_owned(), ..owner.clone() };
    assert!(validate_commit_owner_one_of(&foreign, &reasons, None).is_err());
    let with_facts = CommitOwner { fact_count: 1, ..owner };
    assert!(validate_commit_owner_one_of(&with_facts, &reasons, None).is_err());
}

#[test]
fn initial_publication_compare_and_swap() {
    let plan = CatalogCoveragePlanId { bytes: [3; 32] };
    let state = DurableBuildState {
        plan_scope: CatalogCoverageScope::Library,
        plan_id: plan,
        readiness_scope: CatalogCoverageScope::Library,
        readiness_plan_id: plan,
        desired_contract_version: 1,
        epoch: 2,
        attempt: 3,
        phase: CatalogReadinessPhase::Building,
        last_commit_seq: 40,
    };
    let expected = BuildExpectation { coverage_plan_id: plan, desired_contract_version: 1, epoch: 2, attempt: 3 };
    assert_eq!(validate_semantic_build(&state, &expected), Ok(()));
    assert_eq!(validate_building_cas(&state, &expected, 40), Ok(()));
    assert!(validate_building_cas(&state, &expected, 39).is_err());
    assert!(validate_building_cas(&DurableBuildState { last_commit_seq: 0, ..state }, &expected, 0).is_err());
    assert!(validate_building_cas(&DurableBuildState { phase: CatalogReadinessPhase::Ready, ..state }, &expected, 40).is_err());
    let stale = BuildExpectation { attempt: 2, ..expected };
    assert!(matches!(validate_semantic_build(&state, &stale), Err(EngineError::InvalidCommit(_))));
}

#[test]
fn refresh_commits_must_be_strictly_ordered() {
    let plan = CatalogCoveragePlanId { bytes: [3; 32] };
    let snapshot = CatalogSnapshotId::new(1, plan, 4, 40).unwrap();
    assert_eq!(check_refresh_commit_order(10, 30, &snapshot), Ok(10));
    for (predecessor, build) in [(0, 30), (-5, 30), (30, 30), (31, 30), (10, 40), (10, 41)] {
        assert!(matches!(
            check_refresh_commit_order(predecessor, build, &snapshot),
            Err(EngineError::CorruptCatalogState(_))
        ));
    }
}

#[test]
fn refresh_lineage_rebuilds_the_exact_predecessor_snapshot() {
    let plan = CatalogCoveragePlanId { bytes: [3; 32] };
    let snapshot = CatalogSnapshotId::new(2, plan, 4, 40).unwrap();
    let row = PredecessorSnapshotRow {
        pack_contract_version: 2,
        coverage_plan_id: Some(vec![3; 32]),
        readiness_epoch: 3,
    };
    let lineage = refresh_snapshot_lineage(&snapshot, 10, &row, &[7; 32], &[8; 32]).unwrap();
    assert_eq!(
        lineage,
        CatalogSnapshotLineage::Refresh {
            predecessor_snapshot: CatalogSnapshotId::new(2, plan, 3, 10).unwrap(),
            predecessor_publication_digest: [7; 32],
            predecessor_content_digest: [8; 32],
        }
    );
    let corrupt = |row: PredecessorSnapshotRow, publication: &[u8], content: &[u8]| {
        matches!(
            refresh_snapshot_lineage(&snapshot, 10, &row, publication, content),
            Err(EngineError::CorruptCatalogState(_))
        )
    };
    assert!(corrupt(PredecessorSnapshotRow { pack_contract_version: 1, ..row.clone() }, &[7; 32], &[8; 32]));
    assert!(corrupt(PredecessorSnapshotRow { pack_contract_version: 0, ..row.clone() }, &[7; 32], &[8; 32]));
    assert!(corrupt(PredecessorSnapshotRow { coverage_plan_id: None, ..row.clone() }, &[7; 32], &[8; 32]));
    assert!(corrupt(PredecessorSnapshotRow { coverage_plan_id: Some(vec![4; 32]), ..row.clone() }, &[7; 32], &[8; 32]));
    assert!(corrupt(PredecessorSnapshotRow { readiness_epoch: 5, ..row.clone() }, &[7; 32], &[8; 32]));
    assert!(corrupt(PredecessorSnapshotRow { readiness_epoch: 0, ..row.clone() }, &[7; 32], &[8; 32]));
    assert!(corrupt(row.clone(), &[0; 32], &[8; 32]));
    assert!(corrupt(row.clone(), &[7; 32], &[8; 31]));
    assert!(refresh_snapshot_lineage(&snapshot, 10, &PredecessorSnapshotRow { readiness_epoch: 4, ..row }, &[7; 32], &[8; 32]).is_ok());
}

fn stored_header() -> StoredSnapshotHeader {
    StoredSnapshotHeader {
        build_commit_seq: 30,
        durable_contract_version: 2,
        pack_contract_version: 1,
        coverage_plan_id: Some(vec![3; 32]),
        readiness_epoch: 4,
        attempt: 7,
        member_identity_contract_is_null: 0,
        member_identity_contract_id: Some("member-identity-v1".to_string()),
        publication_digest: Some(vec![1; 32]),
        reducer_revision: Some(vec![2; 32]),
        entries_digest: Some(vec![3; 32]),
        content_digest: Some(vec![4; 32]),
        entry_count: 10,
        encoded_bytes: 500,
        source_count: 1,
        member_count: 2,
        project_row_count: 3,
        session_row_count: 4,
        tombstone_count: 0,
    }
}

#[test]
fn snapshot_header_is_checked_against_its_exact_coordinates() {
    let plan = CatalogCoveragePlanId { bytes: [3; 32] };
    let snapshot = CatalogSnapshotId::new(1, plan, 4, 40).unwrap();
    let checked = check_snapshot_header(stored_header(), &snapshot, 7, 100, 1000).unwrap();
    assert_eq!(checked.build_commit_seq, 30);
    assert_eq!(checked.durable_contract_version, 2);
    assert_eq!(checked.publication_digest, [1; 32]);
    assert_eq!(checked.content_digest, [4; 32]);
    assert_eq!(checked.entry_count, 10);
    assert_eq!(checked.project_row_count + checked.session_row_count, 7);
    assert_eq!(checked.member_identity_contract_id.as_deref(), Some("member-identity-v1"));

    let refused = |header: StoredSnapshotHeader| {
        matches!(check_snapshot_header(header, &snapshot, 7, 100, 1000), Err(EngineError::CorruptCatalogState(_)))
    };
    assert!(refused(StoredSnapshotHeader { coverage_plan_id: Some(vec![9; 32]), ..stored_header() }));
    assert!(refused(StoredSnapshotHeader { coverage_plan_id: None, ..stored_header() }));
    assert!(refused(StoredSnapshotHeader { build_commit_seq: 40, ..stored_header() }));
    assert!(refused(StoredSnapshotHeader { build_commit_seq: 0, ..stored_header() }));
    assert!(refused(StoredSnapshotHeader { durable_contract_version: 0, ..stored_header() }));
    assert!(refused(StoredSnapshotHeader { pack_contract_version: 2, ..stored_header() }));
    assert!(refused(StoredSnapshotHeader { readiness_epoch: 3, ..stored_header() }));
    assert!(refused(StoredSnapshotHeader { attempt: 6, ..stored_header() }));
    assert!(refused(StoredSnapshotHeader { entries_digest: Some(vec![0; 32]), ..stored_header() }));
    assert!(refused(StoredSnapshotHeader { reducer_revision: None, ..stored_header() }));
    assert!(refused(StoredSnapshotHeader { entry_count: 0, ..stored_header() }));
    assert!(refused(StoredSnapshotHeader { entry_count: 101, ..stored_header() }));
    assert!(refused(StoredSnapshotHeader { encoded_bytes: 1001, ..stored_header() }));
    assert!(refused(StoredSnapshotHeader { source_count: 4097, ..stored_header() }));
    assert!(refused(StoredSnapshotHeader { tombstone_count: -1, ..stored_header() }));
    assert!(refused(StoredSnapshotHeader { project_row_count: 7, ..stored_header() }));
    assert!(refused(StoredSnapshotHeader { member_identity_contract_is_null: 1, ..stored_header() }));
    assert!(refused(StoredSnapshotHeader {
        member_identity_contract_id: Some(" padded".to_string()),
        ..stored_header()
    }));
    assert!(refused(StoredSnapshotHeader { source_count: 0, ..stored_header() }));
    let source_free = StoredSnapshotHeader {
        source_count: 0,
        member_identity_contract_is_null: 1,
        member_identity_contract_id: None,
        ..stored_header()
    };
    assert!(check_snapshot_header(source_free.clone(), &snapshot, 7, 100, 1000).is_ok());
    assert!(refused(StoredSnapshotHeader { member_identity_contract_is_null: 0, ..source_free }));
}

#[test]
fn refresh_publication_semantics_match_the_exact_refresh_build() {
    let plan = CatalogCoveragePlanId { bytes: [3; 32] };
    let predecessor = CatalogSnapshotId::new(1, plan, 2, 20).unwrap();
    let state = DurableBuildState {
        plan_scope: CatalogCoverageScope::Library,
        plan_id: plan,
        readiness_scope: CatalogCoverageScope::Library,
        readiness_plan_id: plan,
        desired_contract_version: 1,
        epoch: 2,
        attempt: 3,
        phase: CatalogReadinessPhase::Ready,
        last_commit_seq: 25,
    };
    let refresh = RefreshReadinessState {
        refreshing_from_snapshot: Some(predecessor),
        complete_through_commit: Some(20),
        completed_contract_version: Some(1),
        last_complete_snapshot: Some(predecessor),
        retry_reason_code: None,
    };
    let expected = RefreshBuildExpectation {
        build: BuildExpectation { coverage_plan_id: plan, desired_contract_version: 1, epoch: 2, attempt: 3 },
        predecessor_snapshot: predecessor,
        refresh_started_commit_seq: 25,
        is_recovery: false,
        retry_reason_code: None,
    };
    assert_eq!(validate_refresh_semantics(&state, &refresh, &expected), Ok(()));
    let stale = |state: &DurableBuildState, refresh: &RefreshReadinessState, expected: &RefreshBuildExpectation| {
        matches!(validate_refresh_semantics(state, refresh, expected), Err(EngineError::InvalidCommit(_)))
    };
    assert!(stale(&DurableBuildState { last_commit_seq: 26, ..state }, &refresh, &expected));
    assert!(stale(&DurableBuildState { phase: CatalogReadinessPhase::Building, ..state }, &refresh, &expected));
    assert!(stale(&DurableBuildState { attempt: 4, ..state }, &refresh, &expected));
    assert!(stale(&state, &RefreshReadinessState { complete_through_commit: Some(19), ..refresh.clone() }, &expected));
    assert!(stale(&state, &RefreshReadinessState { completed_contract_version: None, ..refresh.clone() }, &expected));
    assert!(stale(&state, &RefreshReadinessState { retry_reason_code: Some("busy".to_string()), ..refresh.clone() }, &expected));
    let other = CatalogSnapshotId::new(1, plan, 2, 21).unwrap();
    assert!(stale(&state, &RefreshReadinessState { last_complete_snapshot: Some(other), ..refresh.clone() }, &expected));

    let recovering = DurableBuildState { phase: CatalogReadinessPhase::Partial, ..state };
    let recovery_readiness = RefreshReadinessState {
        refreshing_from_snapshot: None,
        complete_through_commit: None,
        retry_reason_code: Some("busy".to_string()),
        ..refresh.clone()
    };
    let recovery = RefreshBuildExpectation { is_recovery: true, retry_reason_code: Some("busy".to_string()), ..expected.clone() };
    assert_eq!(validate_refresh_semantics(&recovering, &recovery_readiness, &recovery), Ok(()));
    assert!(stale(&state, &recovery_readiness, &recovery));
    assert!(stale(&recovering, &refresh, &recovery));
}

#[test]
fn ready_transitions_identify_their_publication_commit() {
    let plan = CatalogCoveragePlanId { bytes: [3; 32] };
    let published = CatalogSnapshotId::new(1, plan, 2, 30).unwrap();
    let predecessor = CatalogSnapshotId::new(1, plan, 2, 20).unwrap();
    let target = ReadinessTarget {
        phase: CatalogReadinessPhase::Ready,
        desired_contract_version: 2,
        completed_contract_version: Some(2),
        complete_through_commit: Some(30),
        last_complete_snapshot: Some(published),
        refreshing_from_snapshot: None,
    };
    assert_eq!(check_ready_transition(&target, 30), Ok(()));
    assert!(matches!(check_ready_transition(&target, 31), Err(EngineError::InvalidCommit(_))));
    let stale_version = ReadinessTarget { completed_contract_version: Some(1), ..target };
    assert!(matches!(check_ready_transition(&stale_version, 30), Err(EngineError::InvalidCommit(_))));
    let building = ReadinessTarget { phase: CatalogReadinessPhase::Building, ..target };
    assert!(check_ready_transition(&building, 30).is_err());

    assert_eq!(check_refresh_ready_transition(&target, &predecessor, 30), Ok(()));
    assert!(check_refresh_ready_transition(&target, &published, 30).is_err());
    let still_refreshing = ReadinessTarget { refreshing_from_snapshot: Some(predecessor), ..target };
    assert!(matches!(check_refresh_ready_transition(&still_refreshing, &predecessor, 30), Err(EngineError::InvalidCommit(_))));
    let no_snapshot = ReadinessTarget { last_complete_snapshot: None, ..target };
    assert!(check_refresh_ready_transition(&no_snapshot, &predecessor, 30).is_err());
}
