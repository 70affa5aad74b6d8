use spaghetti_catalog::error::EngineError;
use spaghetti_catalog::publication::{
    CheckedSnapshotHeader, CatalogDurablePublicationEntryKind as Kind, CatalogReadyPublicationIdentity,
    CatalogReadyRowCommitment, CatalogSnapshotLineage,
};
use spaghetti_catalog::retained_query::{
    check_resolution_row, check_retained_page, check_retained_rows, classify_retained_snapshot, RetainedSnapshotClass, decode_nonzero_digest, entry_kind, invalid_catalog_query_input,
    next_continuation, require_expected_plan, CatalogQueryKind, CatalogRetainedPageRequest,
    RetainedContinuation, RetainedPageScan, RetainedRowColumns,
};
use spaghetti_catalog::snapshot::{
    CatalogCoveragePlanId, CatalogRetainedSnapshotCommitment, CatalogSnapshotId, ContractVersionSelection,
};

fn selection(version: u32) -> ContractVersionSelection {
    ContractVersionSelection {
        selection_contract_version: version,
        model_major: 1,
        external_entity_reference_version: 1,
        semantic_revision_reference_version: 1,
        coverage_contract_version: 1,
        fact_family_versions: Vec::new(),
        query_pack_version: Some(1),
        observation_contract_version: None,
    }
}

fn key(n: u8) -> [u8; 32] {
    let mut k = [1u8; 32];
    k[0] = n;
    k
}

fn payload(n: u8) -> Vec<u8> {
    vec![n; usize::from(n) + 1]
}

fn checked_header(build_commit_seq: u64, publication: [u8; 32], content: [u8; 32]) -> CheckedSnapshotHeader {
    CheckedSnapshotHeader {
        build_commit_seq,
        durable_contract_version: 1,
        member_identity_contract_id: None,
        publication_digest: publication,
        reducer_revision: [5; 32],
        entries_digest: [6; 32],
        content_digest: content,
        entry_count: 10,
        encoded_bytes: 500,
        source_count: 0,
        member_count: 0,
        project_row_count: 3,
        session_row_count: 1,
        tombstone_count: 0,
    }
}

fn identity() -> CatalogReadyPublicationIdentity {
    let rows = (1..=3u8)
        .map(|n| CatalogReadyRowCommitment {
            key: key(n),
            payload_digest: *blake3::hash(&payload(n)).as_bytes(),
            payload_len: u32::from(n) + 1,
        })
        .collect();
    CatalogReadyPublicationIdentity {
        header: checked_header(3, [9; 32], [8; 32]),
        lineage: CatalogSnapshotLineage::Initial,
        contract_selection: selection(1),
        project_rows: rows,
        session_rows: Vec::new(),
        refresh_depth: 0,
        retained_chain: Vec::new(),
    }
}

fn stored(n: u8) -> RetainedRowColumns {
    RetainedRowColumns {
        key: Some(key(n).to_vec()),
        payload_length: Some(i64::from(n) + 1),
        payload: Some(payload(n)),
        payload_digest: Some(blake3::hash(&payload(n)).as_bytes().to_vec()),
    }
}

#[test]
fn retained_pages_serve_only_committed_rows() {
    let id = identity();
    let kind = entry_kind(CatalogQueryKind::Projects);
    assert_eq!(kind, Kind::ProjectRow);
    let expected = id.expected_row_keys(kind, None, 3).unwrap();
    let rows = vec![stored(1), stored(2), stored(3)];
    assert_eq!(check_retained_rows(&id, kind, &expected, &rows, 2), Ok(RetainedPageScan { rows: 2, has_more: true }));
    let all = id.expected_row_keys(kind, None, 4).unwrap();
    assert_eq!(check_retained_rows(&id, kind, &all, &rows, 3), Ok(RetainedPageScan { rows: 3, has_more: false }));

    let mut tampered = rows.clone();
    tampered[1].payload = Some(vec![0; 3]);
    assert!(matches!(check_retained_rows(&id, kind, &all, &tampered, 3), Err(EngineError::CorruptCatalogState(_))));
    let missing = vec![stored(1), stored(3)];
    assert!(check_retained_rows(&id, kind, &all, &missing, 3).is_err());
    let short = vec![stored(1), stored(2)];
    assert!(check_retained_rows(&id, kind, &all, &short, 3).is_err());
    let mut lying_length = rows.clone();
    lying_length[0].payload_length = Some(5);
    assert!(check_retained_rows(&id, kind, &all, &lying_length, 3).is_err());
    assert!(check_retained_rows(&id, Kind::SessionRow, &all, &rows, 3).is_err());
}

#[test]
fn retained_page_requests_bind_to_their_exact_snapshot() {
    let plan = CatalogCoveragePlanId { bytes: [4; 32] };
    let snapshot = CatalogSnapshotId::new(1, plan, 1, 10).unwrap();
    let other = CatalogSnapshotId::new(1, plan, 1, 11).unwrap();
    let fingerprint = [6u8; 32];
    let request = CatalogRetainedPageRequest::projects_all(selection(1), snapshot, 2, None);
    assert_eq!(request.query_kind, CatalogQueryKind::Projects);
    assert_eq!(request.validate_and_bind(&snapshot, &selection(1), &fingerprint), Ok(None));
    assert!(matches!(request.validate_and_bind(&other, &selection(1), &fingerprint), Err(EngineError::InvalidCommit(_))));
    assert!(request.validate_and_bind(&snapshot, &selection(2), &fingerprint).is_err());

    let continuation = RetainedContinuation {
        snapshot_id: snapshot,
        query_fingerprint: fingerprint,
        sort_spec_version: 1,
        page_size: 2,
        last_entity_key: key(2),
        last_sort_key: key(2).to_vec(),
    };
    let continued = CatalogRetainedPageRequest::sessions_all(selection(1), snapshot, 2, Some(continuation.clone()));
    assert_eq!(continued.validate_and_bind(&snapshot, &selection(1), &fingerprint), Ok(Some(key(2))));
    let resized = CatalogRetainedPageRequest::sessions_all(selection(1), snapshot, 3, Some(continuation.clone()));
    assert!(resized.validate_and_bind(&snapshot, &selection(1), &fingerprint).is_err());
    let sorted_elsewhere = RetainedContinuation { last_sort_key: vec![0], ..continuation };
    let odd = CatalogRetainedPageRequest::sessions_all(selection(1), snapshot, 2, Some(sorted_elsewhere));
    assert!(odd.validate_and_bind(&snapshot, &selection(1), &fingerprint).is_err());
}

#[test]
fn continuation_and_input_helpers() {
    assert_eq!(next_continuation(false, 0), Ok(None));
    assert_eq!(next_continuation(true, 3), Ok(Some(2)));
    assert!(matches!(next_continuation(true, 0), Err(EngineError::CorruptCatalogState(_))));
    assert_eq!(
        invalid_catalog_query_input("page size is outside the supported bound"),
        EngineError::InvalidQuery("invalid catalog query request: page size is outside the supported bound".to_owned())
    );
    let plan = CatalogCoveragePlanId { bytes: [4; 32] };
    assert_eq!(require_expected_plan(&plan, &plan), Ok(()));
    assert!(require_expected_plan(&plan, &CatalogCoveragePlanId { bytes: [5; 32] }).is_err());
    assert_eq!(decode_nonzero_digest(&[3; 32], "d"), Ok([3; 32]));
    assert!(decode_nonzero_digest(&[0; 32], "d").is_err());
}

#[test]
fn resolution_rows_must_be_their_exact_commitment() {
    let id = identity();
    assert_eq!(check_resolution_row(&id, Kind::ProjectRow, &key(2), &stored(2)), Ok(()));
    let refused = |columns: RetainedRowColumns, kind: Kind, k: [u8; 32]| {
        matches!(check_resolution_row(&id, kind, &k, &columns), Err(EngineError::CorruptCatalogState(_)))
    };
    assert!(refused(stored(2), Kind::SessionRow, key(2)));
    assert!(refused(stored(2), Kind::ProjectRow, key(3)));
    assert!(refused(stored(2), Kind::ProjectRow, key(9)));
    assert!(refused(RetainedRowColumns { payload_length: None, ..stored(2) }, Kind::ProjectRow, key(2)));
    assert!(refused(RetainedRowColumns { payload_length: Some(-1), ..stored(2) }, Kind::ProjectRow, key(2)));
    assert!(refused(RetainedRowColumns { payload_length: Some(4), ..stored(2) }, Kind::ProjectRow, key(2)));
    assert!(refused(RetainedRowColumns { payload: Some(vec![0; 3]), ..stored(2) }, Kind::ProjectRow, key(2)));
    assert!(refused(RetainedRowColumns { payload_digest: Some(vec![0; 32]), ..stored(2) }, Kind::ProjectRow, key(2)));
    assert!(refused(RetainedRowColumns { payload: None, ..stored(2) }, Kind::ProjectRow, key(2)));
}

#[test]
fn retired_snapshots_expire_continuations_and_refuse_first_pages() {
    let plan = CatalogCoveragePlanId { bytes: [3; 32] };
    let chain: Vec<CatalogRetainedSnapshotCommitment> = (1..=3u64)
        .map(|n| {
            CatalogRetainedSnapshotCommitment::from_test_parts(
                CatalogSnapshotId::new(1, plan, 1, n * 10).unwrap(),
                [n as u8; 32],
                [n as u8 + 10; 32],
            )
        })
        .collect();
    let oldest = chain[0].snapshot_id();
    let newest = chain[2].snapshot_id();
    assert_eq!(classify_retained_snapshot(&chain, &newest, 1, false), Ok(RetainedSnapshotClass::Retained));
    assert_eq!(classify_retained_snapshot(&chain, &oldest, 0, false), Ok(RetainedSnapshotClass::Retained));
    assert_eq!(classify_retained_snapshot(&chain, &oldest, 1, true), Ok(RetainedSnapshotClass::Expired));
    assert!(matches!(classify_retained_snapshot(&chain, &oldest, 1, false), Err(EngineError::InvalidCommit(_))));
    let foreign = CatalogSnapshotId::new(1, plan, 2, 10).unwrap();
    assert!(matches!(classify_retained_snapshot(&chain, &foreign, 0, true), Err(EngineError::InvalidCommit(_))));
}

#[test]
fn ready_authority_rejects_missing_rows_and_forged_keyset_positions() {
    let id = identity();
    let kind = Kind::ProjectRow;
    // A stored range missing its lowest committed row.
    let deleted = vec![stored(2), stored(3)];
    let deletion_error = check_retained_page(&id, kind, None, 10, &deleted).unwrap_err();
    assert!(deletion_error.message().contains("PK range"));
    assert_eq!(
        deletion_error,
        EngineError::CorruptCatalogState(
            "retained catalog PK range differs from its restart-validated row sequence".to_owned()
        )
    );

    let rows = vec![stored(1), stored(2)];
    assert_eq!(check_retained_page(&id, kind, None, 1, &rows), Ok(RetainedPageScan { rows: 1, has_more: true }));
    // A continuation that names a key the publication never committed.
    let foreign = key(200);
    let cursor_error = check_retained_page(&id, kind, Some(foreign), 1, &vec![stored(2)]).unwrap_err();
    assert!(cursor_error.message().contains("does not name a row"));
    assert!(matches!(cursor_error, EngineError::InvalidCommit(_)));
}

#[test]
fn ready_authority_rejects_canonical_same_key_row_substitution() {
    let id = identity();
    let mut substituted = stored(1);
    let other = vec![7u8; 2];
    substituted.payload = Some(other.clone());
    substituted.payload_digest = Some(blake3::hash(&other).as_bytes().to_vec());
    let error = check_retained_page(&id, Kind::ProjectRow, None, 10, &vec![substituted, stored(2), stored(3)])
        .unwrap_err();
    assert!(error.message().contains("restart-validated commitment"));
}

#[test]
fn retained_pages_continue_after_a_committed_row() {
    let id = identity();
    let kind = Kind::ProjectRow;
    assert_eq!(
        check_retained_page(&id, kind, Some(key(1)), 1, &vec![stored(2), stored(3)]),
        Ok(RetainedPageScan { rows: 1, has_more: true })
    );
    assert_eq!(
        check_retained_page(&id, kind, Some(key(2)), 5, &vec![stored(3)]),
        Ok(RetainedPageScan { rows: 1, has_more: false })
    );
    assert_eq!(check_retained_page(&id, kind, Some(key(3)), 5, &Vec::new()), Ok(RetainedPageScan { rows: 0, has_more: false }));
    // A stored range that runs short of the committed keys.
    assert_eq!(
        check_retained_page(&id, kind, Some(key(1)), 5, &vec![stored(2)]),
        Err(EngineError::CorruptCatalogState(
            "retained catalog PK range is incomplete for its restart-validated publication".to_owned()
        ))
    );
    // A listing without rows names no continuation.
    assert!(matches!(check_retained_page(&id, Kind::SessionRow, Some(key(1)), 5, &Vec::new()), Err(EngineError::InvalidCommit(_))));
    assert_eq!(
        check_retained_page(&id, kind, None, u32::MAX, &Vec::new()),
        Err(EngineError::CorruptCatalogState("catalog retained-page scan limit overflow".to_owned()))
    );
}
