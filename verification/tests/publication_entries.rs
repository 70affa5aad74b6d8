use spaghetti_catalog::error::EngineError;
use spaghetti_catalog::publication::{
    check_refresh_predecessor, extend_retained_chain, ready_identity, scan_publication_entries,
    CatalogDurablePublicationEntryKind as Kind, CatalogSnapshotLineage, CheckedSnapshotHeader, PublicationEntryHeader,
    StoredPublicationEntry,
};
use spaghetti_catalog::snapshot::{
    CatalogCoveragePlanId, CatalogRetainedSnapshotCommitment, CatalogSnapshotId,
    ContractVersionSelection,
};

const REDUCER: [u8; 32] = [0x33; 32];

fn key(first: u8) -> [u8; 32] {
    let mut k = [7u8; 32];
    k[0] = first;
    k
}

fn entry(ordinal: i64, kind: Kind, key: [u8; 32], payload: &[u8]) -> StoredPublicationEntry {
    StoredPublicationEntry {
        ordinal,
        kind: Some(kind),
        kind_text_len: 10,
        key: Some(key.to_vec()),
        payload: Some(payload.to_vec()),
        payload_digest: Some(blake3::hash(payload).as_bytes().to_vec()),
    }
}

fn entries() -> Vec<StoredPublicationEntry> {
    vec![
        entry(0, Kind::Source, key(1), b"source"),
        entry(1, Kind::ReducerState, REDUCER, b"reducer"),
        entry(2, Kind::ProjectRow, key(2), b"project-b"),
        entry(3, Kind::ProjectRow, key(9), b"project-a"),
        entry(4, Kind::SessionRow, key(1), b"session"),
    ]
}

fn header(entries: &[StoredPublicationEntry]) -> PublicationEntryHeader {
    let bytes: usize = entries.iter().map(|e| e.payload.as_ref().unwrap().len() + 64 + e.kind_text_len).sum();
    PublicationEntryHeader {
        entry_count: entries.len(),
        encoded_bytes: 100 + bytes,
        source_count: 1,
        member_count: 0,
        has_member_history: false,
        project_row_count: 2,
        session_row_count: 1,
        tombstone_count: 0,
        reducer_revision: REDUCER,
        base_bytes: 100,
        max_bytes: 1 << 20,
    }
}

#[test]
fn canonical_entries_yield_sorted_row_commitments() {
    let entries = entries();
    let scan = scan_publication_entries(&entries, &header(&entries)).unwrap();
    assert_eq!(scan.project_rows.len(), 2);
    assert_eq!(scan.project_rows[0].key, key(2));
    assert_eq!(scan.project_rows[1].key, key(9));
    assert_eq!(scan.project_rows[1].payload_len, 9);
    assert_eq!(scan.project_rows[1].payload_digest, *blake3::hash(b"project-a").as_bytes());
    assert_eq!(scan.session_rows.len(), 1);

    let identity = ready_identity(
        checked_header(12, [1; 32], [2; 32]),
        CatalogSnapshotLineage::Initial,
        ContractVersionSelection {
            selection_contract_version: 1,
            model_major: 1,
            external_entity_reference_version: 1,
            semantic_revision_reference_version: 1,
            coverage_contract_version: 1,
            fact_family_versions: Vec::new(),
            query_pack_version: Some(1),
            observation_contract_version: None,
        },
        scan,
        0,
        Vec::new(),
    );
    assert!(identity.matches_row(Kind::ProjectRow, &key(9), 9, blake3::hash(b"project-a").as_bytes()));
}

#[test]
fn noncanonical_or_mismatched_entries_are_corrupt() {
    let good = entries();
    let h = header(&good);

    let mut swapped = good.clone();
    swapped.swap(2, 3);
    swapped[2].ordinal = 2;
    swapped[3].ordinal = 3;
    assert!(matches!(scan_publication_entries(&swapped, &h), Err(EngineError::CorruptCatalogState(_))));

    let mut tampered = good.clone();
    tampered[2].payload = Some(b"project-x".to_vec());
    assert!(scan_publication_entries(&tampered, &h).is_err());

    let mut gap = good.clone();
    gap[1].ordinal = 5;
    assert!(scan_publication_entries(&gap, &h).is_err());

    let mut foreign_reducer = good.clone();
    foreign_reducer[1] = entry(1, Kind::ReducerState, key(4), b"reducer");
    assert!(scan_publication_entries(&foreign_reducer, &h).is_err());

    let mut unknown = good.clone();
    unknown[0].kind = None;
    assert!(scan_publication_entries(&unknown, &h).is_err());

    let mut extra = good.clone();
    extra.push(entry(5, Kind::Tombstone, key(1), b"t"));
    assert!(scan_publication_entries(&extra, &h).is_err());

    let wrong_count = PublicationEntryHeader { project_row_count: 3, ..h };
    assert!(scan_publication_entries(&good, &wrong_count).is_err());
    let wrong_bytes = PublicationEntryHeader { encoded_bytes: h.encoded_bytes + 1, ..h };
    assert!(scan_publication_entries(&good, &wrong_bytes).is_err());
    let tight = PublicationEntryHeader { max_bytes: 200, ..h };
    assert!(scan_publication_entries(&good, &tight).is_err());
    let history = PublicationEntryHeader { has_member_history: true, ..h };
    assert!(scan_publication_entries(&good, &history).is_err());
}

#[test]
fn refresh_predecessors_and_retained_chains_are_bounded() {
    let plan = CatalogCoveragePlanId { bytes: [5; 32] };
    let snapshot = CatalogSnapshotId::new(1, plan, 2, 30).unwrap();
    let predecessor = CatalogSnapshotId::new(1, plan, 2, 20).unwrap();
    assert_eq!(check_refresh_predecessor(&snapshot, &predecessor, 0), Ok(()));
    assert_eq!(check_refresh_predecessor(&snapshot, &predecessor, 7), Ok(()));
    let ceiling = check_refresh_predecessor(&snapshot, &predecessor, 8).unwrap_err();
    assert!(ceiling.message().contains("bounded retained depth"));
    let later_epoch = CatalogSnapshotId::new(1, plan, 3, 20).unwrap();
    assert!(check_refresh_predecessor(&snapshot, &later_epoch, 0).is_err());
    let other_plan = CatalogSnapshotId::new(1, CatalogCoveragePlanId { bytes: [6; 32] }, 2, 20).unwrap();
    assert!(check_refresh_predecessor(&snapshot, &other_plan, 0).is_err());

    let commitment = CatalogRetainedSnapshotCommitment::from_test_parts(snapshot, [1; 32], [2; 32]);
    let chain = extend_retained_chain(Vec::new(), commitment, 0).unwrap();
    assert_eq!(chain, vec![commitment]);
    assert!(extend_retained_chain(Vec::new(), commitment, 1).is_err());
    assert!(extend_retained_chain(vec![commitment; 9], commitment, 9).is_err());
    assert_eq!(extend_retained_chain(vec![commitment; 8], commitment, 8).unwrap().len(), 9);
}

fn checked_header(build_commit_seq: u64, publication: [u8; 32], content: [u8; 32]) -> CheckedSnapshotHeader {
    CheckedSnapshotHeader {
        build_commit_seq,
        durable_contract_version: 1,
        member_identity_contract_id: None,
        publication_digest: publication,
        reducer_revision: [5; 32],
        entries_digest: [6; 32],
        content_digest: content,
        entry_count: 10,
        encoded_bytes: 500,
        source_count: 0,
        member_count: 0,
        project_row_count: 3,
        session_row_count: 1,
        tombstone_count: 0,
    }
}
