use spaghetti_catalog::error::EngineError;
use spaghetti_catalog::publication::{
    check_ready_publication, check_snapshot_header, classify_snapshot_lineage, load_ready_publication,
    CatalogDurablePublicationEntryKind as Kind, CatalogReadyPublicationIdentity, CatalogSnapshotLineage,
    CommitOwner, LoadedReadySnapshot, PredecessorSnapshotRow, PublicationDerivations, StoredPublicationEntry,
    StoredSnapshotHeader, StoredSnapshotLineage, BUILD_SCHEDULED_REASON,
    CATALOG_DURABLE_PUBLICATION_CONTRACT_VERSION, CATALOG_DURABLE_REFRESH_PUBLICATION_CONTRACT_VERSION,
    INITIAL_PUBLICATION_REASON, REFRESH_PUBLICATION_REASON, REFRESH_STARTED_REASON,
};
use spaghetti_catalog::retained_query::check_retained_query_header;
use spaghetti_catalog::snapshot::{
    CatalogCoveragePlan, CatalogCoveragePlanId, CatalogCoverageScope, CatalogSnapshotId, ContractVersionSelection,
    MAX_RETAINED_REFRESH_LINEAGE_DEPTH,
};

const PLAN: CatalogCoveragePlanId = CatalogCoveragePlanId { bytes: [3; 32] };
const REDUCER: [u8; 32] = [200; 32];
const ENTRIES: [u8; 32] = [150; 32];
const SELECTION_BYTES: usize = 10;
const MAX_ENTRIES: usize = 100;
const MAX_BYTES: usize = 100_000;

fn plan() -> CatalogCoveragePlan {
    CatalogCoveragePlan { scope: CatalogCoverageScope::Library, coverage_plan_id: PLAN }
}

fn selection() -> ContractVersionSelection {
    ContractVersionSelection {
        selection_contract_version: 1,
        model_major: 1,
        external_entity_reference_version: 1,
        semantic_revision_reference_version: 1,
        coverage_contract_version: 1,
        fact_family_versions: Vec::new(),
        query_pack_version: Some(1),
        observation_contract_version: None,
    }
}

/// Snapshot `index` of a lineage completes at commit `10 * (index + 1)`.
fn snapshot(index: usize) -> CatalogSnapshotId {
    CatalogSnapshotId::new(1, PLAN, 1, 10 * (index as u64 + 1)).unwrap()
}

fn publication_digest(index: usize) -> [u8; 32] {
    [index as u8 + 1; 32]
}

fn content_digest(index: usize) -> [u8; 32] {
    [index as u8 + 101; 32]
}

fn entry(ordinal: i64, kind: Kind, text_len: usize, key: [u8; 32], payload: &[u8]) -> StoredPublicationEntry {
    StoredPublicationEntry {
        ordinal,
        kind: Some(kind),
        kind_text_len: text_len,
        key: Some(key.to_vec()),
        payload: Some(payload.to_vec()),
        payload_digest: Some(blake3::hash(payload).as_bytes().to_vec()),
    }
}

fn owner(reason: &str, committed_at: i64) -> CommitOwner {
    CommitOwner { source_instance_id: None, reason: reason.to_owned(), committed_at: Some(committed_at), fact_count: 0 }
}

/// The stored record of snapshot `index`: the first snapshot of the lineage
/// is an initial publication, every later one refreshes its predecessor.
fn record(index: usize) -> LoadedReadySnapshot {
    let refresh = index > 0;
    let id = snapshot(index);
    let build_commit_seq = id.complete_commit - 5;
    let published_at = 1_000 + index as i64;
    let mut entries = Vec::new();
    if refresh {
        entries.push(entry(0, Kind::MemberHistory, 14, [1; 32], b"h"));
    }
    entries.push(entry(entries.len() as i64, Kind::ReducerState, 13, REDUCER, b"r"));
    let encoded_bytes = SELECTION_BYTES + 78 + if refresh { 79 } else { 0 };
    let version =
        if refresh { CATALOG_DURABLE_REFRESH_PUBLICATION_CONTRACT_VERSION } else { CATALOG_DURABLE_PUBLICATION_CONTRACT_VERSION };
    LoadedReadySnapshot {
        header: StoredSnapshotHeader {
            build_commit_seq: build_commit_seq as i64,
            durable_contract_version: i64::from(version),
            pack_contract_version: 1,
            coverage_plan_id: Some(PLAN.bytes.to_vec()),
            readiness_epoch: 1,
            attempt: 1,
            member_identity_contract_is_null: 1,
            member_identity_contract_id: None,
            publication_digest: Some(publication_digest(index).to_vec()),
            reducer_revision: Some(REDUCER.to_vec()),
            entries_digest: Some(ENTRIES.to_vec()),
            content_digest: Some(content_digest(index).to_vec()),
            entry_count: entries.len() as i64,
            encoded_bytes: encoded_bytes as i64,
            source_count: 0,
            member_count: 0,
            project_row_count: 0,
            session_row_count: 0,
            tombstone_count: 0,
        },
        lineage: StoredSnapshotLineage {
            build_commit_seq,
            durable_contract_version: version,
            replaces_snapshot_commit_seq: if refresh { Some(snapshot(index - 1).complete_commit as i64) } else { None },
            replaces_publication_digest: if refresh { Some(publication_digest(index - 1).to_vec()) } else { None },
            replaces_content_digest: if refresh { Some(content_digest(index - 1).to_vec()) } else { None },
            published_at,
            build_owner: owner(if refresh { REFRESH_STARTED_REASON } else { BUILD_SCHEDULED_REASON }, published_at - 1),
            publication_owner: owner(
                if refresh { REFRESH_PUBLICATION_REASON } else { INITIAL_PUBLICATION_REASON },
                published_at,
            ),
            predecessor: if refresh {
                Some(PredecessorSnapshotRow {
                    pack_contract_version: 1,
                    coverage_plan_id: Some(PLAN.bytes.to_vec()),
                    readiness_epoch: 1,
                })
            } else {
                None
            },
        },
        attempt: 1,
        selection: selection(),
        entries,
        derived: PublicationDerivations {
            selection_valid: true,
            selection_bytes: SELECTION_BYTES,
            frames_valid: true,
            entries_digest: ENTRIES,
            content_digest: content_digest(index),
        },
    }
}

/// The stored records of a lineage of `length` snapshots, newest first.
fn lineage(length: usize) -> Vec<LoadedReadySnapshot> {
    (0..length).rev().map(record).collect()
}

fn load(records: Vec<LoadedReadySnapshot>) -> Result<CatalogReadyPublicationIdentity, EngineError> {
    let newest = snapshot(records.len() - 1);
    load_ready_publication(records, &plan(), newest, 1, MAX_ENTRIES, MAX_BYTES)
}

#[test]
fn retained_refresh_lineage_accepts_its_exact_ceiling_and_refuses_one_more() {
    let ceiling = load(lineage(MAX_RETAINED_REFRESH_LINEAGE_DEPTH + 1)).unwrap();
    assert_eq!(ceiling.refresh_depth(), MAX_RETAINED_REFRESH_LINEAGE_DEPTH);
    assert_eq!(ceiling.retained_snapshot_count(), MAX_RETAINED_REFRESH_LINEAGE_DEPTH + 1);
    assert!(!ceiling.permits_refresh_successor());
    let chain = ceiling.retained_chain();
    assert_eq!(chain[0].snapshot_id(), snapshot(0));
    assert_eq!(chain[MAX_RETAINED_REFRESH_LINEAGE_DEPTH].snapshot_id(), snapshot(MAX_RETAINED_REFRESH_LINEAGE_DEPTH));
    for pair in chain.windows(2) {
        assert!(pair[0].snapshot_id().complete_commit < pair[1].snapshot_id().complete_commit);
    }

    let over = load(lineage(MAX_RETAINED_REFRESH_LINEAGE_DEPTH + 2));
    let error = over.expect_err("one-over retained refresh lineage unexpectedly loaded");
    assert!(error.message().contains("bounded retained depth"));
}

#[test]
fn initial_and_refresh_publications_load_their_exact_identity() {
    let initial = load(lineage(1)).unwrap();
    assert_eq!(initial.lineage, CatalogSnapshotLineage::Initial);
    assert_eq!(initial.refresh_depth(), 0);
    assert_eq!(initial.header.publication_digest, publication_digest(0));

    let refresh = load(lineage(2)).unwrap();
    assert_eq!(
        refresh.lineage,
        CatalogSnapshotLineage::Refresh {
            predecessor_snapshot: snapshot(0),
            predecessor_publication_digest: publication_digest(0),
            predecessor_content_digest: content_digest(0),
        }
    );
    assert_eq!(refresh.refresh_depth(), 1);
    assert_eq!(refresh.retained_snapshot_count(), 2);
    // A lineage whose predecessor record is missing cannot load.
    let mut truncated = lineage(2);
    truncated.pop();
    let missing = load_ready_publication(truncated, &plan(), snapshot(1), 1, MAX_ENTRIES, MAX_BYTES);
    assert!(matches!(missing, Err(EngineError::Sqlite { .. })));
}

#[test]
fn refresh_restart_rejects_predecessor_history_and_owner_corruption() {
    assert!(load(lineage(2)).is_ok());

    // A predecessor digest that is not the retained predecessor's.
    let mut substituted = lineage(2);
    substituted[0].lineage.replaces_publication_digest = Some(b"x".repeat(32));
    assert!(load(substituted).is_err());

    // A refresh publication whose member-history frame is gone.
    let mut history = lineage(2);
    history[0].entries.remove(0);
    history[0].entries[0].ordinal = 0;
    history[0].header.entry_count = 1;
    history[0].header.encoded_bytes -= 79;
    assert!(matches!(load(history), Err(EngineError::CorruptCatalogState(_))));

    // A predecessor row from a later readiness epoch.
    let mut epoch = lineage(2);
    epoch[0].lineage.predecessor.as_mut().unwrap().readiness_epoch = 2;
    let lineage_error = load(epoch).unwrap_err();
    assert!(lineage_error.message().contains("exact plan/build lineage"));

    // A refresh publication owned by the initial publication reason.
    let mut owned = lineage(2);
    owned[0].lineage.publication_owner.reason = INITIAL_PUBLICATION_REASON.to_owned();
    let owner_error = load(owned).unwrap_err();
    assert!(owner_error.message().contains("expected source-neutral commit"));
}

#[test]
fn snapshot_lineage_is_classified_by_version_columns_and_owners() {
    let initial = record(0);
    assert_eq!(classify_snapshot_lineage(&initial.lineage, &snapshot(0)), Ok(CatalogSnapshotLineage::Initial));
    let refresh = record(1);
    assert_eq!(
        classify_snapshot_lineage(&refresh.lineage, &snapshot(1)),
        Ok(CatalogSnapshotLineage::Refresh {
            predecessor_snapshot: snapshot(0),
            predecessor_publication_digest: publication_digest(0),
            predecessor_content_digest: content_digest(0),
        })
    );
    // A refresh version without predecessor columns disagrees with itself.
    let mut mixed = refresh.lineage.clone();
    mixed.replaces_content_digest = None;
    assert_eq!(
        classify_snapshot_lineage(&mixed, &snapshot(1)),
        Err(EngineError::CorruptCatalogState(
            "catalog snapshot durable version and predecessor fields disagree".to_owned()
        ))
    );
    // An initial publication must not be owned by a refresh commit.
    let mut foreign = initial.lineage.clone();
    foreign.build_owner.reason = REFRESH_STARTED_REASON.to_owned();
    assert!(matches!(classify_snapshot_lineage(&foreign, &snapshot(0)), Err(EngineError::CorruptCatalogState(_))));
    // Nor published at another time than its owning commit.
    let mut late = initial.lineage.clone();
    late.published_at += 1;
    assert!(classify_snapshot_lineage(&late, &snapshot(0)).is_err());
    // A refresh whose predecessor completed after its build started.
    let mut unordered = refresh.lineage.clone();
    unordered.replaces_snapshot_commit_seq = Some(16);
    assert!(classify_snapshot_lineage(&unordered, &snapshot(1)).is_err());
}

#[test]
fn ready_publication_checks_its_plan_selection_and_digests() {
    let initial = record(0);
    let header = check_snapshot_header(initial.header.clone(), &snapshot(0), 1, MAX_ENTRIES, MAX_BYTES).unwrap();
    let check = |plan: CatalogCoveragePlan, selection: ContractVersionSelection, derived: PublicationDerivations| {
        check_ready_publication(
            &snapshot(0),
            header.clone(),
            CatalogSnapshotLineage::Initial,
            selection,
            &plan,
            &initial.entries,
            &derived,
            None,
            0,
            MAX_BYTES,
        )
    };
    assert!(check(plan(), selection(), initial.derived).is_ok());
    let project_plan = CatalogCoveragePlan { scope: CatalogCoverageScope::Project, ..plan() };
    assert!(check(project_plan, selection(), initial.derived).is_err());
    let other_pack = ContractVersionSelection { query_pack_version: Some(2), ..selection() };
    assert_eq!(
        check(plan(), other_pack, initial.derived),
        Err(EngineError::CorruptCatalogState("catalog snapshot selection does not match its pack version".to_owned()))
    );
    let invalid = PublicationDerivations { selection_valid: false, ..initial.derived };
    assert!(check(plan(), selection(), invalid).is_err());
    let frames = PublicationDerivations { frames_valid: false, ..initial.derived };
    assert!(check(plan(), selection(), frames).is_err());
    let entries = PublicationDerivations { entries_digest: [9; 32], ..initial.derived };
    assert!(check(plan(), selection(), entries).unwrap_err().message().contains("entries digest"));
    let content = PublicationDerivations { content_digest: [9; 32], ..initial.derived };
    assert!(check(plan(), selection(), content).unwrap_err().message().contains("content digest"));
    let bytes = PublicationDerivations { selection_bytes: SELECTION_BYTES + 1, ..initial.derived };
    assert!(check(plan(), selection(), bytes).is_err());
}

#[test]
fn ready_authority_rejects_a_different_coherent_database_publication() {
    let identity = load(lineage(2)).unwrap();
    let newest = record(1);
    let lineage = classify_snapshot_lineage(&newest.lineage, &snapshot(1)).unwrap();
    let header = |stored: StoredSnapshotHeader| {
        check_retained_query_header(
            stored,
            lineage,
            selection(),
            true,
            &plan(),
            &identity,
            &snapshot(1),
            1,
            MAX_ENTRIES,
            MAX_BYTES,
        )
    };
    let accepted = header(newest.header.clone()).unwrap();
    assert_eq!(accepted.encoded_bytes, newest.header.encoded_bytes as usize);
    assert_eq!(accepted.contract_selection, selection());

    // A coherent publication of another database at the same coordinates.
    let other = StoredSnapshotHeader { publication_digest: Some(vec![10; 32]), ..newest.header.clone() };
    let error = header(other).unwrap_err();
    assert!(error.message().contains("restart-validated publication identity"));
    let other_content = StoredSnapshotHeader { content_digest: Some(vec![11; 32]), ..newest.header.clone() };
    assert!(header(other_content).is_err());
    // A selection for another pack.
    let refused = check_retained_query_header(
        newest.header.clone(),
        lineage,
        ContractVersionSelection { query_pack_version: Some(2), ..selection() },
        true,
        &plan(),
        &identity,
        &snapshot(1),
        1,
        MAX_ENTRIES,
        MAX_BYTES,
    )
    .unwrap_err();
    assert!(refused.message().contains("does not match its snapshot pack"));
}
