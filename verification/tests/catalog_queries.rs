use spaghetti_catalog::catalog::{
    adapter_filter, decode_catalog_cursor, decode_entity_bytes, decode_external_ref,
    encode_catalog_cursor, encode_external_ref, next_resolution_page, page_watermark, parse_state, project_page_cursor, project_row,
    project_state, resolve_project, resolve_session, session_page_cursor, session_row, to_i64,
    validate_limit, CatalogCursor, CatalogEntityResolution, CatalogPageBounds, CatalogProjectRecord,
    CatalogSessionRecord, CatalogState, DEFAULT_CATALOG_PAGE_LIMIT, MAX_CATALOG_PAGE_LIMIT,
};
use spaghetti_catalog::error::EngineError;
use spaghetti_catalog::identity::{encode_entity_id, PROJECT_ID_PREFIX, SESSION_ID_PREFIX};

#[test]
fn catalog_states_round_trip_and_unknown_text_is_discovered() {
    for state in [
        CatalogState::Discovered,
        CatalogState::TranscriptBacked,
        CatalogState::Hydrated,
        CatalogState::Searchable,
    ] {
        assert_eq!(parse_state(state.as_str()), state);
    }
    assert_eq!(CatalogState::TranscriptBacked.as_str(), "transcript_backed");
    assert_eq!(parse_state("indexed"), CatalogState::Discovered);
    assert!(CatalogState::Discovered < CatalogState::Searchable);
}

#[test]
fn a_project_is_only_as_complete_as_its_weakest_session() {
    assert_eq!(project_state(0, 0, 0), CatalogState::Discovered);
    assert_eq!(project_state(3, 3, 3), CatalogState::Hydrated);
    assert_eq!(project_state(3, 3, 2), CatalogState::TranscriptBacked);
    assert_eq!(project_state(3, 2, 2), CatalogState::Discovered);
    assert_eq!(project_state(-1, 5, 5), CatalogState::Discovered);
}

#[test]
fn page_bounds_default_and_limits() {
    let bounds = CatalogPageBounds::default();
    assert_eq!(bounds.cursor, None);
    assert_eq!(bounds.limit, DEFAULT_CATALOG_PAGE_LIMIT);
    assert_eq!(validate_limit(1), Ok(1));
    assert_eq!(validate_limit(MAX_CATALOG_PAGE_LIMIT), Ok(500));
    assert!(matches!(validate_limit(0), Err(EngineError::InvalidQuery(_))));
    assert!(matches!(validate_limit(501), Err(EngineError::InvalidQuery(_))));
    assert_eq!(to_i64(7), Ok(7));
    assert!(matches!(to_i64(u64::MAX), Err(EngineError::Sqlite { .. })));
}

#[test]
fn cursors_round_trip_and_refuse_newer_snapshots() {
    let cursor = CatalogCursor {
        watermark: 42,
        sort_key: "2026-01-02T03:04:05Z".to_owned(),
        entity_key: vec![1, 2, 3, 255],
    };
    let text = encode_catalog_cursor(&cursor);
    assert!(text.starts_with("catalog_v1_"));
    assert_eq!(decode_catalog_cursor(Some(&text), 42), Ok(Some(cursor.clone())));
    assert_eq!(decode_catalog_cursor(Some(&text), 100), Ok(Some(cursor)));
    assert!(matches!(decode_catalog_cursor(Some(&text), 41), Err(EngineError::InvalidQuery(_))));
    assert_eq!(decode_catalog_cursor(None, 1), Ok(None));
    assert!(decode_catalog_cursor(Some("catalog_v2_AAAA"), 10).is_err());
    assert!(decode_catalog_cursor(Some("catalog_v1_@@"), 10).is_err());
    // Eight watermark bytes but no length field.
    assert!(decode_catalog_cursor(Some("catalog_v1_AAAAAAAAAAA"), 10).is_err());
}

#[test]
fn unicode_sort_keys_survive_the_cursor() {
    let cursor = CatalogCursor { watermark: 1, sort_key: "état…".to_owned(), entity_key: Vec::new() };
    let text = encode_catalog_cursor(&cursor);
    assert_eq!(decode_catalog_cursor(Some(&text), 1), Ok(Some(cursor)));
}

#[test]
fn external_references_round_trip_only_for_32_byte_digests() {
    let digest = *blake3::hash(b"entity").as_bytes();
    let text = encode_external_ref(&digest);
    assert!(text.starts_with("1:"));
    assert_ne!(&text[2..], "");
    assert_eq!(decode_external_ref(&text), Some(digest.to_vec()));
    assert_eq!(decode_external_ref(&encode_external_ref(&[1, 2, 3])), None);
    assert_eq!(decode_external_ref(&text.replacen("1:", "2:", 1)), None);
}

#[test]
fn entity_bytes_follow_the_last_underscore() {
    let id = encode_entity_id(PROJECT_ID_PREFIX, &[7, 8, 9]);
    assert_eq!(decode_entity_bytes(&id), vec![7, 8, 9]);
    assert_eq!(decode_entity_bytes("nounderscore"), Vec::<u8>::new());
    assert_eq!(decode_entity_bytes("project_@@@"), Vec::<u8>::new());
}

#[test]
fn adapter_filters_inline_only_validated_identifiers() {
    assert_eq!(adapter_filter(&Vec::new()), "1 = 1");
    assert_eq!(adapter_filter(&vec!["a' OR 1=1 --".to_owned(), String::new()]), "1 = 0");
    assert_eq!(
        adapter_filter(&vec!["acme-cli".to_owned(), "bad id".to_owned(), "codex_cli".to_owned()]),
        "adapter_id IN ('acme-cli', 'codex_cli')"
    );
}

fn project_record(key: u8, latest: &str, counts: (i64, i64, i64)) -> CatalogProjectRecord {
    CatalogProjectRecord {
        project_key: vec![key],
        external_ref: vec![key; 32],
        adapter_id: "acme-cli".to_owned(),
        native_project_key: format!("native-{key}"),
        display_name: None,
        display_path: None,
        last_commit_seq: -3,
        session_count: counts.0,
        transcript_count: counts.1,
        hydrated_count: counts.2,
        latest_activity: latest.to_owned(),
        degraded: 1,
        degraded_reason: Some("source_busy: retry".to_owned()),
    }
}

#[test]
fn project_rows_derive_ids_state_and_clamped_counts() {
    let row = project_row(project_record(4, "", (2, 2, 1)));
    assert_eq!(row.project_id, encode_entity_id(PROJECT_ID_PREFIX, &[4]));
    assert_eq!(row.external_ref, encode_external_ref(&[4; 32]));
    assert_eq!(row.catalog_state, CatalogState::TranscriptBacked);
    assert_eq!(row.latest_activity_at, None);
    assert_eq!(row.last_commit_seq, 0);
    assert!(row.degraded);
    assert_eq!(row.session_count, 2);
}

#[test]
fn page_cursors_resume_after_the_last_row_and_resolution_never_retargets() {
    let rows = vec![
        project_row(project_record(1, "2026-01-03", (1, 1, 1))),
        project_row(project_record(2, "2026-01-02", (1, 0, 0))),
    ];
    assert_eq!(project_page_cursor(&rows, false, 9), None);
    let text = project_page_cursor(&rows, true, 9).unwrap();
    let decoded = decode_catalog_cursor(Some(&text), 9).unwrap().unwrap();
    assert_eq!(decoded.sort_key, "2026-01-02");
    assert_eq!(decoded.entity_key, vec![2]);

    match resolve_project(rows.clone(), &[2]) {
        CatalogEntityResolution::LiveProject(row) => assert_eq!(row.project_id, encode_entity_id(PROJECT_ID_PREFIX, &[2])),
        other => panic!("unexpected {other:?}"),
    }
    assert_eq!(resolve_project(rows, &[3]), CatalogEntityResolution::Retracted);

    let record = CatalogSessionRecord {
        session_key: vec![5],
        project_key: vec![1],
        external_ref: vec![5; 32],
        adapter_id: "codex".to_owned(),
        native_session_id: Some("abc".to_owned()),
        title: None,
        association_basis: "native".to_owned(),
        association_quality: "exact".to_owned(),
        association_provenance: "path".to_owned(),
        native_created_at: None,
        native_updated_at: None,
        native_message_count: Some(-4),
        transcript_present: 1,
        last_commit_seq: 3,
        sort_time: "2026".to_owned(),
        state: "hydrated".to_owned(),
        decoded_messages: 12,
        degraded: 0,
        degraded_reason: None,
    };
    let (session, sort_key) = session_row(record);
    assert_eq!(session.session_id, encode_entity_id(SESSION_ID_PREFIX, &[5]));
    assert_eq!(session.catalog_state, CatalogState::Hydrated);
    assert_eq!(session.native_message_count, Some(0));
    assert!(session.identity_conflicts.is_empty());
    let sessions = vec![session];
    let text = session_page_cursor(&sessions, &vec![sort_key], true, 3).unwrap();
    let decoded = decode_catalog_cursor(Some(&text), 3).unwrap().unwrap();
    assert_eq!(decoded.sort_key, "2026");
    assert_eq!(decoded.entity_key, vec![5]);
    assert!(matches!(resolve_session(sessions.clone(), &[5]), CatalogEntityResolution::LiveSession(_)));
    assert_eq!(resolve_session(sessions, &[6]), CatalogEntityResolution::Retracted);
}

#[test]
fn continuation_pages_read_at_their_first_page_snapshot() {
    let cursor = CatalogCursor { watermark: 7, sort_key: "2024".to_owned(), entity_key: vec![1, 2] };
    // A row committed after page one (commit 9) is past the continuation's snapshot.
    assert_eq!(page_watermark(&Some(cursor), 9), 7);
    assert_eq!(page_watermark(&None, 9), 9);
}

#[test]
fn resolution_reads_on_only_while_the_entity_is_not_found() {
    let next = Some("catalog_v1_next".to_owned());
    assert_eq!(next_resolution_page(&CatalogEntityResolution::Retracted, next.clone()), next);
    assert_eq!(next_resolution_page(&CatalogEntityResolution::Retracted, None), None);
    assert_eq!(next_resolution_page(&CatalogEntityResolution::Unknown, next.clone()), None);
}
