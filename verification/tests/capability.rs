use spaghetti_catalog::capability::{
    bound_page, checked_payload_sum, cursor_entity_key, decode_nonnegative_u64,
    decode_optional_u64, encode_cursor_payload, page_cursor, task_collection_scope, to_query_i64,
    validate_artifact_page, validate_cursor_watermark, validate_memory_document_page,
    validate_page_limit, validate_plan_page, validate_task_collection_page, validate_task_page,
    validate_tool_result_page, ArtifactPageRequest, BoundedPage, CapabilityCursorKind,
    MemoryDocumentPageRequest, OrderedRow, PlanPageRequest, TaskCollectionPageRequest,
    TaskPageRequest, ToolResultPageRequest, MAX_CAPABILITY_PAGE_PAYLOAD_BYTES,
};
use spaghetti_catalog::error::EngineError;
use spaghetti_catalog::identity::{
    encode_entity_id, PROJECT_ID_PREFIX, RUN_ID_PREFIX, SESSION_ID_PREFIX, TASK_COLLECTION_ID_PREFIX,
};

fn project_id() -> String {
    encode_entity_id(PROJECT_ID_PREFIX, b"project-key")
}

#[test]
fn capability_requests_reject_invalid_identity_scope_and_limits() {
    let valid = MemoryDocumentPageRequest { project_id: project_id(), cursor: None, limit: 50 };
    let (key, scope) = validate_memory_document_page(&valid).unwrap();
    assert_eq!(key, b"project-key".to_vec());
    assert_eq!(scope.kind, CapabilityCursorKind::MemoryDocuments);
    assert_eq!(scope.scope, vec![project_id()]);
    assert_eq!(scope.cursor_payload, None);

    let zero = MemoryDocumentPageRequest { limit: 0, ..valid.clone() };
    assert!(matches!(validate_memory_document_page(&zero), Err(EngineError::InvalidQuery(_))));
    let too_many = MemoryDocumentPageRequest { limit: 201, ..valid.clone() };
    assert!(validate_memory_document_page(&too_many).is_err());
    let foreign = MemoryDocumentPageRequest { project_id: encode_entity_id(SESSION_ID_PREFIX, b"x"), ..valid.clone() };
    assert!(validate_memory_document_page(&foreign).is_err());
    let malformed = MemoryDocumentPageRequest { cursor: Some("not base64!".to_owned()), ..valid };
    assert!(validate_memory_document_page(&malformed).is_err());

    let two_scopes = TaskCollectionPageRequest {
        session_id: Some(encode_entity_id(SESSION_ID_PREFIX, b"s")),
        run_id: Some(encode_entity_id(RUN_ID_PREFIX, b"r")),
        team_id: None,
        cursor: None,
        limit: 10,
    };
    assert!(validate_task_collection_page(&two_scopes).is_err());
    let run_only = TaskCollectionPageRequest { session_id: None, ..two_scopes };
    let (keys, scope) = validate_task_collection_page(&run_only).unwrap();
    assert_eq!(keys.run_key, Some(b"r".to_vec()));
    assert_eq!(keys.session_key, None);
    assert_eq!(scope.scope, vec!["run".to_owned(), encode_entity_id(RUN_ID_PREFIX, b"r")]);
    let all = TaskCollectionPageRequest { session_id: None, run_id: None, team_id: None, cursor: None, limit: 1 };
    assert_eq!(task_collection_scope(&all), vec!["all".to_owned()]);

    let task = TaskPageRequest { collection_id: encode_entity_id(TASK_COLLECTION_ID_PREFIX, b"c"), cursor: None, limit: 5 };
    assert_eq!(validate_task_page(&task).unwrap().0, b"c".to_vec());
    let plan = PlanPageRequest { cursor: None, limit: 200 };
    assert!(validate_plan_page(&plan).unwrap().scope.is_empty());
    let tools = ToolResultPageRequest {
        project_id: project_id(),
        session_id: encode_entity_id(SESSION_ID_PREFIX, b"s"),
        cursor: None,
        limit: 5,
    };
    let (p, s, scope) = validate_tool_result_page(&tools).unwrap();
    assert_eq!((p, s), (b"project-key".to_vec(), b"s".to_vec()));
    assert_eq!(scope.scope.len(), 2);
    let artifacts = ArtifactPageRequest { session_id: project_id(), cursor: None, limit: 5 };
    assert!(validate_artifact_page(&artifacts).is_err());
    assert!(matches!(validate_page_limit(0, "plan"), Err(EngineError::InvalidQuery(_))));
}

fn row(key: &[u8], rank: u64, text: &str) -> OrderedRow<()> {
    OrderedRow { item: (), entity_key: key.to_vec(), order_rank: rank, order_text: text.to_owned(), payload_bytes: 0 }
}

#[test]
fn capability_cursors_reject_cross_scope_and_expire_after_commit() {
    let request = MemoryDocumentPageRequest { project_id: project_id(), cursor: None, limit: 2 };
    let (_, scope) = validate_memory_document_page(&request).unwrap();
    let last = row(b"doc-2", 1, "notes/b.md");
    assert_eq!(page_cursor(false, Some(&last), scope.kind, 30, scope.scope.clone()), None);
    let cursor = page_cursor(true, Some(&last), scope.kind, 30, scope.scope.clone()).unwrap();
    assert_eq!(cursor.at_commit_seq, 30);
    assert_eq!(cursor_entity_key(Some(&cursor)), Ok(b"doc-2".to_vec()));
    assert_eq!(cursor_entity_key(None), Ok(Vec::new()));
    assert_eq!(scope.accept_cursor(Some(&cursor)), Ok(()));
    assert_eq!(validate_cursor_watermark(Some(&cursor), 30, "memory document"), Ok(()));
    assert!(validate_cursor_watermark(Some(&cursor), 31, "memory document").is_err());

    let other = MemoryDocumentPageRequest { project_id: encode_entity_id(PROJECT_ID_PREFIX, b"other"), cursor: None, limit: 2 };
    let (_, other_scope) = validate_memory_document_page(&other).unwrap();
    assert!(other_scope.accept_cursor(Some(&cursor)).is_err());
    let plans = validate_plan_page(&PlanPageRequest { cursor: None, limit: 2 }).unwrap();
    assert!(plans.accept_cursor(Some(&cursor)).is_err());

    let framed = encode_cursor_payload(br#"{"version":1}"#);
    let with_cursor = MemoryDocumentPageRequest { cursor: Some(framed), ..request };
    let (_, scope) = validate_memory_document_page(&with_cursor).unwrap();
    assert_eq!(scope.cursor_payload, Some(br#"{"version":1}"#.to_vec()));
}

#[test]
fn single_oversized_capability_row_is_rejected() {
    let error = bound_page(&vec![MAX_CAPABILITY_PAGE_PAYLOAD_BYTES + 1], 10, "artifact").unwrap_err();
    assert!(matches!(error, EngineError::Sqlite { .. }));
    assert!(error.message().contains("maximum is 16777216"));
    match &error {
        EngineError::Sqlite { detail, .. } => {
            assert_eq!(detail, "one artifact row requires 16777217 payload bytes; maximum is 16777216")
        }
        other => panic!("unexpected error {other:?}"),
    }
    // The budget stops a later row without failing the page.
    assert_eq!(
        bound_page(&vec![10, MAX_CAPABILITY_PAGE_PAYLOAD_BYTES], 10, "artifact"),
        Ok(BoundedPage { rows: 1, payload_bytes: 10, has_more: true })
    );
    assert_eq!(
        bound_page(&vec![1, 2, 3], 2, "task"),
        Ok(BoundedPage { rows: 2, payload_bytes: 3, has_more: true })
    );
    assert_eq!(bound_page(&vec![1, 2], 2, "task"), Ok(BoundedPage { rows: 2, payload_bytes: 3, has_more: false }));
    assert_eq!(bound_page(&Vec::new(), 2, "task"), Ok(BoundedPage { rows: 0, payload_bytes: 0, has_more: false }));
    match bound_page(&vec![5, u64::MAX], 3, "task") {
        Err(EngineError::Sqlite { detail, .. }) => assert_eq!(detail, "task payload byte total overflowed u64"),
        other => panic!("unexpected result {other:?}"),
    }
}

#[test]
fn integer_columns_and_payload_sums_are_checked() {
    assert_eq!(decode_nonnegative_u64(5, "size"), Ok(5));
    assert!(matches!(decode_nonnegative_u64(-1, "size"), Err(EngineError::Sqlite { .. })));
    assert_eq!(decode_optional_u64(None, "size"), Ok(None));
    assert_eq!(decode_optional_u64(Some(3), "size"), Ok(Some(3)));
    assert!(decode_optional_u64(Some(-3), "size").is_err());
    assert_eq!(to_query_i64(9, "rank"), Ok(9));
    assert!(matches!(to_query_i64(u64::MAX, "rank"), Err(EngineError::InvalidQuery(_))));
    assert_eq!(checked_payload_sum(&vec![1, 2, 3], "content"), Ok(6));
    assert_eq!(checked_payload_sum(&Vec::new(), "content"), Ok(0));
    if usize::BITS == 64 {
        assert!(checked_payload_sum(&vec![usize::MAX, 1], "content").is_err());
    }
}
