use spaghetti_catalog::capability::{
    artifact_row, memory_document_row, plan_row, task_collection_row, task_row, task_row_with_links,
    tool_result_row, ArtifactRecord, MemoryDocumentRecord, PlanRecord, TaskCollectionRecord, TaskRecord,
    ToolResultRecord,
};
use spaghetti_catalog::error::EngineError;

fn memory_record() -> MemoryDocumentRecord {
    MemoryDocumentRecord {
        document_key: vec![1, 2, 3],
        project_key: vec![4, 5, 6],
        native_project_key: "-home-me-repo".to_string(),
        native_document_path: "NOTES.md".to_string(),
        title: "Notes".to_string(),
        content: "héllo".to_string(),
        size_bytes: 6,
        is_index: 1,
        resolution_status: "resolved".to_string(),
        decisive_fact_id: vec![7, 8, 9],
        assertion_count: 1,
        competing_document_count: 0,
        last_commit_seq: 12,
        observed_at_unix_ms: 1_700_000_000_000,
        source_object_id: 3,
        source_generation: 1,
        source_instance_id: 2,
        adapter_id: "acme".to_string(),
        order_rank: 0,
    }
}

#[test]
fn memory_document_rows_encode_ids_and_count_content_bytes() {
    let row = memory_document_row(memory_record()).unwrap();
    assert_eq!(row.item.document_id, "memdoc_AQID");
    assert_eq!(row.item.project_id, "project_BAUG");
    assert_eq!(row.item.decisive_fact_id, "fact_BwgJ");
    assert_eq!(row.payload_bytes, 6);
    assert_eq!(row.order_text, "NOTES.md");
    assert_eq!(row.entity_key, vec![1, 2, 3]);
    assert!(row.item.is_index);
    assert_eq!(row.item.source_instance_id, 2);
    let negative = MemoryDocumentRecord { competing_document_count: -1, ..memory_record() };
    assert!(matches!(memory_document_row(negative), Err(EngineError::Sqlite { .. })));
    let negative_rank = MemoryDocumentRecord { order_rank: -1, ..memory_record() };
    assert!(matches!(memory_document_row(negative_rank), Err(EngineError::Sqlite { .. })));
}

#[test]
fn plan_rows_order_by_native_id() {
    let record = PlanRecord {
        plan_key: vec![0xfb, 0xff],
        native_plan_id: "plan-a".to_string(),
        title: "Plan".to_string(),
        content: "steps".to_string(),
        size_bytes: 5,
        source_time: Some("2024-01-01T00:00:00Z".to_string()),
        source_time_quality: None,
        resolution_status: "resolved".to_string(),
        decisive_fact_id: vec![1],
        assertion_count: 2,
        competing_plan_count: 1,
        last_commit_seq: 4,
        observed_at_unix_ms: 5,
        source_object_id: 6,
        source_generation: 7,
        source_instance_id: 8,
        adapter_id: "acme".to_string(),
    };
    let row = plan_row(record.clone()).unwrap();
    assert_eq!(row.item.plan_id, "plan_-_8");
    assert_eq!(row.item.decisive_fact_id, "fact_AQ");
    assert_eq!(row.order_text, "plan-a");
    assert_eq!(row.order_rank, 0);
    assert_eq!(row.payload_bytes, 5);
    assert_eq!(row.item.competing_plan_count, 1);
    assert!(matches!(plan_row(PlanRecord { size_bytes: -5, ..record }), Err(EngineError::Sqlite { .. })));
}

fn tool_result_record() -> ToolResultRecord {
    ToolResultRecord {
        result_key: vec![1],
        project_key: vec![2],
        session_key: vec![3],
        native_project_key: "p".to_string(),
        native_session_id: "s".to_string(),
        native_tool_use_id: "toolu_1".to_string(),
        native_document_path: "tool-results/1.txt".to_string(),
        content: "output".to_string(),
        size_bytes: 6,
        resolution_status: "resolved".to_string(),
        correlation_status: "matched".to_string(),
        tool_call_message_key: Some(vec![4]),
        tool_result_message_key: None,
        decisive_fact_id: vec![5],
        assertion_count: 1,
        competing_result_count: 0,
        tool_call_match_count: 1,
        tool_result_match_count: 0,
        join_conflict: 0,
        last_commit_seq: 9,
        observed_at_unix_ms: 10,
        source_object_id: 11,
        source_generation: 12,
        source_instance_id: 13,
        adapter_id: "acme".to_string(),
    }
}

#[test]
fn tool_result_rows_encode_message_ids() {
    let row = tool_result_row(tool_result_record()).unwrap();
    assert_eq!(row.item.result_id, "toolresult_AQ");
    assert_eq!(row.item.project_id, "project_Ag");
    assert_eq!(row.item.session_id, "session_Aw");
    assert_eq!(row.item.tool_call_message_id.as_deref(), Some("message_BA"));
    assert_eq!(row.item.tool_result_message_id, None);
    assert!(!row.item.join_conflict);
    assert_eq!(row.order_text, "toolu_1");
    assert_eq!(row.payload_bytes, 6);
    let bad = ToolResultRecord { tool_result_match_count: -1, ..tool_result_record() };
    assert!(matches!(tool_result_row(bad), Err(EngineError::Sqlite { .. })));
}

#[test]
fn task_collection_rows_carry_no_payload() {
    let record = TaskCollectionRecord {
        collection_key: vec![1],
        project_key: None,
        session_key: Some(vec![2]),
        run_key: None,
        team_key: Some(vec![3]),
        native_collection_id: "todos-1".to_string(),
        native_owner_id: None,
        collection_kind: "todo".to_string(),
        native_collection_kind: "todos".to_string(),
        resolution_status: "resolved".to_string(),
        decisive_fact_id: vec![4],
        assertion_count: 1,
        competing_metadata_count: 0,
        complete_snapshot_count: 1,
        item_document_count: 1,
        item_count: 3,
        last_commit_seq: 5,
        observed_at_unix_ms: 6,
        source_object_id: 7,
        source_generation: 8,
        source_instance_id: 9,
        adapter_id: "acme".to_string(),
    };
    let row = task_collection_row(record.clone()).unwrap();
    assert_eq!(row.item.collection_id, "taskcollection_AQ");
    assert_eq!(row.item.project_id, None);
    assert_eq!(row.item.session_id.as_deref(), Some("session_Ag"));
    assert_eq!(row.item.team_id.as_deref(), Some("team_Aw"));
    assert_eq!(row.payload_bytes, 0);
    assert_eq!(row.item.item_count, 3);
    assert!(matches!(task_collection_row(TaskCollectionRecord { item_count: -3, ..record }), Err(EngineError::Sqlite { .. })));
}

fn task_record() -> TaskRecord {
    TaskRecord {
        task_key: vec![1],
        collection_key: vec![2],
        item_ordinal: 3,
        native_task_id: Some("1".to_string()),
        subject: "Write".to_string(),
        description: Some("docs".to_string()),
        active_form: None,
        native_owner: Some("me".to_string()),
        task_status: "pending".to_string(),
        native_status: "pending".to_string(),
        blocks_json: br#"["2","3"]"#.to_vec(),
        blocked_by_json: b"[]".to_vec(),
        resolution_status: "resolved".to_string(),
        decisive_fact_id: vec![4],
        assertion_count: 1,
        competing_item_count: 0,
        last_commit_seq: 5,
        observed_at_unix_ms: 6,
        source_object_id: 7,
        source_generation: 8,
        source_instance_id: 9,
        adapter_id: "acme".to_string(),
    }
}

#[test]
fn task_rows_decode_dependency_lists_and_sum_their_payload() {
    let row = task_row(task_record()).unwrap();
    assert_eq!(row.item.task_id, "task_AQ");
    assert_eq!(row.item.collection_id, "taskcollection_Ag");
    assert_eq!(row.item.blocks, vec!["2".to_string(), "3".to_string()]);
    assert!(row.item.blocked_by.is_empty());
    assert_eq!(row.order_rank, 3);
    assert_eq!(row.order_text, "");
    assert_eq!(row.payload_bytes, 5 + 4 + 0 + 2 + 9 + 2);

    let not_json = TaskRecord { blocked_by_json: b"{".to_vec(), ..task_record() };
    assert!(matches!(task_row(not_json), Err(EngineError::Sqlite { .. })));
    let not_strings = TaskRecord { blocks_json: b"[1,2]".to_vec(), ..task_record() };
    assert!(matches!(task_row(not_strings), Err(EngineError::Sqlite { .. })));
    let negative = TaskRecord { item_ordinal: -1, ..task_record() };
    assert!(matches!(task_row(negative), Err(EngineError::Sqlite { .. })));

    let linked = task_row_with_links(task_record(), vec!["x".to_string()], Vec::new()).unwrap();
    assert_eq!(linked.item.blocks, vec!["x".to_string()]);
    assert_eq!(linked.payload_bytes, row.payload_bytes);
}

fn artifact_record() -> ArtifactRecord {
    ArtifactRecord {
        artifact_key: vec![1],
        session_key: vec![2],
        project_key: Some(vec![3]),
        native_artifact_id: Some("file@v1".to_string()),
        native_file_hash: Some("abc".to_string()),
        version: 1,
        tracking_path: Some("src/main.rs".to_string()),
        real_parent_dir: None,
        backup_time: Some("2024-01-01T00:00:00Z".to_string()),
        backup_time_quality: Some("native".to_string()),
        capture_status: "content_expected".to_string(),
        content: Some(vec![1, 2, 3, 4]),
        size_bytes: Some(4),
        content_digest: Some(vec![0xfb, 0xff]),
        content_status: "captured".to_string(),
        resolution_status: "resolved".to_string(),
        metadata_fact: Some(vec![5]),
        content_fact: None,
        metadata_assertion_count: 1,
        competing_metadata_count: 0,
        content_assertion_count: 1,
        competing_content_count: 0,
        join_conflict: 1,
        last_commit_seq: 6,
        metadata_observed_at_unix_ms: Some(7),
        metadata_source_object_id: Some(8),
        metadata_source_generation: Some(9),
        metadata_source_instance_id: Some(10),
        metadata_adapter_id: Some("acme".to_string()),
        content_observed_at_unix_ms: None,
        content_source_object_id: None,
        content_source_generation: None,
        content_source_instance_id: None,
        content_adapter_id: None,
        order_rank: 0,
        order_text: "2024-01-01T00:00:00Z".to_string(),
    }
}

#[test]
fn artifact_rows_encode_content_and_digest() {
    let row = artifact_row(artifact_record()).unwrap();
    assert_eq!(row.item.artifact_id, "artifact_AQ");
    assert_eq!(row.item.session_id, "session_Ag");
    assert_eq!(row.item.project_id.as_deref(), Some("project_Aw"));
    assert_eq!(row.item.content_base64.as_deref(), Some("AQIDBA=="));
    assert_eq!(row.payload_bytes, 8);
    assert_eq!(row.item.content_digest_base64url.as_deref(), Some("-_8"));
    assert_eq!(row.item.metadata_fact_id.as_deref(), Some("fact_BQ"));
    assert_eq!(row.item.content_fact_id, None);
    assert!(row.item.join_conflict);
    assert_eq!(row.item.size_bytes, Some(4));
    assert_eq!(row.item.metadata_source_instance_id, Some(10));
    assert_eq!(row.order_text, "2024-01-01T00:00:00Z");

    let without_content = artifact_row(ArtifactRecord { content: None, content_digest: None, ..artifact_record() }).unwrap();
    assert_eq!(without_content.payload_bytes, 0);
    assert_eq!(without_content.item.content_base64, None);
    let negative = ArtifactRecord { metadata_source_generation: Some(-1), ..artifact_record() };
    assert!(matches!(artifact_row(negative), Err(EngineError::Sqlite { .. })));
    let negative_version = ArtifactRecord { version: -1, ..artifact_record() };
    assert!(matches!(artifact_row(negative_version), Err(EngineError::Sqlite { .. })));
}
