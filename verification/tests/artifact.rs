use spaghetti_catalog::artifact::{
    affected_artifact_keys, artifact_touch, capture_status, change_operation, competing_count, content_digest,
    observation_kind, reduce_artifact, sqlite_u64, sqlite_usize, timestamp_quality, timestamp_value,
    validate_content_assertion, validate_metadata_entry, validate_metadata_snapshot,
    validate_snapshot_artifact_keys, ArtifactCapture, ArtifactObservationKind, ArtifactTouch,
    ContentAssertion, MetadataAssertion, QualifiedTimestamp, TimestampQuality,
};
use spaghetti_catalog::error::EngineError;

fn metadata(fact: u8, digest: u8, capture: &str) -> MetadataAssertion {
    MetadataAssertion {
        fact_id: vec![fact],
        session_key: b"session".to_vec(),
        native_artifact_id: Some("artifact-1".to_owned()),
        tracking_path: "src/main.rs".to_owned(),
        real_parent_dir: None,
        version: 2,
        backup_time: "2026-01-01T00:00:00Z".to_owned(),
        backup_time_quality: "native_exact".to_owned(),
        capture_status: capture.to_owned(),
        metadata_digest: vec![digest; 32],
    }
}

fn content(fact: u8, digest: u8) -> ContentAssertion {
    ContentAssertion {
        fact_id: vec![fact],
        session_key: b"session".to_vec(),
        native_artifact_id: "artifact-1".to_owned(),
        native_file_hash: "hash".to_owned(),
        version: 2,
        size_bytes: 4,
        content_digest: vec![7; 32],
        assertion_digest: vec![digest; 32],
    }
}

#[test]
fn joined_halves_resolve_and_missing_halves_stay_queryable() {
    let resolved = reduce_artifact(&vec![metadata(1, 1, "content_expected")], &vec![content(2, 9)]);
    assert_eq!(resolved.content_status.as_deref(), Some("captured"));
    assert_eq!(resolved.resolution_status.as_deref(), Some("resolved"));
    assert!(!resolved.join_conflict);

    let missing = reduce_artifact(&vec![metadata(1, 1, "content_expected")], &Vec::new());
    assert_eq!(missing.content_status.as_deref(), Some("missing_content"));
    assert_eq!(missing.resolution_status.as_deref(), Some("incomplete"));

    let uncaptured = reduce_artifact(&vec![metadata(1, 1, "not_captured")], &Vec::new());
    assert_eq!(uncaptured.content_status.as_deref(), Some("not_captured"));
    assert_eq!(uncaptured.resolution_status.as_deref(), Some("resolved"));

    let orphan = reduce_artifact(&Vec::new(), &vec![content(2, 9)]);
    assert_eq!(orphan.content_status.as_deref(), Some("orphan_content"));
    assert_eq!(orphan.resolution_status.as_deref(), Some("incomplete"));

    let absent = reduce_artifact(&Vec::new(), &Vec::new());
    assert_eq!(absent.resolution_status, None);
    assert_eq!(absent.content_status, None);
}

#[test]
fn competing_assertions_and_join_conflicts_are_conflicting() {
    let competing = reduce_artifact(
        &vec![metadata(1, 1, "content_expected"), metadata(2, 2, "content_expected"), metadata(3, 1, "content_expected")],
        &vec![content(4, 9), content(5, 9)],
    );
    assert_eq!(competing.metadata_assertion_count, 3);
    assert_eq!(competing.competing_metadata_count, 1);
    assert_eq!(competing.content_assertion_count, 2);
    assert_eq!(competing.competing_content_count, 0);
    assert_eq!(competing.resolution_status.as_deref(), Some("conflicting"));
    assert_eq!(competing_count(&competing), 1);

    let mut other_version = content(4, 9);
    other_version.version = 3;
    let conflict = reduce_artifact(&vec![metadata(1, 1, "content_expected")], &vec![other_version]);
    assert!(conflict.join_conflict);
    assert_eq!(conflict.resolution_status.as_deref(), Some("conflicting"));
    assert_eq!(competing_count(&conflict), 1);

    let uncaptured_with_content = reduce_artifact(&vec![metadata(1, 1, "not_captured")], &vec![content(2, 9)]);
    assert!(uncaptured_with_content.join_conflict);
}

#[test]
fn metadata_and_content_validation() {
    let id = Some("artifact-1".to_owned());
    assert_eq!(validate_metadata_entry(1, "a.rs", "t", ArtifactCapture::ContentExpected, &id), Ok(()));
    assert_eq!(validate_metadata_entry(1, "a.rs", "t", ArtifactCapture::NotCaptured, &None), Ok(()));
    assert!(matches!(
        validate_metadata_entry(0, "a.rs", "t", ArtifactCapture::NotCaptured, &None),
        Err(EngineError::InvalidCommit(_))
    ));
    assert!(validate_metadata_entry(1, "  \t", "t", ArtifactCapture::NotCaptured, &None).is_err());
    assert!(validate_metadata_entry(1, "a.rs", "t", ArtifactCapture::NotCaptured, &id).is_err());
    assert!(validate_metadata_entry(1, "a.rs", "t", ArtifactCapture::ContentExpected, &Some(" ".to_owned())).is_err());
    assert!(validate_metadata_snapshot("m1", " ").is_err());
    assert_eq!(validate_metadata_snapshot("m1", "m2"), Ok(()));
    assert!(validate_snapshot_artifact_keys(&vec![vec![1], vec![2], vec![1]]).is_err());
    assert_eq!(validate_snapshot_artifact_keys(&vec![vec![1], vec![2]]), Ok(()));

    let bytes = b"data".to_vec();
    assert_eq!(validate_content_assertion(1, "id", "hash", 4, &bytes), Ok(()));
    assert!(validate_content_assertion(1, "id", "hash", 5, &bytes).is_err());
    assert!(validate_content_assertion(1, "", "hash", 4, &bytes).is_err());
    assert_eq!(content_digest(&bytes), *blake3::hash(b"data").as_bytes());
    assert_ne!(content_digest(&bytes).to_vec(), bytes);
}

#[test]
fn stored_texts_and_integers() {
    assert_eq!(observation_kind(ArtifactObservationKind::Checkpoint), "checkpoint");
    assert_eq!(observation_kind(ArtifactObservationKind::Delta), "delta");
    assert_eq!(capture_status(ArtifactCapture::ContentExpected), "content_expected");
    assert_eq!(capture_status(ArtifactCapture::NotCaptured), "not_captured");
    let time = QualifiedTimestamp { value: "t".to_owned(), quality: TimestampQuality::FileMetadataFallback };
    assert_eq!(timestamp_value(Some(&time)), Some("t"));
    assert_eq!(timestamp_quality(Some(&time)), Some("file_metadata_fallback"));
    assert_eq!(timestamp_quality(None), None);
    assert_eq!(sqlite_u64(3, "v"), Ok(3));
    assert!(matches!(sqlite_u64(u64::MAX, "v"), Err(EngineError::InvalidCommit(_))));
    assert_eq!(sqlite_usize(3, "v"), Ok(3));
    assert_eq!(change_operation(true), "upsert");
    assert_eq!(change_operation(false), "delete");
    assert_eq!(artifact_touch(false, false, true, true, false), ArtifactTouch { metadata: true, content: false });
    assert_eq!(artifact_touch(false, false, false, true, true), ArtifactTouch { metadata: false, content: true });
}

#[test]
fn affected_artifacts_are_each_reduced_once_in_key_order() {
    let owned_metadata = vec![vec![3], vec![1]];
    let owned_content = vec![vec![2], vec![3]];
    let facts = vec![vec![5], vec![1, 0], vec![5]];
    let both = ArtifactTouch { metadata: true, content: true };
    assert_eq!(
        affected_artifact_keys(both, &owned_metadata, &owned_content, &facts),
        vec![vec![1], vec![1, 0], vec![2], vec![3], vec![5]]
    );
    let content_only = ArtifactTouch { metadata: false, content: true };
    assert_eq!(
        affected_artifact_keys(content_only, &owned_metadata, &owned_content, &facts),
        vec![vec![1, 0], vec![2], vec![3], vec![5]]
    );
    let neither = ArtifactTouch { metadata: false, content: false };
    assert_eq!(affected_artifact_keys(neither, &owned_metadata, &owned_content, &Vec::new()), Vec::<Vec<u8>>::new());
}

#[test]
fn whitespace_is_the_unicode_white_space_property() {
    for value in 0..=0x10ffffu32 {
        if let Some(c) = char::from_u32(value) {
            assert_eq!(spaghetti_catalog::artifact::is_whitespace(c), c.is_whitespace(), "U+{value:04X}");
        }
    }
}
