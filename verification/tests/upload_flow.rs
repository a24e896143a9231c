use bucketstore::errors::ApiError;
use bucketstore::model::Bucket;
use bucketstore::upload::{
    select_part, storage_address, upload_step, UploadEvent, UploadPart, UploadState,
};

fn part(filename: Option<&str>, content_type: Option<&str>, data: &[u8]) -> UploadPart {
    UploadPart {
        filename: filename.map(|s| s.to_string()),
        content_type: content_type.map(|s| s.to_string()),
        data: data.to_vec(),
    }
}

fn bucket() -> Bucket {
    Bucket::new("docs".to_string(), 77)
}

#[test]
fn select_first_filename_bearing_field() {
    let parts = vec![
        part(None, None, b"meta"),
        part(Some("f.txt"), Some("text/plain"), b"hi"),
        part(Some("g.txt"), None, b"later"),
    ];
    assert_eq!(select_part(&parts), Some(1));
}

#[test]
fn select_none_without_filename() {
    let parts = vec![part(None, None, b"a"), part(None, Some("text/plain"), b"b")];
    assert_eq!(select_part(&parts), None);
    assert_eq!(select_part(&Vec::<UploadPart>::new()), None);
}

#[test]
fn bucket_not_found_is_terminal() {
    let next = upload_step(
        UploadState::AwaitBucket,
        UploadEvent::BucketLookup { result: Ok(None) },
    );
    match next {
        UploadState::Failed { error } => assert_eq!(error, ApiError::NotFound),
        _ => panic!("missing bucket must end the upload"),
    }
}

#[test]
fn store_error_on_lookup_degrades() {
    let next = upload_step(
        UploadState::AwaitBucket,
        UploadEvent::BucketLookup { result: Err(sqlx::Error::RowNotFound) },
    );
    match next {
        UploadState::Failed { error } => assert_eq!(error, ApiError::UpstreamUnavailable),
        _ => panic!("a store failure must end the upload"),
    }
}

#[test]
fn no_filename_bearing_field_is_rejected() {
    let state = upload_step(
        UploadState::AwaitBucket,
        UploadEvent::BucketLookup { result: Ok(Some(bucket())) },
    );
    let next = upload_step(
        state,
        UploadEvent::PartsRead { parts: vec![part(None, None, b"x")] },
    );
    match next {
        UploadState::Failed { error } => assert_eq!(error, ApiError::ValidationFailure),
        _ => panic!("a body without a filename-bearing field must be rejected"),
    }
}

#[test]
fn happy_path_commits_exact_byte_count() {
    let b = bucket();
    let bucket_id = b.id;
    let state = upload_step(
        UploadState::AwaitBucket,
        UploadEvent::BucketLookup { result: Ok(Some(b)) },
    );
    let state = upload_step(
        state,
        UploadEvent::PartsRead {
            parts: vec![part(None, None, b"skip"), part(Some("f.txt"), Some("text/plain"), b"hi")],
        },
    );
    match &state {
        UploadState::PersistBytes { filename, content_type, data, .. } => {
            assert_eq!(filename.as_str(), "f.txt");
            assert_eq!(content_type.as_deref(), Some("text/plain"));
            assert_eq!(data.as_slice(), b"hi");
        },
        _ => panic!("a filename-bearing field must reach the persist state"),
    }
    let state = upload_step(state, UploadEvent::BytesSaved { address: "docs/xyz".to_string() });
    let record = match &state {
        UploadState::CommitMetadata { record } => {
            assert_eq!(record.size, 2);
            assert_eq!(record.filename, "f.txt");
            assert_eq!(record.bucket_id, bucket_id);
            assert_eq!(record.storage_path, "docs/xyz");
            record.clone()
        },
        _ => panic!("saved bytes must reach the commit state"),
    };
    let state = upload_step(state, UploadEvent::RecordCommitted);
    match state {
        UploadState::Done { record: done } => {
            assert_eq!(done.id, record.id);
            assert_eq!(done.size, 2);
        },
        _ => panic!("a committed record must finish the upload"),
    }
}

#[test]
fn size_is_byte_count_not_declared_length() {
    let state = upload_step(
        UploadState::AwaitBucket,
        UploadEvent::BucketLookup { result: Ok(Some(bucket())) },
    );
    let payload = vec![0u8; 1234];
    let state = upload_step(
        state,
        UploadEvent::PartsRead { parts: vec![part(Some("big.bin"), None, &payload)] },
    );
    let state = upload_step(state, UploadEvent::BytesSaved { address: "a".to_string() });
    match state {
        UploadState::CommitMetadata { record } => assert_eq!(record.size, 1234),
        _ => panic!("saved bytes must reach the commit state"),
    }
}

#[test]
fn save_failure_aborts_before_metadata() {
    let state = upload_step(
        UploadState::AwaitBucket,
        UploadEvent::BucketLookup { result: Ok(Some(bucket())) },
    );
    let state = upload_step(
        state,
        UploadEvent::PartsRead { parts: vec![part(Some("f.txt"), None, b"hi")] },
    );
    let next = upload_step(state, UploadEvent::SaveFailed);
    match next {
        UploadState::Failed { error } => assert_eq!(error, ApiError::StorageFailure),
        _ => panic!("a storage failure must end the upload"),
    }
}

#[test]
fn commit_failure_leaves_orphan() {
    let state = upload_step(
        UploadState::AwaitBucket,
        UploadEvent::BucketLookup { result: Ok(Some(bucket())) },
    );
    let state = upload_step(
        state,
        UploadEvent::PartsRead { parts: vec![part(Some("f.txt"), None, b"hi")] },
    );
    let state = upload_step(state, UploadEvent::BytesSaved { address: "docs/x".to_string() });
    let next = upload_step(state, UploadEvent::CommitFailed);
    match next {
        UploadState::Failed { error } => assert_eq!(error, ApiError::PersistenceFailure),
        _ => panic!("a failed commit must end the upload"),
    }
}

#[test]
fn address_derives_from_identity_not_name() {
    let a1 = storage_address("docs", 1);
    let a2 = storage_address("docs", 2);
    assert_ne!(a1, a2);
    assert_eq!(a1, "docs/00000000-0000-0000-0000-000000000001");
    assert_eq!(a2, "docs/00000000-0000-0000-0000-000000000002");
}
