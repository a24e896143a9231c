//! The whole service walked once over a simulated metadata store: an
//! in-memory map stands in for the relational rows and enforces the two
//! uniqueness constraints, as the real store's schema does.

use std::collections::HashMap;

use bucketstore::errors::ApiError;
use bucketstore::model::{Bucket, File, User};
use bucketstore::resolver::{resolve_credentials, AuthDecision};
use bucketstore::routes::{
    bucket_probe_outcome, create_bucket, create_bucket_commit, get_file_info, login, register,
    CreateBucketRequest,
};
use bucketstore::store::InsertOutcome;
use bucketstore::token::JwtConfig;
use bucketstore::upload::{storage_address, upload_step, UploadEvent, UploadPart, UploadState};

struct FakeStore {
    users_by_email: HashMap<String, User>,
    buckets: HashMap<(String, u128), Bucket>,
    files: HashMap<(String, u128), File>,
    blobs: HashMap<String, Vec<u8>>,
}

impl FakeStore {
    fn new() -> FakeStore {
        FakeStore {
            users_by_email: HashMap::new(),
            buckets: HashMap::new(),
            files: HashMap::new(),
            blobs: HashMap::new(),
        }
    }

    fn insert_user(&mut self, u: &User) -> InsertOutcome {
        if self.users_by_email.contains_key(&u.email) {
            InsertOutcome::DuplicateKey
        } else {
            self.users_by_email.insert(u.email.clone(), u.clone());
            InsertOutcome::Inserted
        }
    }

    fn insert_bucket(&mut self, b: &Bucket) -> InsertOutcome {
        let key = (b.name.clone(), b.user_id);
        if self.buckets.contains_key(&key) {
            InsertOutcome::DuplicateKey
        } else {
            self.buckets.insert(key, b.clone());
            InsertOutcome::Inserted
        }
    }

    fn find_bucket(&self, name: &str, user_id: u128) -> Option<Bucket> {
        self.buckets.get(&(name.to_string(), user_id)).cloned()
    }

    fn insert_file(&mut self, f: &File) -> InsertOutcome {
        let key = (f.filename.clone(), f.bucket_id);
        if self.files.contains_key(&key) {
            InsertOutcome::DuplicateKey
        } else {
            self.files.insert(key, f.clone());
            InsertOutcome::Inserted
        }
    }

    fn find_file(&self, filename: &str, bucket_id: u128) -> Option<File> {
        self.files.get(&(filename.to_string(), bucket_id)).cloned()
    }
}

#[test]
fn whole_service_walkthrough() {
    let mut store = FakeStore::new();
    let jwt = JwtConfig::new("end-to-end-secret".to_string(), 86400);
    let now: i64 = 1_700_000_000;

    // register("a@x.com") -> 201 {api_key}
    let user = User::new("a@x.com".to_string());
    let user_id = user.id;
    let outcome = store.insert_user(&user);
    let reg = register(user.clone(), outcome).unwrap();
    assert_eq!(reg.api_key.len(), 64);

    // register("a@x.com") again -> 409
    let again = User::new("a@x.com".to_string());
    let outcome = store.insert_user(&again);
    let err = register(again, outcome).unwrap_err();
    assert_eq!(err.status_code(), 409);

    // login("a@x.com") -> 200 {token, user_id, email}
    let looked_up = store.users_by_email.get("a@x.com").cloned();
    let resp = login(&jwt, Ok(looked_up), now).unwrap();
    assert_eq!(resp.email, "a@x.com");

    // The token authenticates follow-up requests.
    let header = format!("Bearer {}", resp.token);
    let principal = match resolve_credentials(&jwt, Some(&header), "", now + 10) {
        AuthDecision::Resolved { principal_id } => principal_id,
        _ => panic!("a fresh token must resolve"),
    };
    assert_eq!(principal, user_id);

    // create-bucket {bucket_name: "docs"} -> 201
    let req = CreateBucketRequest { bucket_name: "docs".to_string() };
    let candidate = create_bucket(&req, principal).unwrap();
    bucket_probe_outcome(Ok(store.find_bucket("docs", principal))).unwrap();
    let outcome = store.insert_bucket(&candidate);
    let created = create_bucket_commit(candidate, outcome).unwrap();
    assert_eq!(created.name, "docs");

    // repeat -> 409 (the probe sees the existing row)
    let err = bucket_probe_outcome(Ok(store.find_bucket("docs", principal))).unwrap_err();
    assert_eq!(err.status_code(), 409);

    // upload-file?bucket_name=docs with one part "f.txt", body "hi" -> 201 {size: 2}
    let state = upload_step(
        UploadState::AwaitBucket,
        UploadEvent::BucketLookup { result: Ok(store.find_bucket("docs", principal)) },
    );
    let part = UploadPart {
        filename: Some("f.txt".to_string()),
        content_type: Some("text/plain".to_string()),
        data: b"hi".to_vec(),
    };
    let state = upload_step(state, UploadEvent::PartsRead { parts: vec![part] });
    let (bucket_name, file_id, data) = match &state {
        UploadState::PersistBytes { bucket, file_id, data, .. } => {
            (bucket.name.clone(), *file_id, data.clone())
        },
        _ => panic!("the selected part must reach the persist state"),
    };
    let address = storage_address(&bucket_name, file_id);
    store.blobs.insert(address.clone(), data);
    let state = upload_step(state, UploadEvent::BytesSaved { address: address.clone() });
    let record = match &state {
        UploadState::CommitMetadata { record } => record.clone(),
        _ => panic!("saved bytes must reach the commit state"),
    };
    let outcome = store.insert_file(&record);
    assert_eq!(outcome, InsertOutcome::Inserted);
    let state = upload_step(state, UploadEvent::RecordCommitted);
    let done = match state {
        UploadState::Done { record } => record,
        _ => panic!("the committed upload must finish"),
    };
    assert_eq!(done.size, 2);
    assert_eq!(store.blobs.get(&address).map(|b| b.len()), Some(2));

    // get-file?bucket_name=docs&filename=f.txt -> 200 matching record
    let bucket = store.find_bucket("docs", principal).unwrap();
    let info = get_file_info(Ok(store.find_file("f.txt", bucket.id))).unwrap();
    assert_eq!(info.id, done.id);
    assert_eq!(info.filename, "f.txt");
    assert_eq!(info.size, 2);

    // get-file?bucket_name=docs&filename=missing.txt -> 404
    let err = get_file_info(Ok(store.find_file("missing.txt", bucket.id))).unwrap_err();
    assert_eq!(err, ApiError::NotFound);
    assert_eq!(err.status_code(), 404);
}
