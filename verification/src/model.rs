//! The data model: principals, buckets and files.
//!
//! Identifiers are 128-bit values, timestamps are epoch seconds.  The
//! metadata store keeps `(name, user_id)` unique over buckets and
//! `(filename, bucket_id)` unique over files; those constraints are the
//! store's own and are relied on, not restated, here.

use vstd::prelude::*;
use crate::ids::fresh_id;
use crate::keys::{generate_api_key, spec_is_api_key};

verus! {

/// Reads the clock as epoch seconds.
///
/// Relies on `chrono::Utc::now` and `DateTime::timestamp`: the current
/// time in whole seconds since the epoch.  Nothing is promised of the
/// value.
#[verifier::external_body]
pub(crate) fn now_seconds() -> i64 {
    chrono::Utc::now().timestamp()
}

/// A registered principal.  Immutable once created; the opaque key is its
/// long-lived credential.
#[derive(Clone, Debug)]
pub struct User {
    pub id: u128,
    pub email: String,
    pub api_key: String,
    pub created_at: i64,
}

impl User {
    /// A fresh principal with a fresh opaque key.  The identifier and the
    /// creation time are drawn here and are not constrained.
    pub fn new(email: String) -> (u: User)
        ensures
            u.email == email,
            spec_is_api_key(u.api_key@),
    {
        let api_key = generate_api_key();
        User { id: fresh_id(), email, api_key, created_at: now_seconds() }
    }
}

/// A named container of files, owned by exactly one principal.
#[derive(Clone, Debug)]
pub struct Bucket {
    pub id: u128,
    pub name: String,
    pub user_id: u128,
    pub created_at: i64,
}

impl Bucket {
    /// A fresh bucket.  The identifier and the creation time are drawn
    /// here and are not constrained.
    pub fn new(name: String, user_id: u128) -> (b: Bucket)
        ensures
            b.name == name,
            b.user_id == user_id,
    {
        Bucket { id: fresh_id(), name, user_id, created_at: now_seconds() }
    }
}

/// A named binary object with metadata, belonging to exactly one bucket.
/// `size` is the authoritative byte count; `storage_path` is the opaque
/// address the storage engine returned for the bytes.
#[derive(Clone, Debug)]
pub struct File {
    pub id: u128,
    pub filename: String,
    pub content_type: Option<String>,
    pub size: i64,
    pub bucket_id: u128,
    pub storage_path: String,
    pub created_at: i64,
}

impl File {
    /// A fresh file record over the given metadata.  The identifier and
    /// the creation time are drawn here and are not constrained.
    pub fn new(
        filename: String,
        content_type: Option<String>,
        size: i64,
        bucket_id: u128,
        storage_path: String,
    ) -> (f: File)
        ensures
            f.filename == filename,
            f.content_type == content_type,
            f.size == size,
            f.bucket_id == bucket_id,
            f.storage_path == storage_path,
    {
        File {
            id: fresh_id(),
            filename,
            content_type,
            size,
            bucket_id,
            storage_path,
            created_at: now_seconds(),
        }
    }
}

} // verus!
