//! The decision cores of the HTTP handlers.
//!
//! Each handler is split at its store calls: the surrounding plumbing
//! performs the query and hands the outcome here, and these functions
//! decide the response.  Status codes follow the error taxonomy alone.

use vstd::prelude::*;
use vstd::string::StrSliceExecFns;
use crate::errors::{ApiError, spec_status_code};
use crate::ids::{format_uuid, spec_uuid_string};
use crate::model::{Bucket, File, User};
use crate::store::InsertOutcome;
use crate::token::{encoded_token, spec_claims_for, JwtConfig};

verus! {

/// Body of `POST /register`.
#[derive(Clone, Debug)]
pub struct RegisterRequest {
    pub email: String,
}

/// Answer of `POST /register`: the fresh principal's opaque key.
#[derive(Clone, Debug)]
pub struct RegisterResponse {
    pub api_key: String,
}

/// Body of `POST /login`.
#[derive(Clone, Debug)]
pub struct LoginRequest {
    pub email: String,
}

/// Answer of `POST /login`.
#[derive(Clone, Debug)]
pub struct LoginResponse {
    pub token: String,
    pub user_id: String,
    pub email: String,
}

/// Body of `POST /create-bucket`.
#[derive(Clone, Debug)]
pub struct CreateBucketRequest {
    pub bucket_name: String,
}

/// Answer of `POST /create-bucket`.
#[derive(Clone, Debug)]
pub struct CreateBucketResponse {
    pub id: u128,
    pub name: String,
}

/// One bucket of `GET /buckets`.
#[derive(Clone, Debug)]
pub struct BucketInfo {
    pub id: u128,
    pub name: String,
    pub created_at: i64,
}

/// Answer of `GET /buckets`.
#[derive(Clone, Debug)]
pub struct BucketListResponse {
    pub buckets: Vec<BucketInfo>,
}

/// Query of `POST /upload-file`.
#[derive(Clone, Debug)]
pub struct UploadFileQuery {
    pub bucket_name: String,
}

/// Query of `GET /get-file`.
#[derive(Clone, Debug)]
pub struct GetFileQuery {
    pub bucket_name: String,
    pub filename: String,
}

/// The public fields of a file record, as `POST /upload-file` and
/// `GET /get-file` answer them.
#[derive(Clone, Debug)]
pub struct FileInfoResponse {
    pub id: u128,
    pub filename: String,
    pub content_type: Option<String>,
    pub size: i64,
    pub created_at: i64,
}

impl FileInfoResponse {
    /// The response for a committed record.
    pub fn of_file(f: &File) -> (resp: FileInfoResponse)
        ensures
            resp.id == f.id,
            resp.filename == f.filename,
            resp.content_type == f.content_type,
            resp.size == f.size,
            resp.created_at == f.created_at,
    {
        FileInfoResponse {
            id: f.id,
            filename: f.filename.clone(),
            content_type: f.content_type.clone(),
            size: f.size,
            created_at: f.created_at,
        }
    }
}

/// Registration: the fresh principal was handed to the store; success
/// returns its opaque key, a duplicate email is a conflict, anything
/// else degrades to a generic failure.
pub fn register(user: User, outcome: InsertOutcome) -> (r: Result<RegisterResponse, ApiError>)
    ensures
        outcome is Inserted ==> (r matches Ok(resp) && resp.api_key == user.api_key),
        outcome is DuplicateKey ==> (r matches Err(e) && e is Conflict),
        outcome is StoreFailed ==> (r matches Err(e) && e is UpstreamUnavailable),
{
    match outcome {
        InsertOutcome::Inserted => Ok(RegisterResponse { api_key: user.api_key }),
        InsertOutcome::DuplicateKey => Err(ApiError::Conflict),
        InsertOutcome::StoreFailed => Err(ApiError::UpstreamUnavailable),
    }
}

/// Login: an unknown email is an authentication failure with no reason
/// disclosed; a known principal is answered with a token issued at
/// `now`, its identifier in textual form, and its email.
pub fn login(jwt: &JwtConfig, lookup: Result<Option<User>, sqlx::Error>, now: i64) -> (r: Result<
    LoginResponse,
    ApiError,
>)
    ensures
        lookup matches Ok(Some(u)) ==> ({
            let c = spec_claims_for(u.id, u.email@, now as int, jwt.expiration as int);
            match encoded_token(c, jwt.secret@) {
                Some(t) => {
                    &&& r matches Ok(resp)
                    &&& resp.token@ == t
                    &&& resp.user_id@ == spec_uuid_string(u.id)
                    &&& resp.email == u.email
                },
                None => r matches Err(e) && e is UpstreamUnavailable,
            }
        }),
        lookup matches Ok(None) ==> (r matches Err(e) && e is AuthenticationFailure),
        lookup is Err ==> (r matches Err(e) && e is UpstreamUnavailable),
{
    match lookup {
        Ok(Some(user)) => {
            match jwt.generate_token(user.id, user.email.as_str(), now) {
                Some(token) => Ok(LoginResponse {
                    token,
                    user_id: format_uuid(user.id),
                    email: user.email,
                }),
                None => Err(ApiError::UpstreamUnavailable),
            }
        },
        Ok(None) => Err(ApiError::AuthenticationFailure),
        Err(_) => Err(ApiError::UpstreamUnavailable),
    }
}

/// A bucket name must hold between 1 and 63 characters.
pub open spec fn spec_valid_bucket_name(name: Seq<char>) -> bool {
    1 <= name.len() <= 63
}

/// Bucket creation, first step: validate the requested name and build
/// the candidate row for the resolved principal.
pub fn create_bucket(req: &CreateBucketRequest, user_id: u128) -> (r: Result<Bucket, ApiError>)
    ensures
        spec_valid_bucket_name(req.bucket_name@) ==> (r matches Ok(b) && b.name == req.bucket_name
            && b.user_id == user_id),
        !spec_valid_bucket_name(req.bucket_name@) ==> (r matches Err(e) && e is ValidationFailure),
{
    let n = req.bucket_name.as_str().unicode_len();
    if n == 0 || n > 63 {
        return Err(ApiError::ValidationFailure);
    }
    Ok(Bucket::new(req.bucket_name.clone(), user_id))
}

/// Bucket creation, existence probe: a bucket of that name already owned
/// by the principal is a conflict; a store failure degrades.
pub fn bucket_probe_outcome(probe: Result<Option<Bucket>, sqlx::Error>) -> (r: Result<
    (),
    ApiError,
>)
    ensures
        probe matches Ok(Some(_)) ==> (r matches Err(e) && e is Conflict),
        probe matches Ok(None) ==> r is Ok,
        probe is Err ==> (r matches Err(e) && e is UpstreamUnavailable),
{
    match probe {
        Ok(Some(_)) => Err(ApiError::Conflict),
        Ok(None) => Ok(()),
        Err(_) => Err(ApiError::UpstreamUnavailable),
    }
}

/// The status the commit step owes each insert outcome.  The probe step
/// is not atomic with the insert, so the store's own uniqueness
/// constraint is the authority: its violation is a conflict, never a
/// generic failure.
pub open spec fn spec_commit_status(outcome: InsertOutcome) -> u16 {
    match outcome {
        InsertOutcome::Inserted => 201,
        InsertOutcome::DuplicateKey => 409,
        InsertOutcome::StoreFailed => 500,
    }
}

/// Bucket creation, commit: success answers the created row; the
/// store's uniqueness violation is translated to a conflict.
pub fn create_bucket_commit(bucket: Bucket, outcome: InsertOutcome) -> (r: Result<
    CreateBucketResponse,
    ApiError,
>)
    ensures
        outcome is Inserted ==> (r matches Ok(resp) && resp.id == bucket.id && resp.name
            == bucket.name),
        outcome is DuplicateKey ==> (r matches Err(e) && e is Conflict),
        outcome is StoreFailed ==> (r matches Err(e) && e is UpstreamUnavailable),
        r is Ok <==> spec_commit_status(outcome) == 201,
        r matches Err(e) ==> spec_status_code(e) == spec_commit_status(outcome),
{
    match outcome {
        InsertOutcome::Inserted => Ok(CreateBucketResponse { id: bucket.id, name: bucket.name }),
        InsertOutcome::DuplicateKey => Err(ApiError::Conflict),
        InsertOutcome::StoreFailed => Err(ApiError::UpstreamUnavailable),
    }
}

/// Concurrently creating the same bucket twice yields exactly one
/// success and one conflict, never two successes: the store's atomic
/// constraint on (name, owner) accepts one of the two inserts and refuses
/// the other as a uniqueness violation, and the commit step answers 201
/// to the one and 409 to the other.
pub proof fn lemma_concurrent_create_one_conflict(o1: InsertOutcome, o2: InsertOutcome)
    requires
        o1 is Inserted ==> o2 is DuplicateKey,
        o2 is Inserted ==> o1 is DuplicateKey,
        o1 is Inserted || o2 is Inserted,
    ensures
        spec_commit_status(o1) == 201 && spec_commit_status(o2) == 409 || spec_commit_status(o1)
            == 409 && spec_commit_status(o2) == 201,
{
}

/// Listing buckets: the store's rows, in order, reduced to their public
/// fields; a store failure degrades.
pub fn list_buckets(lookup: Result<Vec<Bucket>, sqlx::Error>) -> (r: Result<
    BucketListResponse,
    ApiError,
>)
    ensures
        lookup matches Ok(buckets) ==> (r matches Ok(resp) && resp.buckets@.len()
            == buckets@.len() && (forall|i: int|
            0 <= i < buckets@.len() ==> (#[trigger] resp.buckets@[i]).id == buckets@[i].id
                && resp.buckets@[i].name == buckets@[i].name && resp.buckets@[i].created_at
                == buckets@[i].created_at)),
        lookup is Err ==> (r matches Err(e) && e is UpstreamUnavailable),
{
    match lookup {
        Ok(buckets) => {
            let mut infos: Vec<BucketInfo> = Vec::new();
            let mut i: usize = 0;
            while i < buckets.len()
                invariant
                    i <= buckets@.len(),
                    infos@.len() == i,
                    forall|j: int|
                        0 <= j < i ==> (#[trigger] infos@[j]).id == buckets@[j].id
                            && infos@[j].name == buckets@[j].name && infos@[j].created_at
                            == buckets@[j].created_at,
                decreases buckets@.len() - i,
            {
                let b = &buckets[i];
                infos.push(BucketInfo { id: b.id, name: b.name.clone(), created_at: b.created_at });
                i = i + 1;
            }
            Ok(BucketListResponse { buckets: infos })
        },
        Err(_) => Err(ApiError::UpstreamUnavailable),
    }
}

/// Listing files: the store's rows, in order, reduced to their public
/// fields; a store failure degrades.
pub fn list_files(lookup: Result<Vec<File>, sqlx::Error>) -> (r: Result<
    Vec<FileInfoResponse>,
    ApiError,
>)
    ensures
        lookup matches Ok(files) ==> (r matches Ok(resp) && resp@.len() == files@.len() && (forall|
            i: int,
        |
            0 <= i < files@.len() ==> (#[trigger] resp@[i]).id == files@[i].id && resp@[i].filename
                == files@[i].filename && resp@[i].content_type == files@[i].content_type
                && resp@[i].size == files@[i].size && resp@[i].created_at == files@[i].created_at)),
        lookup is Err ==> (r matches Err(e) && e is UpstreamUnavailable),
{
    match lookup {
        Ok(files) => {
            let mut infos: Vec<FileInfoResponse> = Vec::new();
            let mut i: usize = 0;
            while i < files.len()
                invariant
                    i <= files@.len(),
                    infos@.len() == i,
                    forall|j: int|
                        0 <= j < i ==> (#[trigger] infos@[j]).id == files@[j].id
                            && infos@[j].filename == files@[j].filename && infos@[j].content_type
                            == files@[j].content_type && infos@[j].size == files@[j].size
                            && infos@[j].created_at == files@[j].created_at,
                decreases files@.len() - i,
            {
                infos.push(FileInfoResponse::of_file(&files[i]));
                i = i + 1;
            }
            Ok(infos)
        },
        Err(_) => Err(ApiError::UpstreamUnavailable),
    }
}

/// Resolving a bucket by name and owner: absence is not found, a store
/// failure degrades.
pub fn resolve_bucket(lookup: Result<Option<Bucket>, sqlx::Error>) -> (r: Result<Bucket, ApiError>)
    ensures
        lookup matches Ok(Some(b)) ==> (r matches Ok(rb) && rb == b),
        lookup matches Ok(None) ==> (r matches Err(e) && e is NotFound),
        lookup is Err ==> (r matches Err(e) && e is UpstreamUnavailable),
{
    match lookup {
        Ok(Some(bucket)) => Ok(bucket),
        Ok(None) => Err(ApiError::NotFound),
        Err(_) => Err(ApiError::UpstreamUnavailable),
    }
}

/// Reading a file's metadata by filename and bucket: absence is not
/// found, a store failure degrades.
pub fn get_file_info(lookup: Result<Option<File>, sqlx::Error>) -> (r: Result<
    FileInfoResponse,
    ApiError,
>)
    ensures
        lookup matches Ok(Some(f)) ==> (r matches Ok(resp) && resp.id == f.id && resp.filename
            == f.filename && resp.content_type == f.content_type && resp.size == f.size
            && resp.created_at == f.created_at),
        lookup matches Ok(None) ==> (r matches Err(e) && e is NotFound),
        lookup is Err ==> (r matches Err(e) && e is UpstreamUnavailable),
{
    match lookup {
        Ok(Some(file)) => Ok(FileInfoResponse::of_file(&file)),
        Ok(None) => Err(ApiError::NotFound),
        Err(_) => Err(ApiError::UpstreamUnavailable),
    }
}

} // verus!
