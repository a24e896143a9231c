//! The upload orchestrator.
//!
//! One upload is a linear state machine with error exits at each state:
//! `AwaitBucket -> StreamPart -> PersistBytes -> CommitMetadata -> Done`.
//! The surrounding plumbing performs the effect each state calls for
//! (look the bucket up, decode the multipart body, persist the bytes,
//! insert the row) and feeds the outcome back as an event; `upload_step`
//! decides every transition.  Bytes are always persisted before the
//! metadata commit begins, and a commit that fails leaves the already
//! written blob orphaned on purpose.

use vstd::prelude::*;
use vstd::string::StringExecFns;
use crate::errors::ApiError;
use crate::ids::{format_uuid, fresh_id, spec_uuid_string, lemma_uuid_string_injective};
use crate::model::{Bucket, File};

verus! {

/// One decoded field of a multipart body.
#[derive(Clone, Debug)]
pub struct UploadPart {
    /// The filename carried by the field's content disposition, if any.
    pub filename: Option<String>,
    /// The declared content type, if any; captured, never validated.
    pub content_type: Option<String>,
    /// The field's bytes, accumulated fully in memory.
    pub data: Vec<u8>,
}

/// No field of the body carries a filename.
pub open spec fn no_file_part(parts: Seq<UploadPart>) -> bool {
    forall|j: int| 0 <= j < parts.len() ==> (#[trigger] parts[j].filename) is None
}

/// `i` is the first field that carries a filename.
pub open spec fn selected_part(parts: Seq<UploadPart>, i: int) -> bool {
    &&& 0 <= i < parts.len()
    &&& parts[i].filename is Some
    &&& forall|j: int| 0 <= j < i ==> (#[trigger] parts[j].filename) is None
}

/// Picks the first filename-bearing field; later fields are ignored.
pub fn select_part(parts: &Vec<UploadPart>) -> (r: Option<usize>)
    ensures
        r matches Some(i) ==> selected_part(parts@, i as int),
        r is None ==> no_file_part(parts@),
{
    let mut i: usize = 0;
    while i < parts.len()
        invariant
            i <= parts@.len(),
            forall|j: int| 0 <= j < i ==> (#[trigger] parts@[j].filename) is None,
        decreases parts@.len() - i,
    {
        if parts[i].filename.is_some() {
            return Some(i);
        }
        i = i + 1;
    }
    None
}

/// The states of one upload request.  `Done` and `Failed` are terminal.
pub enum UploadState {
    /// Resolve the bucket named in the query for the resolved principal.
    AwaitBucket,
    /// Decode the multipart body and select the field to process.
    StreamPart { bucket: Bucket },
    /// Persist the selected field's bytes through the storage engine.
    PersistBytes {
        bucket: Bucket,
        file_id: u128,
        filename: String,
        content_type: Option<String>,
        data: Vec<u8>,
    },
    /// Insert the file row; the bytes behind `record.storage_path` are
    /// already durable.
    CommitMetadata { record: File },
    /// Respond 201 with the record's public fields.
    Done { record: File },
    /// Respond with the error; nothing further happens.
    Failed { error: ApiError },
}

/// The outcome of the effect a state called for.
pub enum UploadEvent {
    /// What the bucket lookup returned.
    BucketLookup { result: Result<Option<Bucket>, sqlx::Error> },
    /// The decoded fields of the multipart body, in order.
    PartsRead { parts: Vec<UploadPart> },
    /// The storage engine persisted the bytes at this address.
    BytesSaved { address: String },
    /// The storage engine failed; nothing was recorded.
    SaveFailed,
    /// The metadata store accepted the row.
    RecordCommitted,
    /// The metadata store refused the row; the blob stays orphaned.
    CommitFailed,
}

/// Which event answers which state.  Terminal states take none.
pub open spec fn event_fits(state: UploadState, event: UploadEvent) -> bool {
    match state {
        UploadState::AwaitBucket => event is BucketLookup,
        UploadState::StreamPart { .. } => event is PartsRead,
        UploadState::PersistBytes { .. } => event is BytesSaved || event is SaveFailed,
        UploadState::CommitMetadata { .. } => event is RecordCommitted || event is CommitFailed,
        UploadState::Done { .. } => false,
        UploadState::Failed { .. } => false,
    }
}

/// Every part's byte count fits the record's size field.
pub open spec fn parts_sized(event: UploadEvent) -> bool {
    event matches UploadEvent::PartsRead { parts } ==> forall|j: int|
        0 <= j < parts@.len() ==> (#[trigger] parts@[j]).data@.len() <= i64::MAX
}

/// The byte count buffered in the state fits the record's size field.
pub open spec fn state_sized(state: UploadState) -> bool {
    state matches UploadState::PersistBytes { data, .. } ==> data@.len() <= i64::MAX
}

/// One transition of the upload state machine.
///
/// The file identity drawn on part selection, the record identifier and
/// the record's creation time are fresh values and are not constrained;
/// everything else about the next state is pinned here.  In particular
/// `CommitMetadata` is reached only from `PersistBytes` on `BytesSaved`,
/// so bytes are always durable before the commit begins, and the record's
/// size is the accumulated byte count, never a client-declared length.
pub fn upload_step(state: UploadState, event: UploadEvent) -> (next: UploadState)
    requires
        event_fits(state, event),
        parts_sized(event),
        state_sized(state),
    ensures
        state_sized(next),
        // AWAIT_BUCKET: not-found is terminal with no side effects.
        state is AwaitBucket ==> (event matches UploadEvent::BucketLookup { result } ==> {
            &&& result matches Ok(Some(b)) ==> next == (UploadState::StreamPart { bucket: b })
            &&& result matches Ok(None) ==> next == (UploadState::Failed {
                error: ApiError::NotFound,
            })
            &&& result is Err ==> next == (UploadState::Failed {
                error: ApiError::UpstreamUnavailable,
            })
        }),
        // STREAM_PART: the first filename-bearing field is selected; a
        // body with none is rejected outright.
        state is StreamPart ==> (event matches UploadEvent::PartsRead { parts } ==> {
            &&& no_file_part(parts@) ==> next == (UploadState::Failed {
                error: ApiError::ValidationFailure,
            })
            &&& forall|i: int|
                selected_part(parts@, i) ==> {
                    &&& next matches UploadState::PersistBytes {
                        bucket,
                        filename,
                        content_type,
                        data,
                        ..
                    }
                    &&& bucket == state->StreamPart_bucket
                    &&& filename == parts@[i].filename->0
                    &&& content_type == parts@[i].content_type
                    &&& data == parts@[i].data
                }
        }),
        // PERSIST_BYTES: a storage failure aborts before any metadata
        // write; on success the record commits the actual byte count and
        // the engine's address.
        state is PersistBytes && event is SaveFailed ==> next == (UploadState::Failed {
            error: ApiError::StorageFailure,
        }),
        state is PersistBytes ==> (event matches UploadEvent::BytesSaved { address } ==> {
            &&& next matches UploadState::CommitMetadata { record }
            &&& record.filename == state->PersistBytes_filename
            &&& record.content_type == state->PersistBytes_content_type
            &&& record.size == state->PersistBytes_data@.len()
            &&& record.bucket_id == state->PersistBytes_bucket.id
            &&& record.storage_path == address
        }),
        // COMMIT_METADATA: a failure here is terminal and the blob is not
        // rolled back; it stays orphaned.
        state is CommitMetadata && event is RecordCommitted ==> next == (UploadState::Done {
            record: state->CommitMetadata_record,
        }),
        state is CommitMetadata && event is CommitFailed ==> next == (UploadState::Failed {
            error: ApiError::PersistenceFailure,
        }),
{
    match state {
        UploadState::AwaitBucket => {
            match event {
                UploadEvent::BucketLookup { result } => match result {
                    Ok(Some(bucket)) => UploadState::StreamPart { bucket },
                    Ok(None) => UploadState::Failed { error: ApiError::NotFound },
                    Err(_) => UploadState::Failed { error: ApiError::UpstreamUnavailable },
                },
                _ => UploadState::Failed { error: ApiError::ValidationFailure },
            }
        },
        UploadState::StreamPart { bucket } => {
            match event {
                UploadEvent::PartsRead { mut parts } => {
                    match select_part(&parts) {
                        None => UploadState::Failed { error: ApiError::ValidationFailure },
                        Some(i) => {
                            let part = parts.remove(i);
                            let filename = match part.filename {
                                Some(f) => f,
                                None => {
                                    return UploadState::Failed {
                                        error: ApiError::ValidationFailure,
                                    };
                                },
                            };
                            UploadState::PersistBytes {
                                bucket,
                                file_id: fresh_id(),
                                filename,
                                content_type: part.content_type,
                                data: part.data,
                            }
                        },
                    }
                },
                _ => UploadState::Failed { error: ApiError::ValidationFailure },
            }
        },
        UploadState::PersistBytes { bucket, file_id: _, filename, content_type, data } => {
            match event {
                UploadEvent::BytesSaved { address } => {
                    let size = data.len() as i64;
                    let record = File::new(filename, content_type, size, bucket.id, address);
                    UploadState::CommitMetadata { record }
                },
                UploadEvent::SaveFailed => UploadState::Failed { error: ApiError::StorageFailure },
                _ => UploadState::Failed { error: ApiError::ValidationFailure },
            }
        },
        UploadState::CommitMetadata { record } => {
            match event {
                UploadEvent::RecordCommitted => UploadState::Done { record },
                UploadEvent::CommitFailed => UploadState::Failed {
                    error: ApiError::PersistenceFailure,
                },
                _ => UploadState::Failed { error: ApiError::ValidationFailure },
            }
        },
        UploadState::Done { record } => UploadState::Done { record },
        UploadState::Failed { error } => UploadState::Failed { error },
    }
}

/// `Done` and `Failed` are terminal: no event answers them.  An upload
/// rejected for want of a filename-bearing field therefore never reaches
/// `PersistBytes` nor `CommitMetadata`: no blob is written and no file
/// row is created.
pub proof fn lemma_terminal_states(state: UploadState, event: UploadEvent)
    requires
        state is Done || state is Failed,
    ensures
        !event_fits(state, event),
{
}

/// The storage address of persisted bytes: derived from the bucket name
/// and the file identity, never from the display name.
pub fn storage_address(bucket_name: &str, file_id: u128) -> (addr: String)
    ensures
        addr@ == bucket_name@ + "/"@ + spec_uuid_string(file_id),
{
    let mut addr = bucket_name.to_owned();
    addr.append("/");
    let id_text = format_uuid(file_id);
    addr.append(id_text.as_str());
    addr
}

/// Two files in one bucket never collide at the storage layer, whatever
/// their display names: distinct file identities give distinct addresses.
pub proof fn lemma_storage_address_distinct(bucket_name: Seq<char>, id1: u128, id2: u128)
    requires
        id1 != id2,
    ensures
        bucket_name + "/"@ + spec_uuid_string(id1) != bucket_name + "/"@ + spec_uuid_string(id2),
{
    lemma_uuid_string_injective(id1, id2);
    let p = bucket_name + "/"@;
    let s1 = p + spec_uuid_string(id1);
    let s2 = p + spec_uuid_string(id2);
    if s1 == s2 {
        assert forall|k: int| 0 <= k < 36 implies spec_uuid_string(id1)[k] == spec_uuid_string(
            id2,
        )[k] by {
            assert(s1[p.len() + k] == s2[p.len() + k]);
        }
        assert(spec_uuid_string(id1) =~= spec_uuid_string(id2));
    }
}

} // verus!
