//! File records and the per-file operations: listing defaults, safe download
//! names, soft deletion with quota release, and the storage summary.

use vstd::prelude::*;
use vstd::string::{StrSliceExecFns, StringExecFns};
use crate::charprops::{char_is_control, is_control_char};
use crate::errors::{AppError, VaultResult};
use crate::quota::{storage_wf, UserStorage};

verus! {

/// A stored file record.
///
/// The chunk table bytes decode to the staged-chunk list; the file's DEK is
/// sealed under the KEK of `dek_version` with `nonce`.
pub struct File {
    /// The unique identifier for the file.
    pub id: u128,
    /// The owner's user id.
    pub user_id: u128,
    /// The containing folder, if any.
    pub folder_id: Option<u128>,
    /// The file name the client supplied.
    pub original_filename: String,
    /// How many chunks the file was split into.
    pub total_chunks: usize,
    /// The encoded chunk table.
    pub chunks_metadata: Vec<u8>,
    /// The file's DEK, sealed under a KEK.
    pub encrypted_dek: Vec<u8>,
    /// The nonce the DEK was sealed with.
    pub nonce: Vec<u8>,
    /// The version of the KEK the DEK is sealed under.
    pub dek_version: i32,
    /// The plaintext size in bytes.
    pub file_size: i64,
    /// The MIME type reported on download.
    pub mime_type: String,
    /// The client-declared checksum, if any.
    pub checksum_sha256: Option<String>,
    /// The upload status; a stored record is always completed.
    pub upload_status: String,
    /// When the upload was finalized (Unix seconds).
    pub uploaded_at: i64,
    /// Whether the file has been soft-deleted.
    pub is_deleted: bool,
    /// How many times the file has been downloaded.
    pub access_count: i64,
}

impl File {
    /// A record carries a full DEK nonce and a non-negative size.
    pub open spec fn wf(&self) -> bool {
        &&& self.nonce@.len() == crate::aes::NONCE_SIZE
        &&& self.file_size >= 0
    }
}

/// Query parameters of the file listing.
pub struct ListFilesQuery {
    /// The maximum number of files to return.
    pub limit: i64,
    /// The number of files to skip.
    pub offset: i64,
}

/// The default page size of the file listing.
pub fn default_limit() -> (r: i64)
    ensures
        r == 50,
{
    50
}

/// A character as it appears in a download's `Content-Disposition` file
/// name: quotes, backslashes and control characters become underscores.
pub open spec fn spec_sanitized_char(c: char) -> char {
    if c == '"' || c == '\\' || c == '\n' || c == '\r' || char_is_control(c) {
        '_'
    } else {
        c
    }
}

/// Replaces every character that could break out of a quoted header value
/// with an underscore, keeping the name's length.
pub fn sanitize_filename(filename: &str) -> (r: String)
    ensures
        r@.len() == filename@.len(),
        forall|i: int| 0 <= i < r@.len() ==> #[trigger] r@[i] == spec_sanitized_char(filename@[i]),
{
    let n = filename.unicode_len();
    let mut chars: Vec<char> = Vec::new();
    let mut i: usize = 0;
    while i < n
        invariant
            n == filename@.len(),
            i <= n,
            chars@.len() == i,
            forall|j: int| 0 <= j < i ==> #[trigger] chars@[j] == spec_sanitized_char(
                filename@[j],
            ),
        decreases n - i,
    {
        let c = filename.get_char(i);
        if c == '"' || c == '\\' || c == '\n' || c == '\r' || is_control_char(c) {
            chars.push('_');
        } else {
            chars.push(c);
        }
        i = i + 1;
    }
    crate::textenc::chars_to_string(&chars)
}

/// Soft-deletes a file, releasing its bytes from the owner's quota.
///
/// Fails with a not-found error when no record matches, and refuses a record
/// that is already deleted.  The quota release happens in the same
/// transaction as the delete flag, so the returned byte count is exactly what
/// left the ledger.
pub fn delete_file(file: Option<&File>, storage: &mut UserStorage) -> (r: VaultResult<i64>)
    requires
        storage_wf(*old(storage)),
        file matches Some(f) ==> f.wf(),
    ensures
        storage_wf(*final(storage)),
        final(storage).storage_quota_bytes == old(storage).storage_quota_bytes,
        r is Ok <==> (file matches Some(f) && !f.is_deleted),
        match r {
            Ok(released) => {
                &&& file matches Some(f) && released == f.file_size
                    && final(storage).storage_used_bytes == (if f.file_size <= old(
                    storage,
                ).storage_used_bytes {
                    old(storage).storage_used_bytes - f.file_size
                } else {
                    0int
                })
            },
            Err(e) => {
                &&& *final(storage) == *old(storage)
                &&& (file is None ==> e is NotFound)
                &&& (file is Some ==> e is Validation)
            },
        },
{
    match file {
        None => Err(AppError::NotFound),
        Some(f) => {
            if f.is_deleted {
                Err(AppError::Validation(String::from_str("File already deleted")))
            } else {
                storage.release_usage(f.file_size);
                Ok(f.file_size)
            }
        },
    }
}

/// The storage summary reported to the client: quota, usage and what is
/// left.
pub struct StorageInfo {
    /// The user's storage quota in bytes.
    pub storage_quota_bytes: i64,
    /// The user's used storage in bytes.
    pub storage_used_bytes: i64,
    /// The bytes still available under the quota.
    pub available_bytes: i64,
}

/// Computes the storage summary from the ledger row.
pub fn storage_info(storage: &UserStorage) -> (r: StorageInfo)
    requires
        storage_wf(*storage),
    ensures
        r.storage_quota_bytes == storage.storage_quota_bytes,
        r.storage_used_bytes == storage.storage_used_bytes,
        r.available_bytes == storage.storage_quota_bytes - storage.storage_used_bytes,
        r.available_bytes >= 0,
{
    StorageInfo {
        storage_quota_bytes: storage.storage_quota_bytes,
        storage_used_bytes: storage.storage_used_bytes,
        available_bytes: storage.storage_quota_bytes - storage.storage_used_bytes,
    }
}

} // verus!
