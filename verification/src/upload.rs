//! Upload coordinator: the three-phase chunked-upload protocol.
//!
//! An upload runs `init -> chunk* -> {finalize | cancel}`.  All per-upload
//! state is the [`UploadMetadata`] record, kept in the ephemeral store between
//! requests; a per-user lock key enforces at most one upload in flight.
//! Chunks may arrive in any order; each is sealed under the session DEK with
//! its own nonce and staged on disk under `{upload_id}_{index}.enc`.  A slot's
//! nonce stays zero until its chunk is accepted, and the received counter is
//! exactly the number of non-zero slots — so duplicate submissions cannot
//! complete an upload early.

use vstd::prelude::*;
use vstd::string::StringExecFns;
use vstd::string::StrSliceExecFns;
use vstd::utf8::encode_utf8;
use crate::aes;
use crate::aes::{aead_open, aead_seal, AEAD_MAX_PLAINTEXT, KEY_SIZE, NONCE_SIZE, TAG_SIZE};
use crate::byteseq::{all_zero, is_all_zero, zero_bytes};
use crate::errors::{AppError, VaultResult};
use crate::quota::{storage_wf, UserStorage};

verus! {

/// The largest accepted file size in bytes (50 GiB).
pub const MAX_FILE_SIZE: i64 = 50 * 1024 * 1024 * 1024;

/// The chunk size hint handed to clients, in bytes (6 MiB).
pub const CHUNK_SIZE: usize = 6 * 1024 * 1024;

/// Per-field multipart read timeout, in seconds.
pub const UPLOAD_TIMEOUT_SECS: u64 = 300;

/// Lifetime of an upload session and its lock, in seconds (24 h).
pub const UPLOAD_EXPIRATION_SECS: i64 = 86400;

/// Lifetime of a download lock, in seconds (1 h).
pub const DOWNLOAD_EXPIRATION_SECS: u64 = 3600;

/// How many staged chunks a cleanup pass deletes per batch.
pub const CLEANUP_BATCH_SIZE: usize = 50;

/// Concurrent in-flight upload chunk buffers.
pub const UPLOAD_BUFFER_SLOTS: usize = 200;

/// Concurrent in-flight download chunk buffers.
pub const DOWNLOAD_BUFFER_SLOTS: usize = 200;

/// The request payload that opens an upload session.
pub struct InitUploadRequest {
    /// The file name the client wants stored.
    pub filename: String,
    /// The declared total plaintext size in bytes.
    pub file_size: i64,
    /// How many chunks will be sent.
    pub total_chunks: usize,
    /// A client-computed checksum, if any.
    pub expected_hash: Option<String>,
}

/// The request payload that finalizes an upload session.
pub struct FinalizeUploadRequest {
    /// The session to finalize.
    pub upload_session_id: String,
    /// The folder to file the upload under, if any.
    pub folder_id: Option<u128>,
}

/// The request payload that cancels an upload session.
pub struct CancelUploadRequest {
    /// The session to cancel.
    pub upload_session_id: String,
}

/// The character for a single decimal digit.
pub open spec fn spec_digit_char(d: int) -> char {
    if d == 0 {
        '0'
    } else if d == 1 {
        '1'
    } else if d == 2 {
        '2'
    } else if d == 3 {
        '3'
    } else if d == 4 {
        '4'
    } else if d == 5 {
        '5'
    } else if d == 6 {
        '6'
    } else if d == 7 {
        '7'
    } else if d == 8 {
        '8'
    } else {
        '9'
    }
}

/// The decimal representation of a non-negative integer.
pub open spec fn spec_decimal(n: int) -> Seq<char>
    decreases n,
{
    if n < 10 {
        seq![spec_digit_char(n)]
    } else {
        spec_decimal(n / 10).push(spec_digit_char(n % 10))
    }
}

/// The name of the staged file for chunk `index` of an upload session:
/// `{upload_session_id}_{index}.enc`.
pub open spec fn spec_chunk_filename(sid: Seq<char>, index: int) -> Seq<char> {
    sid + seq!['_'] + spec_decimal(index) + seq!['.', 'e', 'n', 'c']
}

/// A single decimal digit as a string slice.
fn digit_str(d: usize) -> (r: &'static str)
    requires
        d < 10,
    ensures
        r@ == seq![spec_digit_char(d as int)],
{
    let r: &'static str = if d == 0 {
        "0"
    } else if d == 1 {
        "1"
    } else if d == 2 {
        "2"
    } else if d == 3 {
        "3"
    } else if d == 4 {
        "4"
    } else if d == 5 {
        "5"
    } else if d == 6 {
        "6"
    } else if d == 7 {
        "7"
    } else if d == 8 {
        "8"
    } else {
        "9"
    };
    proof {
        reveal_strlit("0");
        reveal_strlit("1");
        reveal_strlit("2");
        reveal_strlit("3");
        reveal_strlit("4");
        reveal_strlit("5");
        reveal_strlit("6");
        reveal_strlit("7");
        reveal_strlit("8");
        reveal_strlit("9");
        assert(r@ =~= seq![spec_digit_char(d as int)]);
    }
    r
}

/// Appends the decimal representation of `n` to a string.
fn append_decimal(s: &mut String, n: usize)
    ensures
        final(s)@ == old(s)@ + spec_decimal(n as int),
    decreases n,
{
    if n < 10 {
        s.append(digit_str(n));
    } else {
        append_decimal(s, n / 10);
        s.append(digit_str(n % 10));
        proof {
            assert(final(s)@ =~= old(s)@ + spec_decimal(n as int));
        }
    }
}

/// Builds the staged-file name for one chunk of an upload session.
pub fn chunk_filename(upload_session_id: &str, index: usize) -> (r: String)
    ensures
        r@ == spec_chunk_filename(upload_session_id@, index as int),
{
    let mut s = String::from_str(upload_session_id);
    s.append("_");
    append_decimal(&mut s, index);
    s.append(".enc");
    proof {
        reveal_strlit("_");
        reveal_strlit(".enc");
        assert(s@ =~= spec_chunk_filename(upload_session_id@, index as int));
    }
    s
}

/// One entry of a file's chunk table: where chunk `index` is staged, the
/// nonce it was sealed with, and its encrypted size.
pub struct ChunkInfo {
    /// The chunk's position in the file.
    pub index: usize,
    /// The nonce the chunk was sealed with.
    pub nonce: Vec<u8>,
    /// The staged file's name, as UTF-8 bytes.
    pub filename: Vec<u8>,
    /// The staged (encrypted) size in bytes.
    pub size_encrypted: i64,
}

impl ChunkInfo {
    /// A chunk-table entry carries a full nonce and a non-negative size.
    pub open spec fn wf(&self) -> bool {
        &&& self.nonce@.len() == NONCE_SIZE
        &&& self.size_encrypted >= 0
    }

    /// Creates a chunk-table entry.
    pub fn new(index: usize, nonce: Vec<u8>, filename: String, size_encrypted: i64) -> (r: Self)
        requires
            nonce@.len() == NONCE_SIZE,
            size_encrypted >= 0,
        ensures
            r.wf(),
            r.index == index,
            r.nonce@ == nonce@,
            r.filename@ == encode_utf8(filename@),
            r.size_encrypted == size_encrypted,
    {
        let filename_bytes = filename.as_str().as_bytes_vec();
        ChunkInfo { index, nonce, filename: filename_bytes, size_encrypted }
    }

    /// The staged file's name as text.  Fails only when the stored bytes are
    /// not valid UTF-8, as happens with a corrupted record.
    pub fn get_filename(&self) -> (r: VaultResult<String>)
        ensures
            r matches Ok(s) ==> encode_utf8(s@) == self.filename@,
            r is Ok <==> vstd::utf8::valid_utf8(self.filename@),
            r matches Err(e) ==> e is Internal,
    {
        match crate::textenc::bytes_to_string(&self.filename) {
            Some(s) => {
                proof {
                    broadcast use vstd::utf8::decode_utf8_encode_utf8;

                }
                Ok(s)
            },
            None => Err(AppError::Internal(String::from_str("Invalid filename encoding"))),
        }
    }
}

/// How many slots of the nonce table are filled (non-zero).
pub open spec fn spec_received_count(nonces: Seq<Vec<u8>>) -> int
    decreases nonces.len(),
{
    if nonces.len() == 0 {
        0
    } else {
        spec_received_count(nonces.drop_last()) + if all_zero(nonces.last()@) {
            0int
        } else {
            1int
        }
    }
}

/// The filled-slot count never exceeds the table length, and is never
/// negative.
proof fn lemma_received_count_bounds(nonces: Seq<Vec<u8>>)
    ensures
        0 <= spec_received_count(nonces) <= nonces.len(),
    decreases nonces.len(),
{
    if nonces.len() > 0 {
        lemma_received_count_bounds(nonces.drop_last());
    }
}

/// Replacing one slot changes the filled-slot count by the difference
/// between the new and old slot's state.
proof fn lemma_received_count_update(nonces: Seq<Vec<u8>>, i: int, v: Vec<u8>)
    requires
        0 <= i < nonces.len(),
    ensures
        spec_received_count(nonces.update(i, v)) == spec_received_count(nonces) - (if all_zero(
            nonces[i]@,
        ) {
            0int
        } else {
            1int
        }) + (if all_zero(v@) {
            0int
        } else {
            1int
        }),
    decreases nonces.len(),
{
    let updated = nonces.update(i, v);
    if i == nonces.len() - 1 {
        assert(updated.drop_last() =~= nonces.drop_last());
        assert(updated.last() == v);
    } else {
        assert(updated.drop_last() =~= nonces.drop_last().update(i, v));
        assert(updated.last() == nonces.last());
        lemma_received_count_update(nonces.drop_last(), i, v);
    }
}

/// Extending a prefix by one slot adds that slot's state to its filled-slot
/// count.
proof fn lemma_received_count_prefix_step(nonces: Seq<Vec<u8>>, i: int)
    requires
        0 <= i < nonces.len(),
    ensures
        spec_received_count(nonces.subrange(0, i + 1)) == spec_received_count(
            nonces.subrange(0, i),
        ) + (if all_zero(nonces[i]@) {
            0int
        } else {
            1int
        }),
{
    assert(nonces.subrange(0, i + 1).drop_last() =~= nonces.subrange(0, i));
    assert(nonces.subrange(0, i + 1).last() == nonces[i]);
}

/// An all-zero nonce table has no filled slot.
proof fn lemma_received_count_zero(nonces: Seq<Vec<u8>>)
    requires
        forall|i: int| 0 <= i < nonces.len() ==> all_zero(#[trigger] nonces[i]@),
    ensures
        spec_received_count(nonces) == 0,
    decreases nonces.len(),
{
    if nonces.len() > 0 {
        lemma_received_count_zero(nonces.drop_last());
    }
}

/// Whether stored metadata fields are a consistent protocol state: the nonce
/// table has one full-size slot per chunk, the received counter counts
/// exactly the filled slots, and the sizes are in range.
pub open spec fn spec_metadata_parts_consistent(
    total_size: i64,
    total_chunks: usize,
    chunks_received_count: usize,
    chunks_written_bytes: i64,
    chunk_nonces: Seq<Vec<u8>>,
) -> bool {
    &&& chunk_nonces.len() == total_chunks
    &&& forall|i: int| 0 <= i < chunk_nonces.len() ==> #[trigger] chunk_nonces[i]@.len()
        == NONCE_SIZE
    &&& chunks_received_count == spec_received_count(chunk_nonces)
    &&& 0 < total_chunks
    &&& 0 < total_size <= MAX_FILE_SIZE
    &&& 0 <= chunks_written_bytes
}

/// The per-upload state carried between requests of the protocol.
pub struct UploadMetadata {
    /// The upload session id, as issued at init.
    pub upload_session_id: String,
    /// The owner's user id.
    pub user_id: u128,
    /// The file name the client supplied.
    pub filename: String,
    /// The declared total plaintext size in bytes.
    pub total_size: i64,
    /// How many chunks the file was split into.
    pub total_chunks: usize,
    /// How many distinct chunks have been accepted.
    pub chunks_received_count: usize,
    /// The client-declared checksum, if any.
    pub expected_hash: Option<String>,
    /// When the session was created (Unix seconds).
    pub created_at: i64,
    /// Total encrypted bytes staged so far.
    pub chunks_written_bytes: i64,
    /// Per-slot seal nonces; a slot is zero until its chunk is accepted.
    pub chunk_nonces: Vec<Vec<u8>>,
}

impl UploadMetadata {
    /// The protocol invariant: the nonce table has one full-size slot per
    /// chunk, the received counter counts exactly the filled slots (hence
    /// `0 <= chunks_received_count <= total_chunks`), the declared size is
    /// within bounds, and accounting is non-negative.
    pub open spec fn wf(&self) -> bool {
        &&& self.chunk_nonces@.len() == self.total_chunks
        &&& forall|i: int|
            0 <= i < self.chunk_nonces@.len() ==> #[trigger] self.chunk_nonces@[i]@.len()
                == NONCE_SIZE
        &&& self.chunks_received_count == spec_received_count(self.chunk_nonces@)
        &&& 0 <= self.chunks_received_count <= self.total_chunks
        &&& 0 < self.total_chunks
        &&& 0 < self.total_size <= MAX_FILE_SIZE
        &&& 0 <= self.chunks_written_bytes
    }

    /// Rebuilds a metadata record from fields read back from the ephemeral
    /// store, re-checking the protocol invariant: anything inconsistent — a
    /// nonce table of the wrong shape, a counter that does not match the
    /// filled slots, out-of-range sizes — is rejected as a corrupted record.
    pub fn from_parts(
        upload_session_id: String,
        user_id: u128,
        filename: String,
        total_size: i64,
        total_chunks: usize,
        chunks_received_count: usize,
        expected_hash: Option<String>,
        created_at: i64,
        chunks_written_bytes: i64,
        chunk_nonces: Vec<Vec<u8>>,
    ) -> (r: VaultResult<UploadMetadata>)
        ensures
            r is Ok <==> spec_metadata_parts_consistent(
                total_size,
                total_chunks,
                chunks_received_count,
                chunks_written_bytes,
                chunk_nonces@,
            ),
            match r {
                Ok(m) => {
                    &&& m.wf()
                    &&& m.upload_session_id == upload_session_id
                    &&& m.user_id == user_id
                    &&& m.filename == filename
                    &&& m.total_size == total_size
                    &&& m.total_chunks == total_chunks
                    &&& m.chunks_received_count == chunks_received_count
                    &&& m.expected_hash == expected_hash
                    &&& m.created_at == created_at
                    &&& m.chunks_written_bytes == chunks_written_bytes
                    &&& m.chunk_nonces == chunk_nonces
                },
                Err(e) => e is Internal,
            },
    {
        if total_chunks == 0 || chunk_nonces.len() != total_chunks {
            return Err(AppError::Internal(String::from_str("Corrupted upload metadata")));
        }
        if total_size <= 0 || total_size > MAX_FILE_SIZE || chunks_written_bytes < 0 {
            return Err(AppError::Internal(String::from_str("Corrupted upload metadata")));
        }
        let n = chunk_nonces.len();
        let mut filled: usize = 0;
        let mut i: usize = 0;
        proof {
            assert(chunk_nonces@.subrange(0, 0) =~= Seq::<Vec<u8>>::empty());
        }
        while i < n
            invariant
                n == chunk_nonces@.len(),
                i <= n,
                filled <= i,
                filled == spec_received_count(chunk_nonces@.subrange(0, i as int)),
                forall|j: int| 0 <= j < i ==> #[trigger] chunk_nonces@[j]@.len() == NONCE_SIZE,
            decreases n - i,
        {
            if chunk_nonces[i].len() != NONCE_SIZE {
                return Err(AppError::Internal(String::from_str("Corrupted upload metadata")));
            }
            proof {
                lemma_received_count_prefix_step(chunk_nonces@, i as int);
            }
            if !is_all_zero(&chunk_nonces[i]) {
                filled = filled + 1;
            }
            i = i + 1;
        }
        proof {
            assert(chunk_nonces@.subrange(0, n as int) =~= chunk_nonces@);
        }
        if filled != chunks_received_count {
            return Err(AppError::Internal(String::from_str("Corrupted upload metadata")));
        }
        Ok(
            UploadMetadata {
                upload_session_id,
                user_id,
                filename,
                total_size,
                total_chunks,
                chunks_received_count,
                expected_hash,
                created_at,
                chunks_written_bytes,
                chunk_nonces,
            },
        )
    }

    /// Whether every chunk has been accepted.
    pub fn is_complete(&self) -> (r: bool)
        ensures
            r == (self.chunks_received_count == self.total_chunks),
    {
        self.chunks_received_count == self.total_chunks
    }

    /// Records an accepted chunk: stores its nonce and encrypted size, and
    /// bumps the received counter only when the slot was still empty, so a
    /// duplicate submission cannot inflate the count.  An all-zero nonce
    /// could not mark the slot as filled, so the caller never hands one in.
    pub fn record_chunk(&mut self, index: usize, nonce: Vec<u8>, encrypted_len: usize)
        requires
            old(self).wf(),
            index < old(self).total_chunks,
            nonce@.len() == NONCE_SIZE,
            !all_zero(nonce@),
        ensures
            final(self).wf(),
            final(self).chunk_nonces@ == old(self).chunk_nonces@.update(index as int, nonce),
            final(self).chunks_received_count == old(self).chunks_received_count + (if all_zero(
                old(self).chunk_nonces@[index as int]@,
            ) {
                1int
            } else {
                0int
            }),
            final(self).chunks_written_bytes == if old(self).chunks_written_bytes + encrypted_len
                <= i64::MAX {
                old(self).chunks_written_bytes + encrypted_len
            } else {
                i64::MAX as int
            },
            final(self).upload_session_id == old(self).upload_session_id,
            final(self).user_id == old(self).user_id,
            final(self).filename == old(self).filename,
            final(self).total_size == old(self).total_size,
            final(self).total_chunks == old(self).total_chunks,
            final(self).expected_hash == old(self).expected_hash,
            final(self).created_at == old(self).created_at,
    {
        proof {
            lemma_received_count_update(self.chunk_nonces@, index as int, nonce);
            lemma_received_count_bounds(self.chunk_nonces@);
            lemma_received_count_bounds(self.chunk_nonces@.update(index as int, nonce));
        }
        let slot_was_empty = is_all_zero(&self.chunk_nonces[index]);
        self.chunk_nonces[index] = nonce;
        if slot_was_empty {
            self.chunks_received_count = self.chunks_received_count + 1;
        }
        let grown: i128 = self.chunks_written_bytes as i128 + encrypted_len as i128;
        if grown <= i64::MAX as i128 {
            self.chunks_written_bytes = grown as i64;
        } else {
            self.chunks_written_bytes = i64::MAX;
        }
    }
}

/// Initializes an upload session.
///
/// Admission requires that no upload is already in flight for the user, that
/// the declared size is positive and at most 50 GiB, that the chunk count is
/// positive, and that the size fits the user's free quota.  The quota is only
/// read here — nothing is debited before finalize.  On success the returned
/// metadata has an empty nonce table and a zero received count.
pub fn init_upload(
    user_id: u128,
    filename: String,
    file_size: i64,
    total_chunks: usize,
    expected_hash: Option<String>,
    upload_in_progress: bool,
    storage: &UserStorage,
    upload_session_id: String,
    now: i64,
) -> (r: VaultResult<UploadMetadata>)
    requires
        storage_wf(*storage),
    ensures
        r is Ok <==> (!upload_in_progress && 0 < file_size <= MAX_FILE_SIZE && total_chunks > 0
            && file_size <= storage.storage_quota_bytes - storage.storage_used_bytes),
        match r {
            Ok(m) => {
                &&& m.wf()
                &&& m.upload_session_id == upload_session_id
                &&& m.user_id == user_id
                &&& m.filename == filename
                &&& m.total_size == file_size
                &&& m.total_chunks == total_chunks
                &&& m.chunks_received_count == 0
                &&& m.expected_hash == expected_hash
                &&& m.created_at == now
                &&& m.chunks_written_bytes == 0
                &&& forall|i: int|
                    0 <= i < m.chunk_nonces@.len() ==> all_zero(#[trigger] m.chunk_nonces@[i]@)
            },
            Err(e) => e is Validation,
        },
        upload_in_progress ==> (r matches Err(e) && (e matches AppError::Validation(msg) && msg@
            == "upload already in progress"@)),
{
    if upload_in_progress {
        return Err(AppError::Validation(String::from_str("upload already in progress")));
    }
    if file_size <= 0 {
        return Err(AppError::Validation(String::from_str("File size must be positive")));
    }
    if file_size > MAX_FILE_SIZE {
        return Err(
            AppError::Validation(String::from_str("File size exceeds maximum allowed (50GB)")),
        );
    }
    if total_chunks == 0 {
        return Err(
            AppError::Validation(String::from_str("total_chunks must be greater than 0")),
        );
    }
    if file_size > storage.storage_quota_bytes - storage.storage_used_bytes {
        return Err(AppError::Validation(String::from_str("Insufficient storage quota")));
    }
    let mut chunk_nonces: Vec<Vec<u8>> = Vec::new();
    let mut i: usize = 0;
    while i < total_chunks
        invariant
            i <= total_chunks,
            chunk_nonces@.len() == i,
            forall|j: int|
                0 <= j < i ==> #[trigger] chunk_nonces@[j]@.len() == NONCE_SIZE && all_zero(
                    chunk_nonces@[j]@,
                ),
        decreases total_chunks - i,
    {
        chunk_nonces.push(zero_bytes(NONCE_SIZE));
        i = i + 1;
    }
    proof {
        lemma_received_count_zero(chunk_nonces@);
    }
    Ok(
        UploadMetadata {
            upload_session_id,
            user_id,
            filename,
            total_size: file_size,
            total_chunks,
            chunks_received_count: 0,
            expected_hash,
            created_at: now,
            chunks_written_bytes: 0,
            chunk_nonces,
        },
    )
}

/// Collects the three multipart fields of a chunk request, failing on any
/// missing one.
pub fn assemble_chunk_fields(
    upload_session_id: Option<String>,
    chunk_index: Option<usize>,
    chunk_data: Option<Vec<u8>>,
) -> (r: VaultResult<(String, usize, Vec<u8>)>)
    ensures
        r is Ok <==> (upload_session_id is Some && chunk_index is Some && chunk_data is Some),
        r matches Ok((sid, idx, data)) ==> upload_session_id == Some(sid) && chunk_index == Some(
            idx,
        ) && chunk_data == Some(data),
        r matches Err(e) ==> e is Validation,
{
    let sid = match upload_session_id {
        Some(s) => s,
        None => {
            return Err(AppError::Validation(String::from_str("Missing upload_session_id")));
        },
    };
    let idx = match chunk_index {
        Some(i) => i,
        None => {
            return Err(AppError::Validation(String::from_str("Missing chunk_index")));
        },
    };
    let data = match chunk_data {
        Some(d) => d,
        None => {
            return Err(AppError::Validation(String::from_str("Missing chunk data")));
        },
    };
    Ok((sid, idx, data))
}

/// Accepts one chunk: validates its index, seals the plaintext under the
/// session DEK with a fresh nonce, and records the nonce and encrypted size
/// in the metadata.  The caller stages the returned ciphertext on disk under
/// [`chunk_filename`].
///
/// The returned ciphertext opens back to the chunk plaintext under the
/// recorded nonce — which is what makes every staged chunk of a finalized
/// file decryptable.  On a valid request the call fails only in the
/// vanishingly unlikely event that the drawn nonce is all zero, which could
/// not mark the slot as filled; the client simply retries.
pub fn upload_chunk(
    metadata: &mut UploadMetadata,
    chunk_index: usize,
    session_dek: &Vec<u8>,
    data: &Vec<u8>,
) -> (r: VaultResult<(Vec<u8>, Vec<u8>)>)
    requires
        old(metadata).wf(),
    ensures
        final(metadata).wf(),
        r is Ok ==> (chunk_index < old(metadata).total_chunks && session_dek@.len() == KEY_SIZE
            && data@.len() <= AEAD_MAX_PLAINTEXT),
        match r {
            Ok((ct, nonce)) => {
                &&& nonce@.len() == NONCE_SIZE
                &&& !all_zero(nonce@)
                &&& ct@ == aead_seal(session_dek@, nonce@, data@)
                &&& ct@.len() == data@.len() + TAG_SIZE
                &&& aead_open(session_dek@, nonce@, ct@) == Some(data@)
                &&& final(metadata).chunk_nonces@.len() == old(metadata).chunk_nonces@.len()
                &&& final(metadata).chunk_nonces@[chunk_index as int]@ == nonce@
                &&& forall|j: int|
                    0 <= j < old(metadata).chunk_nonces@.len() && j != chunk_index
                        ==> #[trigger] final(metadata).chunk_nonces@[j] == old(
                        metadata,
                    ).chunk_nonces@[j]
                &&& final(metadata).chunks_received_count == old(metadata).chunks_received_count
                    + (if all_zero(old(metadata).chunk_nonces@[chunk_index as int]@) {
                    1int
                } else {
                    0int
                })
                &&& final(metadata).chunks_written_bytes == if old(metadata).chunks_written_bytes
                    + ct@.len() <= i64::MAX {
                    old(metadata).chunks_written_bytes + ct@.len()
                } else {
                    i64::MAX as int
                }
                &&& final(metadata).upload_session_id == old(metadata).upload_session_id
                &&& final(metadata).user_id == old(metadata).user_id
                &&& final(metadata).filename == old(metadata).filename
                &&& final(metadata).total_size == old(metadata).total_size
                &&& final(metadata).total_chunks == old(metadata).total_chunks
                &&& final(metadata).expected_hash == old(metadata).expected_hash
                &&& final(metadata).created_at == old(metadata).created_at
            },
            Err(e) => {
                &&& *final(metadata) == *old(metadata)
                &&& (chunk_index >= old(metadata).total_chunks ==> e is Validation)
                &&& (chunk_index < old(metadata).total_chunks ==> e is Encryption)
            },
        },
        (chunk_index >= old(metadata).total_chunks || session_dek@.len() != KEY_SIZE || data@.len()
            > AEAD_MAX_PLAINTEXT) ==> r is Err,
{
    if chunk_index >= metadata.total_chunks {
        return Err(AppError::Validation(String::from_str("Invalid chunk index")));
    }
    if session_dek.len() != KEY_SIZE {
        return Err(AppError::Encryption(String::from_str("Invalid DEK in session")));
    }
    let (ct, nonce) = aes::encrypt(session_dek, data)?;
    if is_all_zero(&nonce) {
        return Err(AppError::Encryption(String::from_str("Unusable chunk nonce")));
    }
    let nonce_copy = crate::byteseq::copy_range(&nonce, 0, nonce.len());
    proof {
        assert(nonce_copy@ =~= nonce@);
    }
    metadata.record_chunk(chunk_index, nonce_copy, ct.len());
    Ok((ct, nonce))
}

/// Builds a complete upload's chunk table: one entry per chunk index, in
/// ascending order, each carrying the slot's nonce, the staged file's name
/// and the chunk-size hint.
pub fn build_chunk_table(metadata: &UploadMetadata) -> (r: Vec<ChunkInfo>)
    requires
        metadata.wf(),
    ensures
        r@.len() == metadata.total_chunks,
        forall|i: int|
            0 <= i < r@.len() ==> {
                &&& (#[trigger] r@[i]).wf()
                &&& r@[i].index == i
                &&& r@[i].nonce@ == metadata.chunk_nonces@[i]@
                &&& r@[i].filename@ == encode_utf8(
                    spec_chunk_filename(metadata.upload_session_id@, i),
                )
                &&& r@[i].size_encrypted == CHUNK_SIZE as i64
            },
{
    let n = metadata.total_chunks;
    let mut out: Vec<ChunkInfo> = Vec::new();
    let mut i: usize = 0;
    while i < n
        invariant
            metadata.wf(),
            n == metadata.total_chunks,
            i <= n,
            out@.len() == i,
            forall|j: int|
                0 <= j < i ==> {
                    &&& (#[trigger] out@[j]).wf()
                    &&& out@[j].index == j
                    &&& out@[j].nonce@ == metadata.chunk_nonces@[j]@
                    &&& out@[j].filename@ == encode_utf8(
                        spec_chunk_filename(metadata.upload_session_id@, j),
                    )
                    &&& out@[j].size_encrypted == CHUNK_SIZE as i64
                },
        decreases n - i,
    {
        let fname = chunk_filename(metadata.upload_session_id.as_str(), i);
        let nonce = crate::byteseq::copy_range(
            &metadata.chunk_nonces[i],
            0,
            metadata.chunk_nonces[i].len(),
        );
        proof {
            assert(nonce@ =~= metadata.chunk_nonces@[i as int]@);
        }
        out.push(ChunkInfo::new(i, nonce, fname, CHUNK_SIZE as i64));
        i = i + 1;
    }
    out
}

/// Finalizes a complete upload: this is the sole quota-admission gate.
///
/// In one transaction the caller's ledger row is debited and the file record
/// is written; on any refusal the ledger is untouched.  The record carries
/// the encoded chunk table and the session DEK sealed under the active KEK —
/// so the stored envelope always opens back to the 32-byte session DEK under
/// the KEK version written on the record.
pub fn finalize_upload(
    metadata: &UploadMetadata,
    file_id: u128,
    folder_id: Option<u128>,
    session_dek: &Vec<u8>,
    now: i64,
    storage: &mut UserStorage,
    kek_rows: &mut Vec<crate::kek::KekRow>,
    master_key: &Vec<u8>,
    kek_cache: &mut crate::kek::KekCache,
) -> (r: VaultResult<crate::files::File>)
    requires
        metadata.wf(),
        storage_wf(*old(storage)),
        master_key@.len() == KEY_SIZE,
        crate::kek::kek_rows_wf(old(kek_rows)@, master_key@),
        crate::kek::spec_single_active(old(kek_rows)@),
        old(kek_cache).wf(),
        crate::kek::spec_cache_consistent(*old(kek_cache), old(kek_rows)@, master_key@),
    ensures
        storage_wf(*final(storage)),
        final(storage).storage_quota_bytes == old(storage).storage_quota_bytes,
        crate::kek::kek_rows_wf(final(kek_rows)@, master_key@),
        crate::kek::spec_single_active(final(kek_rows)@),
        final(kek_cache).wf(),
        crate::kek::spec_cache_consistent(*final(kek_cache), final(kek_rows)@, master_key@),
        r is Ok <==> (metadata.chunks_received_count == metadata.total_chunks
            && metadata.total_size <= old(storage).storage_quota_bytes - old(
            storage,
        ).storage_used_bytes && session_dek@.len() == KEY_SIZE && !(!crate::kek::spec_has_active(
            old(kek_rows)@,
        ) && crate::kek::spec_has_version(old(kek_rows)@, 1))),
        match r {
            Ok(rec) => {
                &&& final(storage).storage_used_bytes == old(storage).storage_used_bytes
                    + metadata.total_size
                &&& rec.wf()
                &&& rec.id == file_id
                &&& rec.user_id == metadata.user_id
                &&& rec.folder_id == folder_id
                &&& rec.original_filename == metadata.filename
                &&& rec.total_chunks == metadata.total_chunks
                &&& exists|t: Seq<ChunkInfo>|
                    {
                        &&& rec.chunks_metadata@ == crate::codec::spec_encode_chunk_table(t)
                        &&& t.len() == metadata.total_chunks
                        &&& forall|i: int|
                            0 <= i < t.len() ==> (#[trigger] t[i]).index == i && t[i].nonce@
                                == metadata.chunk_nonces@[i]@ && t[i].filename@ == encode_utf8(
                                spec_chunk_filename(metadata.upload_session_id@, i),
                            ) && t[i].size_encrypted == CHUNK_SIZE as i64
                    }
                &&& exists|i: int|
                    0 <= i < final(kek_rows)@.len() && #[trigger] final(kek_rows)@[i].version
                        == rec.dek_version && crate::kek::spec_row_active(final(kek_rows)@[i])
                        && (crate::kek::spec_kek_plain(master_key@, final(kek_rows)@[i]) matches
                    Some(kek) && aead_open(kek, rec.nonce@, rec.encrypted_dek@) == Some(
                        session_dek@,
                    ))
                &&& forall|j: int|
                    0 <= j < final(kek_rows)@.len() && #[trigger] crate::kek::spec_row_active(
                        final(kek_rows)@[j],
                    ) ==> final(kek_rows)@[j].version <= rec.dek_version
                &&& session_dek@.len() == KEY_SIZE
                &&& rec.file_size == metadata.total_size
                &&& rec.mime_type@ == "application/octet-stream"@
                &&& rec.checksum_sha256 == metadata.expected_hash
                &&& rec.upload_status@ == "completed"@
                &&& rec.uploaded_at == now
                &&& !rec.is_deleted
                &&& rec.access_count == 0
            },
            Err(e) => {
                &&& *final(storage) == *old(storage)
                &&& (metadata.chunks_received_count != metadata.total_chunks ==> (e matches
                    AppError::Validation(m) && m@ == "incomplete upload"@))
                &&& (metadata.chunks_received_count == metadata.total_chunks
                    && metadata.total_size > old(storage).storage_quota_bytes - old(
                    storage,
                ).storage_used_bytes ==> e is Validation)
                &&& (metadata.chunks_received_count == metadata.total_chunks
                    && metadata.total_size <= old(storage).storage_quota_bytes - old(
                    storage,
                ).storage_used_bytes && session_dek@.len() != KEY_SIZE ==> e is Encryption)
            },
        },
{
    if !metadata.is_complete() {
        return Err(AppError::Validation(String::from_str("incomplete upload")));
    }
    if !storage.admits(metadata.total_size) {
        return Err(
            AppError::Validation(String::from_str("Insufficient storage quota at finalization")),
        );
    }
    if session_dek.len() != KEY_SIZE {
        return Err(
            AppError::Encryption(String::from_str("User DEK not available in session")),
        );
    }
    let (kek_version, mut kek_bytes) = crate::kek::get_active_kek(kek_rows, master_key, kek_cache)?;
    let table = build_chunk_table(metadata);
    let chunks_metadata = crate::codec::encode_chunk_table(&table);
    let sealed_dek = aes::encrypt(&kek_bytes, session_dek);
    crate::byteseq::wipe(&mut kek_bytes);
    let (encrypted_dek, dek_nonce) = sealed_dek?;
    let checksum_sha256 = match &metadata.expected_hash {
        Some(h) => Some(h.clone()),
        None => None,
    };
    storage.commit_usage(metadata.total_size);
    let rec = crate::files::File {
        id: file_id,
        user_id: metadata.user_id,
        folder_id,
        original_filename: metadata.filename.clone(),
        total_chunks: metadata.total_chunks,
        chunks_metadata,
        encrypted_dek,
        nonce: dek_nonce,
        dek_version: kek_version,
        file_size: metadata.total_size,
        mime_type: String::from_str("application/octet-stream"),
        checksum_sha256,
        upload_status: String::from_str("completed"),
        uploaded_at: now,
        is_deleted: false,
        access_count: 0,
    };
    proof {
        assert(rec.chunks_metadata@ == crate::codec::spec_encode_chunk_table(table@));
    }
    Ok(rec)
}

/// The dynamic per-upload write-buffer size in MiB:
/// `max(2, 2048 / (concurrent_uploads + 1))`.
pub fn upload_buffer_mb(concurrent_uploads: usize) -> (r: usize)
    requires
        concurrent_uploads < usize::MAX,
    ensures
        r == if 2048int / (concurrent_uploads + 1) >= 2 {
            2048int / (concurrent_uploads + 1)
        } else {
            2int
        },
{
    let quotient = 2048 / (concurrent_uploads + 1);
    if quotient >= 2 {
        quotient
    } else {
        2
    }
}

/// How many chunks a download pipeline reads ahead:
/// `max(1, slots / (concurrent_downloads + 1))`.
pub fn download_buffer_chunks(slots: usize, concurrent_downloads: usize) -> (r: usize)
    requires
        concurrent_downloads < usize::MAX,
    ensures
        r == if slots as int / (concurrent_downloads + 1) >= 1 {
            slots as int / (concurrent_downloads + 1)
        } else {
            1int
        },
{
    let quotient = slots / (concurrent_downloads + 1);
    if quotient >= 1 {
        quotient
    } else {
        1
    }
}

/// Whether an upload session has outlived its 24-hour lifetime.
pub fn upload_expired(created_at: i64, now: i64) -> (r: bool)
    ensures
        r == (now - created_at > UPLOAD_EXPIRATION_SECS),
{
    (now as i128) - (created_at as i128) > UPLOAD_EXPIRATION_SECS as i128
}

/// The staged files a failed or cancelled upload leaves behind: one for each
/// index below the received count.  Missing files are ignored by the caller.
pub fn cleanup_filenames(metadata: &UploadMetadata) -> (r: Vec<String>)
    ensures
        r@.len() == metadata.chunks_received_count,
        forall|i: int|
            0 <= i < r@.len() ==> #[trigger] r@[i]@ == spec_chunk_filename(
                metadata.upload_session_id@,
                i,
            ),
{
    staged_filenames(&metadata.upload_session_id, metadata.chunks_received_count)
}

/// The staged files of every chunk slot of an expired upload session.
///
/// Sweeping reclaims disk and the per-user lock only; the quota ledger is
/// untouched, since nothing is debited before finalize.
pub fn sweep_filenames(metadata: &UploadMetadata) -> (r: Vec<String>)
    ensures
        r@.len() == metadata.total_chunks,
        forall|i: int|
            0 <= i < r@.len() ==> #[trigger] r@[i]@ == spec_chunk_filename(
                metadata.upload_session_id@,
                i,
            ),
{
    staged_filenames(&metadata.upload_session_id, metadata.total_chunks)
}

/// The staged-file names of chunk indices `0 .. count`.
fn staged_filenames(upload_session_id: &String, count: usize) -> (r: Vec<String>)
    ensures
        r@.len() == count,
        forall|i: int|
            0 <= i < r@.len() ==> #[trigger] r@[i]@ == spec_chunk_filename(
                upload_session_id@,
                i,
            ),
{
    let mut out: Vec<String> = Vec::new();
    let mut i: usize = 0;
    while i < count
        invariant
            i <= count,
            out@.len() == i,
            forall|j: int|
                0 <= j < i ==> #[trigger] out@[j]@ == spec_chunk_filename(
                    upload_session_id@,
                    j,
                ),
        decreases count - i,
    {
        out.push(chunk_filename(upload_session_id.as_str(), i));
        i = i + 1;
    }
    out
}

} // verus!
