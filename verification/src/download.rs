//! Download streamer support: turning a file record back into a decryption
//! plan.
//!
//! The caller loads the record, asks for the plan, then reads each staged
//! chunk in index order and opens it with the plan's DEK and the chunk's
//! stored nonce.  The plan's DEK is exactly what the record's envelope opens
//! to under the KEK version written on the record.

use vstd::prelude::*;
use vstd::string::StringExecFns;
use crate::aes;
use crate::aes::{aead_open, KEY_SIZE};
use crate::codec;
use crate::errors::{AppError, VaultResult};
use crate::files::File;
use crate::kek;
use crate::kek::{KekCache, KekRow};
use crate::upload::ChunkInfo;

verus! {

/// Everything needed to stream a file's plaintext: its chunk table and its
/// unwrapped DEK.
pub struct DownloadPlan {
    /// The chunk table, in ascending index order as stored.
    pub chunks: Vec<ChunkInfo>,
    /// The file's unwrapped 32-byte DEK.
    pub dek: Vec<u8>,
}

/// Prepares the download of a file: decodes its chunk table and unwraps its
/// DEK under the KEK version stored on the record.
///
/// Fails when the stored chunk table is corrupted, when the DEK envelope
/// does not open under that KEK, or when what it opens to is not a 32-byte
/// key.  When the record's KEK version is one the registry holds — as it is
/// for every record finalize wrote — the registry is left untouched and
/// success is owed exactly when the stored table decodes and the envelope
/// opens under that version's key to a 32-byte DEK.
pub fn prepare_download(
    file: &File,
    master_key: &Vec<u8>,
    kek_rows: &mut Vec<KekRow>,
    kek_cache: &mut KekCache,
) -> (r: VaultResult<DownloadPlan>)
    requires
        file.wf(),
        master_key@.len() == KEY_SIZE,
        kek::kek_rows_wf(old(kek_rows)@, master_key@),
        kek::spec_single_active(old(kek_rows)@),
        old(kek_cache).wf(),
        kek::spec_cache_consistent(*old(kek_cache), old(kek_rows)@, master_key@),
    ensures
        kek::kek_rows_wf(final(kek_rows)@, master_key@),
        kek::spec_single_active(final(kek_rows)@),
        final(kek_cache).wf(),
        kek::spec_cache_consistent(*final(kek_cache), final(kek_rows)@, master_key@),
        kek::spec_has_version(old(kek_rows)@, file.dek_version as int) ==> {
            &&& final(kek_rows)@ == old(kek_rows)@
            &&& (r is Ok <==> (codec::spec_chunk_table_decodable(file.chunks_metadata@) && exists|
                i: int,
            |
                0 <= i < old(kek_rows)@.len() && #[trigger] old(kek_rows)@[i].version
                    == file.dek_version && (kek::spec_kek_plain(master_key@, old(kek_rows)@[i])
                    matches Some(kek_key) && (aead_open(kek_key, file.nonce@, file.encrypted_dek@)
                    matches Some(d) && d.len() == KEY_SIZE))))
        },
        match r {
            Ok(plan) => {
                &&& plan.dek@.len() == KEY_SIZE
                &&& file.chunks_metadata@ == codec::spec_encode_chunk_table(plan.chunks@)
                &&& forall|i: int| 0 <= i < plan.chunks@.len() ==> (#[trigger] plan.chunks@[i]).wf()
                &&& exists|i: int|
                    0 <= i < final(kek_rows)@.len() && #[trigger] final(kek_rows)@[i].version
                        == file.dek_version && (kek::spec_kek_plain(
                        master_key@,
                        final(kek_rows)@[i],
                    ) matches Some(kek_key) && aead_open(kek_key, file.nonce@, file.encrypted_dek@)
                        == Some(plan.dek@))
            },
            Err(e) => e is Internal || e is Encryption,
        },
{
    let ghost rows0 = old(kek_rows)@;
    let chunks = codec::decode_chunk_table(&file.chunks_metadata)?;
    let mut kek_bytes = kek::get_kek_by_version(kek_rows, file.dek_version, master_key, kek_cache)?;
    proof {
        if kek::spec_has_version(rows0, file.dek_version as int) {
            let i = choose|i: int|
                0 <= i < rows0.len() && #[trigger] rows0[i].version == file.dek_version as int;
            let j = choose|j: int|
                0 <= j < kek_rows@.len() && #[trigger] kek_rows@[j].version == file.dek_version
                    && kek::spec_kek_plain(master_key@, kek_rows@[j]) == Some(kek_bytes@);
            if i != j {
                if i < j {
                    assert(kek_rows@[i].version != kek_rows@[j].version);
                } else {
                    assert(kek_rows@[j].version != kek_rows@[i].version);
                }
            }
            assert(kek::spec_kek_plain(master_key@, rows0[i]) == Some(kek_bytes@));
        }
    }
    let opened = aes::decrypt(&kek_bytes, &file.encrypted_dek, &file.nonce);
    crate::byteseq::wipe(&mut kek_bytes);
    let dek = opened?;
    if dek.len() != KEY_SIZE {
        return Err(AppError::Encryption(String::from_str("Invalid DEK size")));
    }
    Ok(DownloadPlan { chunks, dek })
}

/// Opens one staged chunk with the plan's DEK and the chunk's stored nonce.
///
/// Succeeds exactly when the staged bytes are what the upload sealed for
/// this slot; any tampering aborts the stream.
pub fn decrypt_chunk(dek: &Vec<u8>, staged: &Vec<u8>, info: &ChunkInfo) -> (r: VaultResult<
    Vec<u8>,
>)
    requires
        dek@.len() == KEY_SIZE,
        info.wf(),
    ensures
        match r {
            Ok(plain) => aead_open(dek@, info.nonce@, staged@) == Some(plain@),
            Err(e) => {
                &&& aead_open(dek@, info.nonce@, staged@) is None
                &&& e is Encryption
            },
        },
{
    aes::decrypt(dek, staged, &info.nonce)
}

} // verus!
