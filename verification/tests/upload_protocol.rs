//! The three-phase upload protocol: admission boundaries, out-of-order
//! chunks, duplicate suppression, incomplete finalize, and the staged-file
//! naming scheme.

use cryptvault::byteseq::is_all_zero;
use cryptvault::errors::AppError;
use cryptvault::quota::UserStorage;
use cryptvault::upload::{
    upload_chunk, assemble_chunk_fields, build_chunk_table, chunk_filename, cleanup_filenames,
    download_buffer_chunks, init_upload, sweep_filenames, upload_buffer_mb, upload_expired,
    UploadMetadata, CHUNK_SIZE, MAX_FILE_SIZE,
};

fn big_storage() -> UserStorage {
    UserStorage { storage_quota_bytes: i64::MAX, storage_used_bytes: 0 }
}

fn dek() -> Vec<u8> {
    (0u8..32).collect()
}

fn init_ok(file_size: i64, total_chunks: usize) -> UploadMetadata {
    init_upload(
        1,
        "a.bin".to_string(),
        file_size,
        total_chunks,
        None,
        false,
        &big_storage(),
        "U".to_string(),
        1_700_000_000,
    )
    .unwrap()
}

#[test]
fn test_init_rejects_zero_file_size() {
    let r = init_upload(
        1,
        "a.bin".to_string(),
        0,
        1,
        None,
        false,
        &big_storage(),
        "U".to_string(),
        0,
    );
    assert!(matches!(r, Err(AppError::Validation(_))));
}

#[test]
fn test_init_accepts_50_gib_and_rejects_more() {
    assert_eq!(MAX_FILE_SIZE, 50 * 1024 * 1024 * 1024);
    let m = init_ok(MAX_FILE_SIZE, 10);
    assert_eq!(m.total_size, MAX_FILE_SIZE);
    let r = init_upload(
        1,
        "a.bin".to_string(),
        MAX_FILE_SIZE + 1,
        10,
        None,
        false,
        &big_storage(),
        "U".to_string(),
        0,
    );
    assert!(matches!(r, Err(AppError::Validation(_))));
}

#[test]
fn test_init_rejects_zero_chunks() {
    let r = init_upload(
        1,
        "a.bin".to_string(),
        100,
        0,
        None,
        false,
        &big_storage(),
        "U".to_string(),
        0,
    );
    assert!(matches!(r, Err(AppError::Validation(_))));
}

#[test]
fn test_init_rejects_concurrent_upload() {
    let r = init_upload(
        1,
        "a.bin".to_string(),
        100,
        1,
        None,
        true,
        &big_storage(),
        "U".to_string(),
        0,
    );
    match r {
        Err(AppError::Validation(msg)) => assert_eq!(msg, "upload already in progress"),
        _ => panic!("expected a validation error"),
    }
}

#[test]
fn test_init_rejects_insufficient_quota() {
    let storage = UserStorage { storage_quota_bytes: 100, storage_used_bytes: 50 };
    let r = init_upload(
        1,
        "a.bin".to_string(),
        51,
        1,
        None,
        false,
        &storage,
        "U".to_string(),
        0,
    );
    assert!(matches!(r, Err(AppError::Validation(_))));
}

#[test]
fn test_init_starts_with_empty_slots() {
    let m = init_ok(6_000_000, 3);
    assert_eq!(m.chunks_received_count, 0);
    assert_eq!(m.chunk_nonces.len(), 3);
    assert!(m.chunk_nonces.iter().all(|n| is_all_zero(n)));
}

#[test]
fn test_chunk_index_equal_to_total_rejected() {
    let mut m = init_ok(100, 3);
    let data: Vec<u8> = vec![1, 2, 3];
    let r = upload_chunk(&mut m, 3, &dek(), &data);
    assert!(matches!(r, Err(AppError::Validation(_))));
    assert_eq!(m.chunks_received_count, 0);
}

#[test]
fn test_chunk_rejects_bad_dek() {
    let mut m = init_ok(100, 3);
    let short_dek: Vec<u8> = vec![0; 16];
    let data: Vec<u8> = vec![1, 2, 3];
    assert!(matches!(upload_chunk(&mut m, 0, &short_dek, &data), Err(AppError::Encryption(_))));
}

#[test]
fn test_single_chunk_upload_reaches_completion() {
    let mut m = init_ok(6_000_000, 1);
    let data: Vec<u8> = vec![0xab; 6_000_000];
    let (ct, nonce) = upload_chunk(&mut m, 0, &dek(), &data).unwrap();
    assert_eq!(ct.len(), data.len() + 16);
    assert_eq!(nonce.len(), 12);
    assert_eq!(m.chunks_received_count, 1);
    assert!(m.is_complete());
    assert_eq!(m.chunks_written_bytes, ct.len() as i64);
}

#[test]
fn test_duplicate_chunk_does_not_inflate_count() {
    let mut m = init_ok(100, 3);
    let data: Vec<u8> = vec![1, 2, 3];
    upload_chunk(&mut m, 1, &dek(), &data).unwrap();
    assert_eq!(m.chunks_received_count, 1);
    upload_chunk(&mut m, 1, &dek(), &data).unwrap();
    assert_eq!(m.chunks_received_count, 1);
    assert!(!m.is_complete());
}

#[test]
fn test_out_of_order_chunks_complete() {
    let mut m = init_ok(100, 3);
    let data: Vec<u8> = vec![9; 10];
    for idx in [2usize, 0, 1] {
        upload_chunk(&mut m, idx, &dek(), &data).unwrap();
    }
    assert_eq!(m.chunks_received_count, 3);
    assert!(m.is_complete());
    assert!(m.chunk_nonces.iter().all(|n| !is_all_zero(n)));
}

#[test]
fn test_assemble_chunk_fields_requires_all_three() {
    assert!(assemble_chunk_fields(None, Some(0), Some(vec![1])).is_err());
    assert!(assemble_chunk_fields(Some("U".into()), None, Some(vec![1])).is_err());
    assert!(assemble_chunk_fields(Some("U".into()), Some(0), None).is_err());
    let (sid, idx, data) = assemble_chunk_fields(Some("U".into()), Some(2), Some(vec![1])).unwrap();
    assert_eq!(sid, "U");
    assert_eq!(idx, 2);
    assert_eq!(data, vec![1]);
}

#[test]
fn test_chunk_filenames() {
    assert_eq!(chunk_filename("U", 0), "U_0.enc");
    assert_eq!(chunk_filename("abc", 7), "abc_7.enc");
    assert_eq!(chunk_filename("abc", 120), "abc_120.enc");
    assert_eq!(chunk_filename("abc", 1005), "abc_1005.enc");
}

#[test]
fn test_cleanup_filenames_cover_received_prefix() {
    let mut m = init_ok(100, 3);
    let data: Vec<u8> = vec![5; 4];
    upload_chunk(&mut m, 0, &dek(), &data).unwrap();
    upload_chunk(&mut m, 1, &dek(), &data).unwrap();
    let names = cleanup_filenames(&m);
    assert_eq!(names, vec!["U_0.enc".to_string(), "U_1.enc".to_string()]);
    let all = sweep_filenames(&m);
    assert_eq!(all.len(), 3);
    assert_eq!(all[2], "U_2.enc");
}

#[test]
fn test_build_chunk_table_preserves_index_order() {
    let mut m = init_ok(100, 3);
    let data: Vec<u8> = vec![5; 4];
    for idx in [2usize, 0, 1] {
        upload_chunk(&mut m, idx, &dek(), &data).unwrap();
    }
    let table = build_chunk_table(&m);
    assert_eq!(table.len(), 3);
    for (i, entry) in table.iter().enumerate() {
        assert_eq!(entry.index, i);
        assert_eq!(entry.nonce, m.chunk_nonces[i]);
        assert_eq!(entry.get_filename().unwrap(), format!("U_{}.enc", i));
        assert_eq!(entry.size_encrypted, CHUNK_SIZE as i64);
    }
}

#[test]
fn test_from_parts_accepts_consistent_state() {
    let mut m = init_ok(100, 3);
    let data: Vec<u8> = vec![5; 4];
    upload_chunk(&mut m, 2, &dek(), &data).unwrap();
    let rebuilt = UploadMetadata::from_parts(
        m.upload_session_id.clone(),
        m.user_id,
        m.filename.clone(),
        m.total_size,
        m.total_chunks,
        m.chunks_received_count,
        m.expected_hash.clone(),
        m.created_at,
        m.chunks_written_bytes,
        m.chunk_nonces.clone(),
    )
    .unwrap();
    assert_eq!(rebuilt.chunks_received_count, 1);
    assert_eq!(rebuilt.chunk_nonces, m.chunk_nonces);
}

#[test]
fn test_from_parts_rejects_inconsistent_counter() {
    let m = init_ok(100, 3);
    let r = UploadMetadata::from_parts(
        m.upload_session_id.clone(),
        m.user_id,
        m.filename.clone(),
        m.total_size,
        m.total_chunks,
        2,
        None,
        m.created_at,
        m.chunks_written_bytes,
        m.chunk_nonces.clone(),
    );
    assert!(matches!(r, Err(AppError::Internal(_))));
    let r2 = UploadMetadata::from_parts(
        m.upload_session_id.clone(),
        m.user_id,
        m.filename.clone(),
        m.total_size,
        4,
        0,
        None,
        m.created_at,
        m.chunks_written_bytes,
        m.chunk_nonces.clone(),
    );
    assert!(matches!(r2, Err(AppError::Internal(_))));
}

#[test]
fn test_upload_expiry_boundary() {
    let created = 1_700_000_000;
    assert!(!upload_expired(created, created + 86400));
    assert!(upload_expired(created, created + 86401));
}

#[test]
fn test_buffer_formulas() {
    assert_eq!(upload_buffer_mb(0), 2048);
    assert_eq!(upload_buffer_mb(3), 512);
    assert_eq!(upload_buffer_mb(2000), 2);
    assert_eq!(download_buffer_chunks(200, 0), 200);
    assert_eq!(download_buffer_chunks(200, 3), 50);
    assert_eq!(download_buffer_chunks(200, 500), 1);
}
