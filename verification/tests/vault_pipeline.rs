//! End-to-end pipeline over the in-memory model: account creation, the key
//! hierarchy, a whole upload, finalize with its quota debit, download with
//! in-order decryption, and deletion with quota release.

use cryptvault::auth::{authenticate_user, change_password, open_session, register_user, User};
use cryptvault::config::parse_master_key;
use cryptvault::download::{decrypt_chunk, prepare_download};
use cryptvault::errors::AppError;
use cryptvault::files::delete_file;
use cryptvault::kek::{ensure_kek_exists, get_active_kek, get_kek_by_version, KekCache, KekRow};
use cryptvault::quota::UserStorage;
use cryptvault::upload::{upload_chunk, finalize_upload, init_upload};

fn master_key() -> Vec<u8> {
    parse_master_key(&"0123456789abcdef".repeat(4)).unwrap().into_inner()
}

fn make_user(password: &str) -> (User, Vec<u8>) {
    let rec = register_user("Test User", "alice", password).unwrap();
    let user = User {
        id: 11,
        name: "Test User".to_string(),
        username: "alice".to_string(),
        email: None,
        password: rec.password_hash,
        encrypted_dek: Some(rec.encrypted_dek),
        dek_salt: Some(rec.dek_salt),
        dek_kek_version: 1,
        storage: UserStorage::new_account(),
        created_at: 0,
        updated_at: 0,
        last_password_change: None,
        is_active: true,
    };
    let session = open_session(&user, password, 1_700_000_000, 7).unwrap();
    let dek = session.dek.clone();
    (user, dek)
}

#[test]
fn test_kek_seed_and_lookup() {
    let master = master_key();
    let mut rows: Vec<KekRow> = Vec::new();
    let mut cache = KekCache::new();
    let v = ensure_kek_exists(&mut rows, &master, &mut cache).unwrap();
    assert_eq!(v, 1);
    assert_eq!(rows.len(), 1);
    assert!(rows[0].is_active);
    let (active_version, active_key) = get_active_kek(&mut rows, &master, &mut cache).unwrap();
    assert_eq!(active_version, 1);
    assert_eq!(active_key.len(), 32);
    let by_version = get_kek_by_version(&mut rows, 1, &master, &mut cache).unwrap();
    assert_eq!(by_version, active_key);
    // Seeding again changes nothing.
    assert_eq!(ensure_kek_exists(&mut rows, &master, &mut cache).unwrap(), 1);
    assert_eq!(rows.len(), 1);
}

#[test]
fn test_kek_lazy_create_is_inactive() {
    let master = master_key();
    let mut rows: Vec<KekRow> = Vec::new();
    let mut cache = KekCache::new();
    ensure_kek_exists(&mut rows, &master, &mut cache).unwrap();
    let k3 = get_kek_by_version(&mut rows, 3, &master, &mut cache).unwrap();
    assert_eq!(k3.len(), 32);
    assert_eq!(rows.len(), 2);
    assert!(!rows[1].is_active);
    // The active KEK is still version 1.
    let (v, _) = get_active_kek(&mut rows, &master, &mut cache).unwrap();
    assert_eq!(v, 1);
}

#[test]
fn test_kek_cache_basics() {
    let mut cache = KekCache::new();
    assert!(cache.get(1).is_none());
    cache.insert(1, vec![9; 32]);
    cache.insert(2, vec![8; 32]);
    assert_eq!(cache.get(1).unwrap(), vec![9; 32]);
    cache.insert(1, vec![7; 32]);
    assert_eq!(cache.get(1).unwrap(), vec![7; 32]);
    assert_eq!(cache.get(2).unwrap(), vec![8; 32]);
    cache.clear();
    assert!(cache.get(1).is_none());
}

#[test]
fn test_full_upload_download_delete_cycle() {
    let master = master_key();
    let mut rows: Vec<KekRow> = Vec::new();
    let mut cache = KekCache::new();
    ensure_kek_exists(&mut rows, &master, &mut cache).unwrap();
    let (user, dek) = make_user("SecurePass123!@#");
    let mut storage = user.storage;
    assert_eq!(storage.storage_used_bytes, 0);
    assert_eq!(storage.storage_quota_bytes, 1073741824);

    // Upload three chunks out of order.
    let plain: Vec<Vec<u8>> = vec![vec![1; 1000], vec![2; 1000], vec![3; 1000]];
    let mut metadata = init_upload(
        user.id,
        "a.bin".to_string(),
        3000,
        3,
        None,
        false,
        &storage,
        "U".to_string(),
        1_700_000_000,
    )
    .unwrap();
    let mut staged: Vec<Vec<u8>> = vec![Vec::new(), Vec::new(), Vec::new()];
    for idx in [2usize, 0, 1] {
        let (ct, _nonce) = upload_chunk(&mut metadata, idx, &dek, &plain[idx]).unwrap();
        staged[idx] = ct;
    }
    assert!(metadata.is_complete());

    // Finalize: quota is debited exactly here.
    let record = finalize_upload(
        &metadata,
        77,
        None,
        &dek,
        1_700_000_100,
        &mut storage,
        &mut rows,
        &master,
        &mut cache,
    )
    .unwrap();
    assert_eq!(storage.storage_used_bytes, 3000);
    assert_eq!(record.file_size, 3000);
    assert_eq!(record.total_chunks, 3);
    assert_eq!(record.mime_type, "application/octet-stream");
    assert_eq!(record.upload_status, "completed");
    assert_eq!(record.dek_version, 1);
    assert!(!record.is_deleted);

    // Download: the plan's DEK opens every staged chunk, in index order.
    let plan = prepare_download(&record, &master, &mut rows, &mut cache).unwrap();
    assert_eq!(plan.dek, dek);
    assert_eq!(plan.chunks.len(), 3);
    let mut downloaded: Vec<u8> = Vec::new();
    for (i, info) in plan.chunks.iter().enumerate() {
        assert_eq!(info.index, i);
        assert_eq!(info.get_filename().unwrap(), format!("U_{}.enc", i));
        let piece = decrypt_chunk(&plan.dek, &staged[i], info).unwrap();
        downloaded.extend_from_slice(&piece);
    }
    let expected: Vec<u8> = plain.concat();
    assert_eq!(downloaded, expected);

    // Delete: the quota drops by the file's size; a second delete fails.
    let released = delete_file(Some(&record), &mut storage).unwrap();
    assert_eq!(released, 3000);
    assert_eq!(storage.storage_used_bytes, 0);
    let mut deleted = record;
    deleted.is_deleted = true;
    assert!(matches!(delete_file(Some(&deleted), &mut storage), Err(AppError::Validation(_))));
    assert!(matches!(delete_file(None, &mut storage), Err(AppError::NotFound)));
}

#[test]
fn test_download_rejects_tampered_record_and_chunks() {
    let master = master_key();
    let mut rows: Vec<KekRow> = Vec::new();
    let mut cache = KekCache::new();
    ensure_kek_exists(&mut rows, &master, &mut cache).unwrap();
    let (user, dek) = make_user("SecurePass123!@#");
    let mut storage = user.storage;
    let mut metadata = init_upload(
        user.id,
        "a.bin".to_string(),
        10,
        1,
        None,
        false,
        &storage,
        "U".to_string(),
        0,
    )
    .unwrap();
    let data: Vec<u8> = vec![9; 10];
    let (staged, _nonce) = upload_chunk(&mut metadata, 0, &dek, &data).unwrap();
    let record = finalize_upload(
        &metadata,
        77,
        None,
        &dek,
        0,
        &mut storage,
        &mut rows,
        &master,
        &mut cache,
    )
    .unwrap();

    // A tampered DEK envelope never opens.
    let mut bad_record = record;
    bad_record.encrypted_dek[0] ^= 1;
    assert!(prepare_download(&bad_record, &master, &mut rows, &mut cache).is_err());
    bad_record.encrypted_dek[0] ^= 1;

    // A corrupted chunk table is rejected.
    bad_record.chunks_metadata.pop();
    assert!(prepare_download(&bad_record, &master, &mut rows, &mut cache).is_err());

    // A tampered staged chunk aborts its decryption.
    let record = {
        bad_record.chunks_metadata = cryptvault::codec::encode_chunk_table(
            &cryptvault::upload::build_chunk_table(&metadata),
        );
        bad_record
    };
    let plan = prepare_download(&record, &master, &mut rows, &mut cache).unwrap();
    let mut corrupted = staged;
    corrupted[0] ^= 1;
    assert!(matches!(
        decrypt_chunk(&plan.dek, &corrupted, &plan.chunks[0]),
        Err(AppError::Encryption(_))
    ));
}

#[test]
fn test_finalize_rejects_incomplete_upload() {
    let master = master_key();
    let mut rows: Vec<KekRow> = Vec::new();
    let mut cache = KekCache::new();
    let (user, dek) = make_user("SecurePass123!@#");
    let mut storage = user.storage;
    let mut metadata = init_upload(
        user.id,
        "a.bin".to_string(),
        3000,
        3,
        None,
        false,
        &storage,
        "U".to_string(),
        0,
    )
    .unwrap();
    let data: Vec<u8> = vec![1; 10];
    upload_chunk(&mut metadata, 0, &dek, &data).unwrap();
    upload_chunk(&mut metadata, 1, &dek, &data).unwrap();
    let r = finalize_upload(
        &metadata,
        77,
        None,
        &dek,
        0,
        &mut storage,
        &mut rows,
        &master,
        &mut cache,
    );
    match r {
        Err(AppError::Validation(msg)) => assert_eq!(msg, "incomplete upload"),
        _ => panic!("expected an incomplete-upload error"),
    }
    assert_eq!(storage.storage_used_bytes, 0);
}

#[test]
fn test_finalize_rejects_quota_shortfall() {
    let master = master_key();
    let mut rows: Vec<KekRow> = Vec::new();
    let mut cache = KekCache::new();
    let (user, dek) = make_user("SecurePass123!@#");
    let mut storage = UserStorage { storage_quota_bytes: 100, storage_used_bytes: 0 };
    let mut metadata = init_upload(
        user.id,
        "a.bin".to_string(),
        100,
        1,
        None,
        false,
        &storage,
        "U".to_string(),
        0,
    )
    .unwrap();
    let data: Vec<u8> = vec![1; 10];
    upload_chunk(&mut metadata, 0, &dek, &data).unwrap();
    storage.storage_used_bytes = 50;
    let r = finalize_upload(
        &metadata,
        77,
        None,
        &dek,
        0,
        &mut storage,
        &mut rows,
        &master,
        &mut cache,
    );
    assert!(matches!(r, Err(AppError::Validation(_))));
    assert_eq!(storage.storage_used_bytes, 50);
}

#[test]
fn test_authenticate_user_flows() {
    let (user, _dek) = make_user("SecurePass123!@#");
    let ok = authenticate_user(Some(user.clone()), "SecurePass123!@#");
    assert!(ok.is_ok());
    let wrong = authenticate_user(Some(user.clone()), "WrongPass123!@#");
    assert!(matches!(wrong, Err(AppError::Authentication(_))));
    let missing = authenticate_user(None, "SecurePass123!@#");
    assert!(matches!(missing, Err(AppError::Authentication(_))));
}

#[test]
fn test_authenticate_user_distinguishes_corrupt_hash() {
    let (user, _dek) = make_user("SecurePass123!@#");
    // A wrong password against a good hash is an authentication failure...
    assert!(matches!(
        authenticate_user(Some(user.clone()), "WrongPass123!@#"),
        Err(AppError::Authentication(_))
    ));
    // ...while an unparseable stored hash is a crypto failure.
    let mut corrupt = user;
    corrupt.password = "not a phc string".to_string();
    assert!(matches!(
        authenticate_user(Some(corrupt), "SecurePass123!@#"),
        Err(AppError::Encryption(_))
    ));
}

#[test]
fn test_change_password_end_to_end() {
    let (user, dek) = make_user("OldPass123!@#");
    let change = change_password(&user, "OldPass123!@#", "NewPass456!@#").unwrap();
    let user2 = User {
        password: change.password_hash,
        encrypted_dek: Some(change.encrypted_dek),
        dek_salt: Some(change.dek_salt),
        ..user
    };
    let session = open_session(&user2, "NewPass456!@#", 0, 7).unwrap();
    assert_eq!(session.dek, dek);
    assert!(open_session(&user2, "OldPass123!@#", 0, 7).is_err());
}

#[test]
fn test_change_password_rejects_wrong_old_password() {
    let (user, _dek) = make_user("OldPass123!@#");
    let r = change_password(&user, "Mistaken123!@#", "NewPass456!@#");
    assert!(matches!(r, Err(AppError::Authentication(_))));
}

#[test]
fn test_register_rejects_blank_name_and_bad_password() {
    assert!(matches!(
        register_user("   ", "alice", "SecurePass123!@#"),
        Err(AppError::Validation(_))
    ));
    assert!(matches!(register_user("Test", "alice", "short"), Err(AppError::Validation(_))));
    assert!(matches!(register_user("Test", "a!", "SecurePass123!@#"), Err(AppError::Validation(_))));
}
