//! The quota ledger: admission, commit, release, the atomic check-and-update
//! helper, and the idempotent recomputation.

use cryptvault::quota::{
    recalculate_user_quota, rollback_storage_usage, update_storage_with_quota_check, UserStorage,
    DEFAULT_QUOTA_BYTES,
};

#[test]
fn test_new_account_defaults() {
    let s = UserStorage::new_account();
    assert_eq!(s.storage_quota_bytes, 1073741824);
    assert_eq!(s.storage_quota_bytes, DEFAULT_QUOTA_BYTES);
    assert_eq!(s.storage_used_bytes, 0);
    assert_eq!(s.available_bytes(), 1073741824);
}

#[test]
fn test_admission_boundary() {
    let s = UserStorage { storage_quota_bytes: 100, storage_used_bytes: 40 };
    assert!(s.admits(60));
    assert!(!s.admits(61));
    assert!(s.admits(0));
}

#[test]
fn test_commit_and_release() {
    let mut s = UserStorage { storage_quota_bytes: 100, storage_used_bytes: 40 };
    s.commit_usage(60);
    assert_eq!(s.storage_used_bytes, 100);
    s.release_usage(30);
    assert_eq!(s.storage_used_bytes, 70);
    s.release_usage(1000);
    assert_eq!(s.storage_used_bytes, 0);
}

#[test]
fn test_update_storage_with_quota_check_success() {
    let mut s = UserStorage { storage_quota_bytes: 100, storage_used_bytes: 40 };
    let r = update_storage_with_quota_check(&mut s, 50);
    assert!(r.success);
    assert_eq!(r.new_storage_used, 90);
    assert_eq!(r.available_bytes, 10);
    assert_eq!(s.storage_used_bytes, 90);
}

#[test]
fn test_update_storage_with_quota_check_refusal_changes_nothing() {
    let mut s = UserStorage { storage_quota_bytes: 100, storage_used_bytes: 40 };
    let r = update_storage_with_quota_check(&mut s, 61);
    assert!(!r.success);
    assert_eq!(r.new_storage_used, 40);
    assert_eq!(r.available_bytes, 60);
    assert_eq!(s.storage_used_bytes, 40);
}

#[test]
fn test_update_storage_negative_delta_releases() {
    let mut s = UserStorage { storage_quota_bytes: 100, storage_used_bytes: 40 };
    let r = update_storage_with_quota_check(&mut s, -25);
    assert!(r.success);
    assert_eq!(s.storage_used_bytes, 15);
    let r2 = update_storage_with_quota_check(&mut s, -100);
    assert!(!r2.success);
    assert_eq!(s.storage_used_bytes, 15);
}

#[test]
fn test_rollback_storage_usage_clamps_at_zero() {
    let mut s = UserStorage { storage_quota_bytes: 100, storage_used_bytes: 40 };
    rollback_storage_usage(&mut s, 15);
    assert_eq!(s.storage_used_bytes, 25);
    rollback_storage_usage(&mut s, 999);
    assert_eq!(s.storage_used_bytes, 0);
}

#[test]
fn test_recalculate_sums_live_sizes() {
    let mut s = UserStorage { storage_quota_bytes: 1000, storage_used_bytes: 123 };
    let sizes: Vec<i64> = vec![10, 20, 30];
    let total = recalculate_user_quota(&mut s, &sizes);
    assert_eq!(total, 60);
    assert_eq!(s.storage_used_bytes, 60);
}

#[test]
fn test_recalculate_twice_gives_same_used_bytes() {
    let mut s = UserStorage { storage_quota_bytes: 1000, storage_used_bytes: 999 };
    let sizes: Vec<i64> = vec![7, 11, 13];
    let first = recalculate_user_quota(&mut s, &sizes);
    let second = recalculate_user_quota(&mut s, &sizes);
    assert_eq!(first, second);
    assert_eq!(s.storage_used_bytes, 31);
}

#[test]
fn test_recalculate_empty_is_zero() {
    let mut s = UserStorage { storage_quota_bytes: 1000, storage_used_bytes: 999 };
    let sizes: Vec<i64> = Vec::new();
    assert_eq!(recalculate_user_quota(&mut s, &sizes), 0);
    assert_eq!(s.storage_used_bytes, 0);
}
