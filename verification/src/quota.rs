//! Quota ledger: transactional accounting of a user's stored bytes.
//!
//! The ledger invariant — `0 <= used <= quota` — is established by the fresh
//! account and preserved by admission, commit, release and recomputation.
//! Admission happens only at finalize; release accompanies a soft delete; the
//! recomputation rebuilds `used` from the sizes of the live files.

use vstd::prelude::*;

verus! {

/// The storage quota a fresh account starts with, in bytes (1 GiB).
pub const DEFAULT_QUOTA_BYTES: i64 = 1073741824;

/// A user's storage ledger row: quota and current usage.
#[derive(Clone, Copy)]
pub struct UserStorage {
    /// The user's storage quota in bytes.
    pub storage_quota_bytes: i64,
    /// The user's used storage in bytes.
    pub storage_used_bytes: i64,
}

/// The ledger invariant: usage is never negative and never above the quota.
pub open spec fn storage_wf(s: UserStorage) -> bool {
    0 <= s.storage_used_bytes <= s.storage_quota_bytes
}

/// The result of the atomic storage check-and-update.
pub struct StorageCheckResult {
    /// Whether the update was admitted and applied.
    pub success: bool,
    /// The number of bytes still available after the call.
    pub available_bytes: i64,
    /// The usage in bytes after the call.
    pub new_storage_used: i64,
}

impl UserStorage {
    /// A fresh account: nothing used, default quota.
    pub fn new_account() -> (r: Self)
        ensures
            r.storage_quota_bytes == DEFAULT_QUOTA_BYTES,
            r.storage_used_bytes == 0,
            storage_wf(r),
    {
        UserStorage { storage_quota_bytes: DEFAULT_QUOTA_BYTES, storage_used_bytes: 0 }
    }

    /// The number of bytes still available under the quota.
    pub fn available_bytes(&self) -> (r: i64)
        requires
            storage_wf(*self),
        ensures
            r == self.storage_quota_bytes - self.storage_used_bytes,
            r >= 0,
    {
        self.storage_quota_bytes - self.storage_used_bytes
    }

    /// Whether a request of `requested` bytes fits the free space.  This is
    /// the admission gate of the ledger.
    pub fn admits(&self, requested: i64) -> (r: bool)
        requires
            storage_wf(*self),
        ensures
            r == (requested <= self.storage_quota_bytes - self.storage_used_bytes),
    {
        requested <= self.storage_quota_bytes - self.storage_used_bytes
    }

    /// Commits an admitted request: adds `size` to the usage.  Runs in the
    /// same transaction as the file insert, so both happen or neither.
    pub fn commit_usage(&mut self, size: i64)
        requires
            storage_wf(*old(self)),
            0 <= size <= old(self).storage_quota_bytes - old(self).storage_used_bytes,
        ensures
            storage_wf(*final(self)),
            final(self).storage_quota_bytes == old(self).storage_quota_bytes,
            final(self).storage_used_bytes == old(self).storage_used_bytes + size,
    {
        self.storage_used_bytes = self.storage_used_bytes + size;
    }

    /// Releases `size` bytes on a soft delete, clamping at zero.
    pub fn release_usage(&mut self, size: i64)
        requires
            storage_wf(*old(self)),
            size >= 0,
        ensures
            storage_wf(*final(self)),
            final(self).storage_quota_bytes == old(self).storage_quota_bytes,
            final(self).storage_used_bytes == if size <= old(self).storage_used_bytes {
                old(self).storage_used_bytes - size
            } else {
                0
            },
    {
        if size <= self.storage_used_bytes {
            self.storage_used_bytes = self.storage_used_bytes - size;
        } else {
            self.storage_used_bytes = 0;
        }
    }
}

/// Atomically checks and applies a usage change of `delta` bytes (negative
/// deltas release).  On success the usage moved by `delta`; on refusal
/// nothing changed.  Either way the result reports the resulting usage and
/// the bytes still available.
pub fn update_storage_with_quota_check(s: &mut UserStorage, delta: i64) -> (r: StorageCheckResult)
    requires
        storage_wf(*old(s)),
    ensures
        storage_wf(*final(s)),
        final(s).storage_quota_bytes == old(s).storage_quota_bytes,
        r.success == (0 <= old(s).storage_used_bytes + delta <= old(s).storage_quota_bytes),
        r.success ==> final(s).storage_used_bytes == old(s).storage_used_bytes + delta,
        !r.success ==> final(s).storage_used_bytes == old(s).storage_used_bytes,
        r.new_storage_used == final(s).storage_used_bytes,
        r.available_bytes == final(s).storage_quota_bytes - final(s).storage_used_bytes,
{
    let proposed: i128 = s.storage_used_bytes as i128 + delta as i128;
    let success = 0 <= proposed && proposed <= s.storage_quota_bytes as i128;
    if success {
        s.storage_used_bytes = proposed as i64;
    }
    StorageCheckResult {
        success,
        available_bytes: s.storage_quota_bytes - s.storage_used_bytes,
        new_storage_used: s.storage_used_bytes,
    }
}

/// Rolls back a previously committed usage of `size` bytes, clamping at zero.
pub fn rollback_storage_usage(s: &mut UserStorage, size: i64)
    requires
        storage_wf(*old(s)),
        size >= 0,
    ensures
        storage_wf(*final(s)),
        final(s).storage_quota_bytes == old(s).storage_quota_bytes,
        final(s).storage_used_bytes == if size <= old(s).storage_used_bytes {
            old(s).storage_used_bytes - size
        } else {
            0
        },
{
    s.release_usage(size);
}

/// The sum of a sequence of sizes.
pub open spec fn spec_sum(sizes: Seq<i64>) -> int
    decreases sizes.len(),
{
    if sizes.len() == 0 {
        0
    } else {
        spec_sum(sizes.drop_last()) + sizes.last()
    }
}

/// Extending a prefix by one element adds that element to its sum.
proof fn lemma_sum_step(sizes: Seq<i64>, i: int)
    requires
        0 <= i < sizes.len(),
    ensures
        spec_sum(sizes.subrange(0, i + 1)) == spec_sum(sizes.subrange(0, i)) + sizes[i],
{
    assert(sizes.subrange(0, i + 1).drop_last() =~= sizes.subrange(0, i));
    assert(sizes.subrange(0, i + 1).last() == sizes[i]);
}

/// With non-negative sizes, every prefix sum is at most the total sum.
proof fn lemma_sum_prefix_bound(sizes: Seq<i64>, i: int)
    requires
        0 <= i <= sizes.len(),
        forall|j: int| 0 <= j < sizes.len() ==> #[trigger] sizes[j] >= 0,
    ensures
        spec_sum(sizes.subrange(0, i)) <= spec_sum(sizes),
        spec_sum(sizes.subrange(0, i)) >= 0,
    decreases sizes.len() - i,
{
    lemma_sum_prefix_bound_nonneg(sizes, i);
    if i == sizes.len() {
        assert(sizes.subrange(0, i) =~= sizes);
    } else {
        lemma_sum_step(sizes, i);
        lemma_sum_prefix_bound(sizes, i + 1);
    }
}

/// With non-negative sizes, every prefix sum is non-negative.
proof fn lemma_sum_prefix_bound_nonneg(sizes: Seq<i64>, i: int)
    requires
        0 <= i <= sizes.len(),
        forall|j: int| 0 <= j < sizes.len() ==> #[trigger] sizes[j] >= 0,
    ensures
        spec_sum(sizes.subrange(0, i)) >= 0,
    decreases i,
{
    if i > 0 {
        lemma_sum_step(sizes, i - 1);
        lemma_sum_prefix_bound_nonneg(sizes, i - 1);
    } else {
        assert(sizes.subrange(0, 0) =~= Seq::<i64>::empty());
    }
}

/// Rebuilds the usage from the sizes of the live (non-deleted) files,
/// assigning the sum to `used`, and returns the recomputed usage.
///
/// The caller supplies the live file sizes; committed files were each
/// admitted under the quota, which is why their sum is required to fit it.
pub fn recalculate_user_quota(s: &mut UserStorage, live_sizes: &Vec<i64>) -> (r: i64)
    requires
        storage_wf(*old(s)),
        forall|j: int| 0 <= j < live_sizes@.len() ==> #[trigger] live_sizes@[j] >= 0,
        spec_sum(live_sizes@) <= old(s).storage_quota_bytes,
    ensures
        storage_wf(*final(s)),
        final(s).storage_quota_bytes == old(s).storage_quota_bytes,
        final(s).storage_used_bytes == spec_sum(live_sizes@),
        r == spec_sum(live_sizes@),
{
    let n = live_sizes.len();
    let mut total: i64 = 0;
    let mut i: usize = 0;
    proof {
        assert(live_sizes@.subrange(0, 0) =~= Seq::<i64>::empty());
    }
    while i < n
        invariant
            n == live_sizes@.len(),
            i <= n,
            forall|j: int| 0 <= j < live_sizes@.len() ==> #[trigger] live_sizes@[j] >= 0,
            spec_sum(live_sizes@) <= s.storage_quota_bytes,
            total == spec_sum(live_sizes@.subrange(0, i as int)),
            0 <= total <= s.storage_quota_bytes,
        decreases n - i,
    {
        proof {
            lemma_sum_step(live_sizes@, i as int);
            lemma_sum_prefix_bound(live_sizes@, i as int + 1);
        }
        total = total + live_sizes[i];
        i = i + 1;
    }
    proof {
        assert(live_sizes@.subrange(0, n as int) =~= live_sizes@);
    }
    s.storage_used_bytes = total;
    total
}

/// The ledger state after a recomputation over the given live sizes.
pub open spec fn spec_recalculated(s: UserStorage, live_sizes: Seq<i64>) -> UserStorage {
    UserStorage {
        storage_quota_bytes: s.storage_quota_bytes,
        storage_used_bytes: spec_sum(live_sizes) as i64,
    }
}

/// Recomputing the quota is idempotent: since recomputation does not change
/// the set of live files, applying it twice yields the same `used_bytes` as
/// applying it once.
pub proof fn lemma_recalculate_idempotent(s: UserStorage, live_sizes: Seq<i64>)
    ensures
        spec_recalculated(spec_recalculated(s, live_sizes), live_sizes) == spec_recalculated(
            s,
            live_sizes,
        ),
{
}

} // verus!
