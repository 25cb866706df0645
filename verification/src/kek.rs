//! Key encryption key (KEK) registry and cache.
//!
//! KEKs are versioned 32-byte keys stored wrapped under the operator master
//! key; the rows live in the relational store and a hot cache keeps unwrapped
//! copies in memory.  The functions here work on the in-memory model of that
//! table (a vector of rows); the caller mirrors appended rows to storage.
//!
//! Invariants carried through every operation:
//! - row versions are unique, every row unwraps under the master key to a
//!   32-byte key;
//! - at most one row is active and not deprecated;
//! - every cached value equals the unwrapped key of the row with its version.
//!
//! A version no row carries is created lazily, as the original registry does;
//! failing loudly instead was weighed and kept only for the one corner where
//! no active row exists but version 1 is already taken — there the conflicting
//! insert would change nothing, and caching a key the store never held would
//! break the cache agreement above.

use vstd::prelude::*;
use vstd::string::StringExecFns;
use crate::aes;
use crate::aes::{aead_open, KEY_SIZE, NONCE_SIZE};
use crate::byteseq::copy_range;
use crate::errors::{AppError, VaultResult};
use crate::rng::random_bytes;

verus! {

/// One row of the KEK table: a version, the key wrapped under the master key,
/// the wrap nonce, and the lifecycle flags.
pub struct KekRow {
    /// The version of the KEK.
    pub version: i32,
    /// The KEK sealed under the master key.
    pub encrypted_keydata: Vec<u8>,
    /// The nonce the seal was made with.
    pub nonce: Vec<u8>,
    /// Whether this row is the active KEK.
    pub is_active: bool,
    /// Whether this row has been deprecated.
    pub is_deprecated: bool,
}

/// The plaintext KEK that a row unwraps to under the master key.
pub open spec fn spec_kek_plain(master: Seq<u8>, row: KekRow) -> Option<Seq<u8>> {
    aead_open(master, row.nonce@, row.encrypted_keydata@)
}

/// Well-formedness of the KEK table: unique versions, and every row unwraps
/// under the master key to a 32-byte key.
pub open spec fn kek_rows_wf(rows: Seq<KekRow>, master: Seq<u8>) -> bool {
    &&& forall|i: int, j: int|
        0 <= i < j < rows.len() ==> #[trigger] rows[i].version != #[trigger] rows[j].version
    &&& forall|i: int| 0 <= i < rows.len() ==> #[trigger] rows[i].nonce@.len() == NONCE_SIZE
    &&& forall|i: int|
        0 <= i < rows.len() ==> (#[trigger] spec_kek_plain(master, rows[i]) matches Some(k)
            && k.len() == KEY_SIZE)
}

/// Whether a row is the active, non-deprecated KEK.
pub open spec fn spec_row_active(row: KekRow) -> bool {
    row.is_active && !row.is_deprecated
}

/// At most one row is active and not deprecated at a time.
pub open spec fn spec_single_active(rows: Seq<KekRow>) -> bool {
    forall|i: int, j: int|
        0 <= i < rows.len() && 0 <= j < rows.len() && i != j ==> !(#[trigger] spec_row_active(
            rows[i],
        ) && #[trigger] spec_row_active(rows[j]))
}

/// Whether some row is active and not deprecated.
pub open spec fn spec_has_active(rows: Seq<KekRow>) -> bool {
    exists|i: int| 0 <= i < rows.len() && #[trigger] spec_row_active(rows[i])
}

/// Whether some row carries the given version.
pub open spec fn spec_has_version(rows: Seq<KekRow>, version: int) -> bool {
    exists|i: int| 0 <= i < rows.len() && #[trigger] rows[i].version == version
}

/// A cached, unwrapped KEK.
pub struct CachedKek {
    /// The version of the KEK.
    pub version: i32,
    /// The unwrapped key bytes.
    pub keydata: Vec<u8>,
}

/// A cache mapping KEK versions to unwrapped key bytes.
pub struct KekCache {
    entries: Vec<CachedKek>,
}

impl KekCache {
    /// Versions in the cache are unique.
    pub closed spec fn wf(&self) -> bool {
        forall|i: int, j: int|
            0 <= i < j < self.entries@.len() ==> #[trigger] self.entries@[i].version
                != #[trigger] self.entries@[j].version
    }

    /// Whether the cache holds an entry for the version.
    pub closed spec fn spec_contains(&self, version: int) -> bool {
        exists|i: int|
            0 <= i < self.entries@.len() && #[trigger] self.entries@[i].version == version
    }

    /// The cached key bytes for the version.
    pub closed spec fn spec_value(&self, version: int) -> Seq<u8> {
        let i = choose|i: int|
            0 <= i < self.entries@.len() && #[trigger] self.entries@[i].version == version;
        self.entries@[i].keydata@
    }

    /// Under `wf`, every entry with a version determines the cached value.
    proof fn lemma_value_at(&self, version: int, i: int)
        requires
            self.wf(),
            0 <= i < self.entries@.len(),
            self.entries@[i].version == version,
        ensures
            self.spec_contains(version),
            self.spec_value(version) == self.entries@[i].keydata@,
    {
        assert(self.spec_contains(version));
        let j = choose|j: int|
            0 <= j < self.entries@.len() && #[trigger] self.entries@[j].version == version;
        if i < j {
            assert(self.entries@[i].version != self.entries@[j].version);
        } else if j < i {
            assert(self.entries@[j].version != self.entries@[i].version);
        }
    }

    /// Creates a new, empty cache.
    pub fn new() -> (r: Self)
        ensures
            r.wf(),
            forall|v: int| !r.spec_contains(v),
    {
        KekCache { entries: Vec::new() }
    }

    /// Gets a KEK from the cache by version.
    pub fn get(&self, version: i32) -> (r: Option<Vec<u8>>)
        requires
            self.wf(),
        ensures
            r is Some <==> self.spec_contains(version as int),
            r matches Some(k) ==> k@ == self.spec_value(version as int),
    {
        let n = self.entries.len();
        let mut i: usize = 0;
        while i < n
            invariant
                self.wf(),
                n == self.entries@.len(),
                i <= n,
                forall|j: int| 0 <= j < i ==> #[trigger] self.entries@[j].version != version,
            decreases n - i,
        {
            if self.entries[i].version == version {
                let key = copy_range(&self.entries[i].keydata, 0, self.entries[i].keydata.len());
                proof {
                    self.lemma_value_at(version as int, i as int);
                    assert(key@ =~= self.entries@[i as int].keydata@);
                }
                return Some(key);
            }
            i = i + 1;
        }
        None
    }

    /// Inserts a KEK into the cache, replacing any entry of the same version.
    pub fn insert(&mut self, version: i32, keydata: Vec<u8>)
        requires
            old(self).wf(),
        ensures
            final(self).wf(),
            final(self).spec_contains(version as int),
            final(self).spec_value(version as int) == keydata@,
            forall|w: int|
                w != version ==> (#[trigger] final(self).spec_contains(w) <==> old(self)
                    .spec_contains(w)),
            forall|w: int|
                w != version && old(self).spec_contains(w) ==> #[trigger] final(self).spec_value(w)
                    == old(self).spec_value(w),
    {
        let ghost prior = *self;
        let n = self.entries.len();
        let mut i: usize = 0;
        while i < n
            invariant
                *self == prior,
                prior == *old(self),
                prior.wf(),
                n == self.entries@.len(),
                i <= n,
                forall|j: int| 0 <= j < i ==> #[trigger] self.entries@[j].version != version,
            decreases n - i,
        {
            if self.entries[i].version == version {
                self.entries[i] = CachedKek { version, keydata };
                proof {
                    assert forall|a: int, b: int| 0 <= a < b < self.entries@.len() implies
                        #[trigger] self.entries@[a].version
                        != #[trigger] self.entries@[b].version by {
                        assert(prior.entries@[a].version != prior.entries@[b].version);
                    }
                    self.lemma_value_at(version as int, i as int);
                    assert forall|w: int| w != version implies (#[trigger] self.spec_contains(w)
                        <==> prior.spec_contains(w)) by {
                        if self.spec_contains(w) {
                            let a = choose|a: int|
                                0 <= a < self.entries@.len() && #[trigger] self.entries@[a].version
                                    == w;
                            assert(prior.entries@[a].version == w);
                        }
                        if prior.spec_contains(w) {
                            let a = choose|a: int|
                                0 <= a < prior.entries@.len()
                                    && #[trigger] prior.entries@[a].version == w;
                            assert(self.entries@[a].version == w);
                        }
                    }
                    assert forall|w: int| w != version && prior.spec_contains(w) implies
                        #[trigger] self.spec_value(w) == prior.spec_value(w) by {
                        let a = choose|a: int|
                            0 <= a < prior.entries@.len() && #[trigger] prior.entries@[a].version
                                == w;
                        assert(self.entries@[a].version == w);
                        self.lemma_value_at(w, a);
                        prior.lemma_value_at(w, a);
                    }
                }
                return ;
            }
            i = i + 1;
        }
        self.entries.push(CachedKek { version, keydata });
        proof {
            let len = self.entries@.len();
            assert forall|a: int, b: int| 0 <= a < b < len implies #[trigger] self.entries@[a].version
                != #[trigger] self.entries@[b].version by {
                if b < len - 1 {
                    assert(prior.entries@[a].version != prior.entries@[b].version);
                } else {
                    assert(prior.entries@[a].version != version);
                }
            }
            self.lemma_value_at(version as int, len - 1);
            assert forall|w: int| w != version implies (#[trigger] self.spec_contains(w)
                <==> prior.spec_contains(w)) by {
                if self.spec_contains(w) {
                    let a = choose|a: int|
                        0 <= a < self.entries@.len() && #[trigger] self.entries@[a].version == w;
                    assert(a < len - 1);
                    assert(prior.entries@[a].version == w);
                }
                if prior.spec_contains(w) {
                    let a = choose|a: int|
                        0 <= a < prior.entries@.len() && #[trigger] prior.entries@[a].version == w;
                    assert(self.entries@[a].version == w);
                }
            }
            assert forall|w: int| w != version && prior.spec_contains(w) implies
                #[trigger] self.spec_value(w) == prior.spec_value(w) by {
                let a = choose|a: int|
                    0 <= a < prior.entries@.len() && #[trigger] prior.entries@[a].version == w;
                assert(self.entries@[a].version == w);
                self.lemma_value_at(w, a);
                prior.lemma_value_at(w, a);
            }
        }
    }

    /// Clears the KEK cache, blanking each cached plaintext before its
    /// buffer is dropped.
    pub fn clear(&mut self)
        ensures
            final(self).wf(),
            forall|v: int| !final(self).spec_contains(v),
    {
        loop
            invariant
                true,
            ensures
                self.entries@.len() == 0,
            decreases self.entries@.len(),
        {
            match self.entries.pop() {
                Some(mut entry) => {
                    crate::byteseq::wipe(&mut entry.keydata);
                },
                None => {
                    break ;
                },
            }
        }
    }
}

/// Every cached version has a row it agrees with: the cached bytes are the
/// unwrapped key of the row carrying that version.
pub open spec fn spec_cache_consistent(cache: KekCache, rows: Seq<KekRow>, master: Seq<u8>) -> bool {
    forall|v: int|
        #[trigger] cache.spec_contains(v) ==> exists|i: int|
            0 <= i < rows.len() && #[trigger] rows[i].version == v && spec_kek_plain(
                master,
                rows[i],
            ) == Some(cache.spec_value(v))
}

/// Finds the row carrying a version.
fn find_version(rows: &Vec<KekRow>, version: i32) -> (r: Option<usize>)
    ensures
        match r {
            Some(i) => i < rows@.len() && rows@[i as int].version == version,
            None => !spec_has_version(rows@, version as int),
        },
{
    let n = rows.len();
    let mut i: usize = 0;
    while i < n
        invariant
            n == rows@.len(),
            i <= n,
            forall|j: int| 0 <= j < i ==> #[trigger] rows@[j].version != version,
        decreases n - i,
    {
        if rows[i].version == version {
            return Some(i);
        }
        i = i + 1;
    }
    None
}

/// Finds the active, non-deprecated row with the highest version.
fn find_active(rows: &Vec<KekRow>) -> (r: Option<usize>)
    ensures
        match r {
            Some(i) => {
                &&& i < rows@.len()
                &&& spec_row_active(rows@[i as int])
                &&& forall|j: int|
                    0 <= j < rows@.len() && #[trigger] spec_row_active(rows@[j]) ==> rows@[j].version
                        <= rows@[i as int].version
            },
            None => !spec_has_active(rows@),
        },
{
    let n = rows.len();
    let mut best: Option<usize> = None;
    let mut i: usize = 0;
    while i < n
        invariant
            n == rows@.len(),
            i <= n,
            match best {
                Some(b) => {
                    &&& b < i
                    &&& spec_row_active(rows@[b as int])
                    &&& forall|j: int|
                        0 <= j < i && #[trigger] spec_row_active(rows@[j]) ==> rows@[j].version
                            <= rows@[b as int].version
                },
                None => forall|j: int| 0 <= j < i ==> !spec_row_active(#[trigger] rows@[j]),
            },
        decreases n - i,
    {
        if rows[i].is_active && !rows[i].is_deprecated {
            match best {
                Some(b) => {
                    if rows[i].version > rows[b].version {
                        best = Some(i);
                    }
                },
                None => {
                    best = Some(i);
                },
            }
        }
        i = i + 1;
    }
    best
}

/// Wraps a fresh random 32-byte KEK under the master key as a new row.
fn make_kek_row(master_key: &Vec<u8>, version: i32, is_active: bool) -> (r: (KekRow, Vec<u8>))
    requires
        master_key@.len() == KEY_SIZE,
    ensures
        r.0.version == version,
        r.0.is_active == is_active,
        !r.0.is_deprecated,
        r.0.nonce@.len() == NONCE_SIZE,
        spec_kek_plain(master_key@, r.0) == Some(r.1@),
        r.1@.len() == KEY_SIZE,
{
    let keydata = random_bytes(KEY_SIZE);
    let sealed = aes::encrypt(master_key, &keydata);
    match sealed {
        Ok((encrypted_keydata, nonce)) => {
            let row = KekRow { version, encrypted_keydata, nonce, is_active, is_deprecated: false };
            (row, keydata)
        },
        Err(_) => {
            proof {
                assert(false);
            }
            (
                KekRow {
                    version,
                    encrypted_keydata: Vec::new(),
                    nonce: Vec::new(),
                    is_active,
                    is_deprecated: false,
                },
                keydata,
            )
        },
    }
}

/// Ensures that a KEK with version 1 exists.
///
/// When no version-1 row exists a fresh KEK is generated, wrapped under the
/// master key and appended (active only if no other active row stands, so a
/// single row stays active); the unwrapped key is cached.  When a version-1
/// row already exists nothing changes.
pub fn ensure_kek_exists(
    rows: &mut Vec<KekRow>,
    master_key: &Vec<u8>,
    kek_cache: &mut KekCache,
) -> (r: VaultResult<i32>)
    requires
        master_key@.len() == KEY_SIZE,
        kek_rows_wf(old(rows)@, master_key@),
        spec_single_active(old(rows)@),
        old(kek_cache).wf(),
        spec_cache_consistent(*old(kek_cache), old(rows)@, master_key@),
    ensures
        kek_rows_wf(final(rows)@, master_key@),
        spec_single_active(final(rows)@),
        final(kek_cache).wf(),
        spec_cache_consistent(*final(kek_cache), final(rows)@, master_key@),
        r matches Ok(v) && v == 1,
        spec_has_version(final(rows)@, 1),
        spec_has_version(old(rows)@, 1) ==> final(rows)@ == old(rows)@ && *final(kek_cache)
            == *old(kek_cache),
        !spec_has_version(old(rows)@, 1) ==> final(rows)@.len() == old(rows)@.len() + 1
            && final(rows)@.subrange(0, old(rows)@.len() as int) == old(rows)@
            && final(rows)@.last().version == 1 && final(kek_cache).spec_contains(1),
{
    let ghost prior_rows = rows@;
    match find_version(rows, 1) {
        Some(_) => {
            proof {
                assert(rows@.subrange(0, rows@.len() as int) =~= rows@);
            }
            Ok(1)
        },
        None => {
            let has_active = find_active(rows).is_some();
            let (row, keydata) = make_kek_row(master_key, 1, !has_active);
            rows.push(row);
            proof {
                assert(rows@.subrange(0, prior_rows.len() as int) =~= prior_rows);
                lemma_push_preserves_wf(prior_rows, rows@, master_key@, 1, !has_active);
            }
            let ghost cache_before = *kek_cache;
            kek_cache.insert(1, keydata);
            proof {
                lemma_cache_insert_consistent(
                    cache_before,
                    *kek_cache,
                    prior_rows,
                    rows@,
                    master_key@,
                    1,
                );
            }
            Ok(1)
        },
    }
}

/// Appending a fresh row with an unused version preserves table
/// well-formedness, and preserves the single-active rule when the new row is
/// active only if no active row stood before.
proof fn lemma_push_preserves_wf(
    prior: Seq<KekRow>,
    now: Seq<KekRow>,
    master: Seq<u8>,
    version: int,
    was_inactive_free: bool,
)
    requires
        kek_rows_wf(prior, master),
        spec_single_active(prior),
        now.len() == prior.len() + 1,
        now.subrange(0, prior.len() as int) == prior,
        now.last().version == version,
        !spec_has_version(prior, version),
        now.last().nonce@.len() == NONCE_SIZE,
        spec_kek_plain(master, now.last()) matches Some(k) && k.len() == KEY_SIZE,
        spec_row_active(now.last()) ==> !spec_has_active(prior),
    ensures
        kek_rows_wf(now, master),
        spec_single_active(now),
        spec_has_version(now, version),
{
    let n = prior.len() as int;
    assert forall|i: int| 0 <= i < n implies now[i] == prior[i] by {
        assert(now.subrange(0, n)[i] == now[i]);
    }
    assert forall|i: int, j: int| 0 <= i < j < now.len() implies #[trigger] now[i].version
        != #[trigger] now[j].version by {
        if j < n {
        } else {
            assert(now[j] == now.last());
            if now[i].version == version {
                assert(spec_has_version(prior, version));
            }
        }
    }
    assert forall|i: int, j: int|
        0 <= i < now.len() && 0 <= j < now.len() && i != j implies !(#[trigger] spec_row_active(
        now[i],
    ) && #[trigger] spec_row_active(now[j])) by {
        if i < n && j < n {
            assert(!(spec_row_active(prior[i]) && spec_row_active(prior[j])));
        } else if i == n && spec_row_active(now[i]) && j < n && spec_row_active(now[j]) {
            assert(spec_has_active(prior));
        } else if j == n && spec_row_active(now[j]) && i < n && spec_row_active(now[i]) {
            assert(spec_has_active(prior));
        }
    }
    assert(now[n].version == version);
}

/// Inserting into the cache the unwrapped key of a freshly appended row keeps
/// the cache consistent with the grown table.
proof fn lemma_cache_insert_consistent(
    cache_before: KekCache,
    cache_now: KekCache,
    prior_rows: Seq<KekRow>,
    rows_now: Seq<KekRow>,
    master: Seq<u8>,
    version: int,
)
    requires
        spec_cache_consistent(cache_before, prior_rows, master),
        rows_now.len() == prior_rows.len() + 1,
        rows_now.subrange(0, prior_rows.len() as int) == prior_rows,
        rows_now.last().version == version,
        cache_now.spec_contains(version),
        spec_kek_plain(master, rows_now.last()) == Some(cache_now.spec_value(version)),
        forall|w: int|
            w != version ==> (#[trigger] cache_now.spec_contains(w) <==> cache_before.spec_contains(
                w,
            )),
        forall|w: int|
            w != version && cache_before.spec_contains(w) ==> #[trigger] cache_now.spec_value(w)
                == cache_before.spec_value(w),
    ensures
        spec_cache_consistent(cache_now, rows_now, master),
{
    let n = prior_rows.len() as int;
    assert forall|i: int| 0 <= i < n implies rows_now[i] == prior_rows[i] by {
        assert(rows_now.subrange(0, n)[i] == rows_now[i]);
    }
    assert forall|v: int| #[trigger] cache_now.spec_contains(v) implies exists|i: int|
        0 <= i < rows_now.len() && #[trigger] rows_now[i].version == v && spec_kek_plain(
            master,
            rows_now[i],
        ) == Some(cache_now.spec_value(v)) by {
        if v == version {
            assert(rows_now[n].version == v && spec_kek_plain(master, rows_now[n]) == Some(
                cache_now.spec_value(v),
            ));
        } else {
            assert(cache_before.spec_contains(v));
            let i = choose|i: int|
                0 <= i < prior_rows.len() && #[trigger] prior_rows[i].version == v
                    && spec_kek_plain(master, prior_rows[i]) == Some(cache_before.spec_value(v));
            assert(rows_now[i].version == v && spec_kek_plain(master, rows_now[i]) == Some(
                cache_now.spec_value(v),
            ));
        }
    }
}

/// Caching the unwrapped key of an existing row keeps the cache consistent
/// with the unchanged table.
proof fn lemma_cache_refresh_consistent(
    cache_before: KekCache,
    cache_now: KekCache,
    rows: Seq<KekRow>,
    master: Seq<u8>,
    version: int,
    at: int,
)
    requires
        spec_cache_consistent(cache_before, rows, master),
        0 <= at < rows.len(),
        rows[at].version == version,
        cache_now.spec_contains(version),
        spec_kek_plain(master, rows[at]) == Some(cache_now.spec_value(version)),
        forall|w: int|
            w != version ==> (#[trigger] cache_now.spec_contains(w) <==> cache_before.spec_contains(
                w,
            )),
        forall|w: int|
            w != version && cache_before.spec_contains(w) ==> #[trigger] cache_now.spec_value(w)
                == cache_before.spec_value(w),
    ensures
        spec_cache_consistent(cache_now, rows, master),
{
    assert forall|v: int| #[trigger] cache_now.spec_contains(v) implies exists|i: int|
        0 <= i < rows.len() && #[trigger] rows[i].version == v && spec_kek_plain(master, rows[i])
            == Some(cache_now.spec_value(v)) by {
        if v == version {
            assert(rows[at].version == v && spec_kek_plain(master, rows[at]) == Some(
                cache_now.spec_value(v),
            ));
        } else {
            assert(cache_before.spec_contains(v));
            let i = choose|i: int|
                0 <= i < rows.len() && #[trigger] rows[i].version == v && spec_kek_plain(
                    master,
                    rows[i],
                ) == Some(cache_before.spec_value(v));
            assert(rows[i].version == v && spec_kek_plain(master, rows[i]) == Some(
                cache_now.spec_value(v),
            ));
        }
    }
}

/// Gets the active KEK: the active, non-deprecated row with the highest
/// version, unwrapped (cache first).
///
/// When no active row exists and version 1 is free, a fresh version-1 KEK is
/// created, as on first boot.  When no active row exists but a version-1 row
/// already stands, the registry is in a state the protocol cannot mend
/// silently, and the call fails loudly.
pub fn get_active_kek(
    rows: &mut Vec<KekRow>,
    master_key: &Vec<u8>,
    kek_cache: &mut KekCache,
) -> (r: VaultResult<(i32, Vec<u8>)>)
    requires
        master_key@.len() == KEY_SIZE,
        kek_rows_wf(old(rows)@, master_key@),
        spec_single_active(old(rows)@),
        old(kek_cache).wf(),
        spec_cache_consistent(*old(kek_cache), old(rows)@, master_key@),
    ensures
        kek_rows_wf(final(rows)@, master_key@),
        spec_single_active(final(rows)@),
        final(kek_cache).wf(),
        spec_cache_consistent(*final(kek_cache), final(rows)@, master_key@),
        match r {
            Ok((version, key)) => {
                &&& key@.len() == KEY_SIZE
                &&& final(kek_cache).spec_contains(version as int)
                &&& final(kek_cache).spec_value(version as int) == key@
                &&& exists|i: int|
                    0 <= i < final(rows)@.len() && #[trigger] final(rows)@[i].version == version
                        && spec_row_active(final(rows)@[i]) && spec_kek_plain(
                        master_key@,
                        final(rows)@[i],
                    ) == Some(key@)
                &&& forall|j: int|
                    0 <= j < final(rows)@.len() && #[trigger] spec_row_active(final(rows)@[j])
                        ==> final(rows)@[j].version <= version
                &&& spec_has_active(old(rows)@) ==> final(rows)@ == old(rows)@
                &&& !spec_has_active(old(rows)@) ==> version == 1 && final(rows)@.len()
                    == old(rows)@.len() + 1 && final(rows)@.subrange(0, old(rows)@.len() as int)
                    == old(rows)@
            },
            Err(_) => {
                &&& !spec_has_active(old(rows)@)
                &&& spec_has_version(old(rows)@, 1)
                &&& final(rows)@ == old(rows)@
                &&& *final(kek_cache) == *old(kek_cache)
            },
        },
{
    let ghost prior_rows = rows@;
    match find_active(rows) {
        Some(i) => {
            let version = rows[i].version;
            match kek_cache.get(version) {
                Some(cached) => {
                    proof {
                        let w = choose|w: int|
                            0 <= w < rows@.len() && #[trigger] rows@[w].version == version as int
                                && spec_kek_plain(master_key@, rows@[w]) == Some(
                                kek_cache.spec_value(version as int),
                            );
                        if w != i {
                            assert(rows@[w].version != rows@[i as int].version) by {
                                if w < i {
                                    assert(rows@[w].version != rows@[i as int].version);
                                }
                            }
                        }
                    }
                    Ok((version, cached))
                },
                None => {
                    proof {
                        assert(rows@[i as int].nonce@.len() == NONCE_SIZE);
                        assert(spec_kek_plain(master_key@, rows@[i as int]) matches Some(k)
                            && k.len() == KEY_SIZE);
                    }
                    let keydata = aes::decrypt(
                        master_key,
                        &rows[i].encrypted_keydata,
                        &rows[i].nonce,
                    )?;
                    let key_copy = copy_range(&keydata, 0, keydata.len());
                    proof {
                        assert(key_copy@ =~= keydata@);
                    }
                    let ghost cache_before = *kek_cache;
                    kek_cache.insert(version, key_copy);
                    proof {
                        lemma_cache_refresh_consistent(
                            cache_before,
                            *kek_cache,
                            rows@,
                            master_key@,
                            version as int,
                            i as int,
                        );
                    }
                    Ok((version, keydata))
                },
            }
        },
        None => {
            match find_version(rows, 1) {
                Some(_) => Err(
                    AppError::Internal(String::from_str("No active KEK and version 1 is taken")),
                ),
                None => {
                    let (row, keydata) = make_kek_row(master_key, 1, true);
                    rows.push(row);
                    proof {
                        assert(rows@.subrange(0, prior_rows.len() as int) =~= prior_rows);
                        lemma_push_preserves_wf(prior_rows, rows@, master_key@, 1, true);
                    }
                    let key_copy = copy_range(&keydata, 0, keydata.len());
                    proof {
                        assert(key_copy@ =~= keydata@);
                    }
                    let ghost cache_before = *kek_cache;
                    kek_cache.insert(1, key_copy);
                    proof {
                        lemma_cache_insert_consistent(
                            cache_before,
                            *kek_cache,
                            prior_rows,
                            rows@,
                            master_key@,
                            1,
                        );
                        let n = prior_rows.len() as int;
                        assert(rows@[n].version == 1 && spec_row_active(rows@[n]) && spec_kek_plain(
                            master_key@,
                            rows@[n],
                        ) == Some(keydata@));
                        assert forall|j: int|
                            0 <= j < rows@.len() && #[trigger] spec_row_active(rows@[j]) implies
                            rows@[j].version <= 1 by {
                            if j < n {
                                assert(rows@.subrange(0, n)[j] == rows@[j]);
                                assert(spec_has_active(prior_rows));
                            }
                        }
                    }
                    Ok((1, keydata))
                },
            }
        },
    }
}

/// Gets a KEK by version, cache first.
///
/// A version no row carries is created lazily, wrapped under the master key
/// and appended; the fresh row is active only when the version is 1 and no
/// active row stands, so a single row stays active.
pub fn get_kek_by_version(
    rows: &mut Vec<KekRow>,
    version: i32,
    master_key: &Vec<u8>,
    kek_cache: &mut KekCache,
) -> (r: VaultResult<Vec<u8>>)
    requires
        master_key@.len() == KEY_SIZE,
        kek_rows_wf(old(rows)@, master_key@),
        spec_single_active(old(rows)@),
        old(kek_cache).wf(),
        spec_cache_consistent(*old(kek_cache), old(rows)@, master_key@),
    ensures
        kek_rows_wf(final(rows)@, master_key@),
        spec_single_active(final(rows)@),
        final(kek_cache).wf(),
        spec_cache_consistent(*final(kek_cache), final(rows)@, master_key@),
        match r {
            Ok(key) => {
                &&& key@.len() == KEY_SIZE
                &&& final(kek_cache).spec_contains(version as int)
                &&& final(kek_cache).spec_value(version as int) == key@
                &&& exists|i: int|
                    0 <= i < final(rows)@.len() && #[trigger] final(rows)@[i].version == version
                        && spec_kek_plain(master_key@, final(rows)@[i]) == Some(key@)
                &&& spec_has_version(old(rows)@, version as int) ==> final(rows)@ == old(rows)@
                &&& !spec_has_version(old(rows)@, version as int) ==> final(rows)@.len()
                    == old(rows)@.len() + 1 && final(rows)@.subrange(0, old(rows)@.len() as int)
                    == old(rows)@
            },
            Err(_) => false,
        },
{
    let ghost prior_rows = rows@;
    match kek_cache.get(version) {
        Some(cached) => {
            proof {
                let w = choose|w: int|
                    0 <= w < rows@.len() && #[trigger] rows@[w].version == version as int
                        && spec_kek_plain(master_key@, rows@[w]) == Some(
                        kek_cache.spec_value(version as int),
                    );
                assert(spec_kek_plain(master_key@, rows@[w]) matches Some(k) && k.len()
                    == KEY_SIZE);
            }
            Ok(cached)
        },
        None => {
            match find_version(rows, version) {
                Some(i) => {
                    proof {
                        assert(rows@[i as int].nonce@.len() == NONCE_SIZE);
                        assert(spec_kek_plain(master_key@, rows@[i as int]) matches Some(k)
                            && k.len() == KEY_SIZE);
                    }
                    let keydata = aes::decrypt(
                        master_key,
                        &rows[i].encrypted_keydata,
                        &rows[i].nonce,
                    )?;
                    let key_copy = copy_range(&keydata, 0, keydata.len());
                    proof {
                        assert(key_copy@ =~= keydata@);
                    }
                    let ghost cache_before = *kek_cache;
                    kek_cache.insert(version, key_copy);
                    proof {
                        lemma_cache_refresh_consistent(
                            cache_before,
                            *kek_cache,
                            rows@,
                            master_key@,
                            version as int,
                            i as int,
                        );
                    }
                    Ok(keydata)
                },
                None => {
                    let has_active = find_active(rows).is_some();
                    let make_active = version == 1 && !has_active;
                    let (row, keydata) = make_kek_row(master_key, version, make_active);
                    rows.push(row);
                    proof {
                        assert(rows@.subrange(0, prior_rows.len() as int) =~= prior_rows);
                        lemma_push_preserves_wf(
                            prior_rows,
                            rows@,
                            master_key@,
                            version as int,
                            make_active,
                        );
                    }
                    let key_copy = copy_range(&keydata, 0, keydata.len());
                    proof {
                        assert(key_copy@ =~= keydata@);
                    }
                    let ghost cache_before = *kek_cache;
                    kek_cache.insert(version, key_copy);
                    proof {
                        lemma_cache_insert_consistent(
                            cache_before,
                            *kek_cache,
                            prior_rows,
                            rows@,
                            master_key@,
                            version as int,
                        );
                        let n = prior_rows.len() as int;
                        assert(rows@[n].version == version && spec_kek_plain(
                            master_key@,
                            rows@[n],
                        ) == Some(keydata@));
                    }
                    Ok(keydata)
                },
            }
        },
    }
}

} // verus!
