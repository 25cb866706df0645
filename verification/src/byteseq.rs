//! Small verified helpers on byte vectors.

use vstd::prelude::*;

verus! {

/// Whether every byte of the sequence is zero.
pub open spec fn all_zero(s: Seq<u8>) -> bool {
    forall|i: int| 0 <= i < s.len() ==> s[i] == 0
}

/// Copies `v[from..to]` into a fresh vector.
pub fn copy_range(v: &Vec<u8>, from: usize, to: usize) -> (r: Vec<u8>)
    requires
        from <= to <= v@.len(),
    ensures
        r@ == v@.subrange(from as int, to as int),
{
    let mut out: Vec<u8> = Vec::new();
    let mut i: usize = from;
    while i < to
        invariant
            from <= i <= to <= v@.len(),
            out@ == v@.subrange(from as int, i as int),
        decreases to - i,
    {
        out.push(v[i]);
        i = i + 1;
        proof {
            assert(out@ =~= v@.subrange(from as int, i as int));
        }
    }
    out
}

/// Returns a vector of `n` zero bytes.
pub fn zero_bytes(n: usize) -> (r: Vec<u8>)
    ensures
        r@.len() == n,
        all_zero(r@),
{
    let mut out: Vec<u8> = Vec::new();
    let mut i: usize = 0;
    while i < n
        invariant
            i <= n,
            out@.len() == i,
            all_zero(out@),
        decreases n - i,
    {
        out.push(0u8);
        i = i + 1;
    }
    out
}

/// Overwrites every byte of the vector with zero, in place.
///
/// Used to blank transient key material before its buffer is dropped.  This
/// is best-effort hygiene: copies left behind by moves or reallocations are
/// out of its reach.
pub fn wipe(v: &mut Vec<u8>)
    ensures
        final(v)@.len() == old(v)@.len(),
        all_zero(final(v)@),
{
    let n = v.len();
    let mut i: usize = 0;
    while i < n
        invariant
            n == v@.len(),
            i <= n,
            forall|j: int| 0 <= j < i ==> v@[j] == 0,
        decreases n - i,
    {
        v[i] = 0u8;
        i = i + 1;
    }
}

/// Whether every byte of the vector is zero.
pub fn is_all_zero(v: &Vec<u8>) -> (r: bool)
    ensures
        r == all_zero(v@),
{
    let mut i: usize = 0;
    while i < v.len()
        invariant
            i <= v@.len(),
            forall|j: int| 0 <= j < i ==> v@[j] == 0,
        decreases v@.len() - i,
    {
        if v[i] != 0 {
            return false;
        }
        i = i + 1;
    }
    true
}

} // verus!
