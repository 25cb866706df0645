//! Binary codec for the chunk table.
//!
//! A finalized file's chunk table is stored as one length-prefixed byte
//! string: the entry count, then each entry as
//! `index || nonce || len(filename) || filename || size`, all integers as
//! 64-bit little-endian.  The encoder produces exactly
//! [`spec_encode_chunk_table`]; the decoder accepts exactly the byte strings
//! some table encodes to, and returns such a table.

use vstd::prelude::*;
use vstd::bytes::{
    lemma_auto_spec_u64_to_from_le_bytes, spec_u64_from_le_bytes, spec_u64_to_le_bytes,
    u64_from_le_bytes, u64_to_le_bytes,
};
use vstd::string::StringExecFns;
use crate::aes::NONCE_SIZE;
use crate::byteseq::copy_range;
use crate::errors::{AppError, VaultResult};
use crate::upload::ChunkInfo;

verus! {

/// The byte form of one chunk-table entry.
pub open spec fn spec_encode_chunk_info(ci: ChunkInfo) -> Seq<u8> {
    spec_u64_to_le_bytes(ci.index as u64) + ci.nonce@ + spec_u64_to_le_bytes(
        ci.filename@.len() as u64,
    ) + ci.filename@ + spec_u64_to_le_bytes(ci.size_encrypted as u64)
}

/// The concatenated byte form of a run of entries.
pub open spec fn spec_encode_infos(t: Seq<ChunkInfo>) -> Seq<u8>
    decreases t.len(),
{
    if t.len() == 0 {
        Seq::empty()
    } else {
        spec_encode_chunk_info(t[0]) + spec_encode_infos(t.drop_first())
    }
}

/// The byte form of a whole chunk table: entry count, then the entries.
pub open spec fn spec_encode_chunk_table(t: Seq<ChunkInfo>) -> Seq<u8> {
    spec_u64_to_le_bytes(t.len() as u64) + spec_encode_infos(t)
}

/// Appending an entry appends its byte form.
proof fn lemma_encode_infos_push(t: Seq<ChunkInfo>, x: ChunkInfo)
    ensures
        spec_encode_infos(t.push(x)) == spec_encode_infos(t) + spec_encode_chunk_info(x),
    decreases t.len(),
{
    if t.len() == 0 {
        assert(t.push(x)[0] == x);
        assert(t.push(x).drop_first() =~= Seq::<ChunkInfo>::empty());
        assert(spec_encode_infos(Seq::<ChunkInfo>::empty()) == Seq::<u8>::empty());
        assert(spec_encode_infos(t.push(x)) == spec_encode_chunk_info(x) + Seq::<u8>::empty());
        assert(spec_encode_chunk_info(x) + Seq::<u8>::empty() =~= Seq::<u8>::empty()
            + spec_encode_chunk_info(x));
    } else {
        assert(t.push(x)[0] == t[0]);
        assert(t.push(x).drop_first() =~= t.drop_first().push(x));
        lemma_encode_infos_push(t.drop_first(), x);
        assert(spec_encode_chunk_info(t[0]) + (spec_encode_infos(t.drop_first())
            + spec_encode_chunk_info(x)) =~= (spec_encode_chunk_info(t[0]) + spec_encode_infos(
            t.drop_first(),
        )) + spec_encode_chunk_info(x));
    }
}

/// Whether the encoder can represent every entry faithfully: full-size
/// nonces and file names whose length fits the 64-bit length field.
pub open spec fn spec_encodable(t: Seq<ChunkInfo>) -> bool {
    forall|i: int|
        0 <= i < t.len() ==> #[trigger] t[i].nonce@.len() == NONCE_SIZE && t[i].filename@.len()
            <= u64::MAX
}

/// Whether a table round-trips through the codec: well-formed entries whose
/// lengths fit the 64-bit fields.
pub open spec fn spec_decodable_table(t: Seq<ChunkInfo>) -> bool {
    &&& t.len() <= u64::MAX
    &&& forall|i: int|
        0 <= i < t.len() ==> (#[trigger] t[i]).wf() && t[i].filename@.len() <= u64::MAX
}

/// Whether the byte string is the encoding of some round-trippable table —
/// exactly the byte strings the decoder accepts.
pub open spec fn spec_chunk_table_decodable(bytes: Seq<u8>) -> bool {
    exists|t: Seq<ChunkInfo>|
        bytes == spec_encode_chunk_table(t) && #[trigger] spec_decodable_table(t)
}

/// Whether two chunk tables agree entry by entry on every encoded field.
pub open spec fn spec_infos_match(a: Seq<ChunkInfo>, b: Seq<ChunkInfo>) -> bool {
    &&& a.len() == b.len()
    &&& forall|i: int|
        0 <= i < a.len() ==> (#[trigger] a[i]).index == b[i].index && a[i].nonce@ == b[i].nonce@
            && a[i].filename@ == b[i].filename@ && a[i].size_encrypted == b[i].size_encrypted
}

/// Two runs of entries with the same byte form agree entry by entry.
proof fn lemma_encode_infos_injective(a: Seq<ChunkInfo>, b: Seq<ChunkInfo>)
    requires
        a.len() == b.len(),
        spec_encodable(a),
        spec_encodable(b),
        spec_encode_infos(a) == spec_encode_infos(b),
    ensures
        spec_infos_match(a, b),
    decreases a.len(),
{
    if a.len() == 0 {
        return ;
    }
    lemma_auto_spec_u64_to_from_le_bytes();
    let x = a[0];
    let y = b[0];
    let s = spec_encode_infos(a);
    let ra = spec_encode_infos(a.drop_first());
    let rb = spec_encode_infos(b.drop_first());
    let ex = spec_encode_chunk_info(x);
    let ey = spec_encode_chunk_info(y);
    assert(s == ex + ra);
    assert(s == ey + rb);
    let fx = x.filename@.len() as int;
    let fy = y.filename@.len() as int;
    assert(ex.len() == 36 + fx);
    assert(ey.len() == 36 + fy);
    // The fixed-width head: index and nonce.
    assert(s.subrange(0, 8) =~= spec_u64_to_le_bytes(x.index as u64));
    assert(s.subrange(0, 8) =~= spec_u64_to_le_bytes(y.index as u64));
    assert(x.index as u64 == y.index as u64);
    assert(x.index == y.index);
    assert(s.subrange(8, 20) =~= x.nonce@);
    assert(s.subrange(8, 20) =~= y.nonce@);
    // The length field pins the file-name length, hence the layout.
    assert(s.subrange(20, 28) =~= spec_u64_to_le_bytes(x.filename@.len() as u64));
    assert(s.subrange(20, 28) =~= spec_u64_to_le_bytes(y.filename@.len() as u64));
    assert(x.filename@.len() as u64 == y.filename@.len() as u64);
    assert(fx == fy);
    assert(s.subrange(28, 28 + fx) =~= x.filename@);
    assert(s.subrange(28, 28 + fy) =~= y.filename@);
    assert(s.subrange(28 + fx, 36 + fx) =~= spec_u64_to_le_bytes(x.size_encrypted as u64));
    assert(s.subrange(28 + fy, 36 + fy) =~= spec_u64_to_le_bytes(y.size_encrypted as u64));
    assert(x.size_encrypted as u64 == y.size_encrypted as u64);
    assert(x.size_encrypted == y.size_encrypted) by {
        let xs = x.size_encrypted;
        let ys = y.size_encrypted;
        assert((xs as u64 == ys as u64) ==> xs == ys) by (bit_vector);
    }
    // Equal heads leave equal tails; recurse on them.
    assert(ra =~= s.subrange(ex.len() as int, s.len() as int));
    assert(rb =~= s.subrange(ey.len() as int, s.len() as int));
    assert(forall|i: int|
        0 <= i < a.drop_first().len() ==> #[trigger] a.drop_first()[i].nonce@.len() == NONCE_SIZE
            && a.drop_first()[i].filename@.len() <= u64::MAX);
    assert(forall|i: int|
        0 <= i < b.drop_first().len() ==> #[trigger] b.drop_first()[i].nonce@.len() == NONCE_SIZE
            && b.drop_first()[i].filename@.len() <= u64::MAX);
    lemma_encode_infos_injective(a.drop_first(), b.drop_first());
    assert forall|i: int| 0 <= i < a.len() implies (#[trigger] a[i]).index == b[i].index
        && a[i].nonce@ == b[i].nonce@ && a[i].filename@ == b[i].filename@ && a[i].size_encrypted
        == b[i].size_encrypted by {
        if i > 0 {
            assert(a.drop_first()[i - 1] == a[i]);
            assert(b.drop_first()[i - 1] == b[i]);
        }
    }
}

/// The chunk-table encoding is injective: two tables with the same byte form
/// agree entry by entry on index, nonce, file name and size.  In particular
/// the table a download decodes from a stored record carries exactly the
/// nonces the upload recorded.
pub proof fn lemma_chunk_table_encoding_injective(a: Seq<ChunkInfo>, b: Seq<ChunkInfo>)
    requires
        a.len() <= u64::MAX,
        b.len() <= u64::MAX,
        spec_encodable(a),
        spec_encodable(b),
        spec_encode_chunk_table(a) == spec_encode_chunk_table(b),
    ensures
        spec_infos_match(a, b),
{
    lemma_auto_spec_u64_to_from_le_bytes();
    let s = spec_encode_chunk_table(a);
    assert(s.subrange(0, 8) =~= spec_u64_to_le_bytes(a.len() as u64));
    assert(s.subrange(0, 8) =~= spec_u64_to_le_bytes(b.len() as u64));
    assert(a.len() as u64 == b.len() as u64);
    assert(spec_encode_infos(a) =~= s.subrange(8, s.len() as int));
    assert(spec_encode_infos(b) =~= s.subrange(8, s.len() as int));
    lemma_encode_infos_injective(a, b);
}

/// Encodes one chunk-table entry.
fn encode_chunk_info(ci: &ChunkInfo) -> (r: Vec<u8>)
    requires
        ci.wf(),
    ensures
        r@ == spec_encode_chunk_info(*ci),
{
    let mut out = u64_to_le_bytes(ci.index as u64);
    let mut nonce_bytes = copy_range(&ci.nonce, 0, ci.nonce.len());
    out.append(&mut nonce_bytes);
    let mut flen_bytes = u64_to_le_bytes(ci.filename.len() as u64);
    out.append(&mut flen_bytes);
    let mut fname_bytes = copy_range(&ci.filename, 0, ci.filename.len());
    out.append(&mut fname_bytes);
    let mut size_bytes = u64_to_le_bytes(ci.size_encrypted as u64);
    out.append(&mut size_bytes);
    proof {
        assert(ci.nonce@.subrange(0, ci.nonce@.len() as int) =~= ci.nonce@);
        assert(ci.filename@.subrange(0, ci.filename@.len() as int) =~= ci.filename@);
        assert(out@ =~= spec_encode_chunk_info(*ci));
    }
    out
}

/// Encodes a chunk table for storage on the file record.
pub fn encode_chunk_table(table: &Vec<ChunkInfo>) -> (r: Vec<u8>)
    requires
        forall|i: int| 0 <= i < table@.len() ==> (#[trigger] table@[i]).wf(),
    ensures
        r@ == spec_encode_chunk_table(table@),
{
    let n = table.len();
    let mut out = u64_to_le_bytes(n as u64);
    let mut i: usize = 0;
    proof {
        assert(table@.subrange(0, 0) =~= Seq::<ChunkInfo>::empty());
    }
    while i < n
        invariant
            n == table@.len(),
            i <= n,
            forall|j: int| 0 <= j < table@.len() ==> (#[trigger] table@[j]).wf(),
            out@ == spec_u64_to_le_bytes(n as u64) + spec_encode_infos(table@.subrange(0, i as int)),
        decreases n - i,
    {
        let mut piece = encode_chunk_info(&table[i]);
        out.append(&mut piece);
        proof {
            assert(table@.subrange(0, i + 1) =~= table@.subrange(0, i as int).push(
                table@[i as int],
            ));
            lemma_encode_infos_push(table@.subrange(0, i as int), table@[i as int]);
            assert(out@ =~= spec_u64_to_le_bytes(n as u64) + spec_encode_infos(
                table@.subrange(0, i + 1),
            ));
        }
        i = i + 1;
    }
    proof {
        assert(table@.subrange(0, n as int) =~= table@);
    }
    out
}

/// Reads the 64-bit little-endian integer at `pos`.
fn read_u64_at(bytes: &Vec<u8>, pos: usize) -> (x: u64)
    requires
        pos + 8 <= bytes@.len(),
    ensures
        x == spec_u64_from_le_bytes(bytes@.subrange(pos as int, pos as int + 8)),
{
    let blen = bytes.len();
    proof {
        assert(pos + 8 <= blen);
    }
    let b = copy_range(bytes, pos, pos + 8);
    u64_from_le_bytes(b.as_slice())
}

/// Decodes a stored chunk table.
///
/// Succeeds exactly on the byte strings some round-trippable table encodes
/// to, and returns such a table; anything else — truncation, trailing bytes,
/// out-of-range integers — is rejected as a corrupted record.
#[verifier::rlimit(80)]
pub fn decode_chunk_table(bytes: &Vec<u8>) -> (r: VaultResult<Vec<ChunkInfo>>)
    ensures
        r is Ok <==> spec_chunk_table_decodable(bytes@),
        match r {
            Ok(t) => {
                &&& bytes@ == spec_encode_chunk_table(t@)
                &&& forall|i: int| 0 <= i < t@.len() ==> (#[trigger] t@[i]).wf()
            },
            Err(e) => e is Internal,
        },
{
    let ghost dec = spec_chunk_table_decodable(bytes@);
    let ghost t0: Seq<ChunkInfo> = if dec {
        choose|t: Seq<ChunkInfo>|
            bytes@ == spec_encode_chunk_table(t) && #[trigger] spec_decodable_table(t)
    } else {
        Seq::empty()
    };
    let total = bytes.len();
    proof {
        if dec {
            lemma_auto_spec_u64_to_from_le_bytes();
            assert(bytes@ == spec_u64_to_le_bytes(t0.len() as u64) + spec_encode_infos(t0));
            assert(spec_u64_to_le_bytes(t0.len() as u64).len() == 8);
            assert(bytes@.len() >= 8);
        }
    }
    if total < 8 {
        return Err(AppError::Internal(String::from_str("Chunk table truncated")));
    }
    let count = read_u64_at(bytes, 0);
    let mut table: Vec<ChunkInfo> = Vec::new();
    let mut pos: usize = 8;
    let mut k: u64 = 0;
    proof {
        lemma_auto_spec_u64_to_from_le_bytes();
        assert(bytes@.subrange(8, 8) =~= Seq::<u8>::empty());
        if dec {
            assert(bytes@.subrange(0, 8) =~= spec_u64_to_le_bytes(t0.len() as u64));
            assert(count == t0.len() as u64);
            assert(t0.skip(0) =~= t0);
            assert(bytes@.subrange(8, total as int) =~= spec_encode_infos(t0));
        }
    }
    while k < count
        invariant
            total == bytes@.len(),
            table@.len() == k,
            k <= count,
            8 <= pos <= total,
            bytes@.subrange(0, 8) == spec_u64_to_le_bytes(count),
            bytes@.subrange(8, pos as int) == spec_encode_infos(table@),
            forall|i: int|
                0 <= i < table@.len() ==> (#[trigger] table@[i]).wf()
                    && table@[i].filename@.len() <= u64::MAX,
            dec == spec_chunk_table_decodable(bytes@),
            dec ==> bytes@ == spec_encode_chunk_table(t0) && spec_decodable_table(t0),
            dec ==> count == t0.len() as u64 && bytes@.subrange(pos as int, total as int)
                == spec_encode_infos(t0.skip(k as int)),
        decreases count - k,
    {
        let ghost table_before = table@;
        let ghost pos_before = pos as int;
        proof {
            if dec {
                lemma_auto_spec_u64_to_from_le_bytes();
                let rest = t0.skip(k as int);
                assert(rest.len() == t0.len() - k);
                assert(rest[0] == t0[k as int]);
                assert(rest.drop_first() =~= t0.skip(k as int + 1));
                assert(spec_encode_infos(rest) == spec_encode_chunk_info(t0[k as int])
                    + spec_encode_infos(t0.skip(k as int + 1)));
                let x = t0[k as int];
                assert(x.wf() && x.filename@.len() <= u64::MAX);
                let e = spec_encode_chunk_info(x);
                let fl = x.filename@.len() as int;
                assert(e == spec_u64_to_le_bytes(x.index as u64) + x.nonce@ + spec_u64_to_le_bytes(
                    x.filename@.len() as u64,
                ) + x.filename@ + spec_u64_to_le_bytes(x.size_encrypted as u64));
                assert(e.len() == 36 + fl);
                assert(total - pos >= e.len());
                assert(bytes@.subrange(pos as int, pos as int + e.len()) =~= e);
                assert(e.subrange(0, 8) =~= spec_u64_to_le_bytes(x.index as u64));
                assert(e.subrange(20, 28) =~= spec_u64_to_le_bytes(x.filename@.len() as u64));
                assert(e.subrange(28 + fl, 36 + fl) =~= spec_u64_to_le_bytes(
                    x.size_encrypted as u64,
                ));
                assert(bytes@.subrange(pos as int, pos as int + 8) =~= e.subrange(0, 8));
                assert(bytes@.subrange(pos as int + 20, pos as int + 28) =~= e.subrange(20, 28));
                assert(bytes@.subrange(pos as int + 28 + fl, pos as int + 36 + fl) =~= e.subrange(
                    28 + fl,
                    36 + fl,
                ));
                assert(x.size_encrypted as u64 <= i64::MAX as u64);
            }
        }
        if total - pos < 8 {
            return Err(AppError::Internal(String::from_str("Chunk table truncated")));
        }
        let index_u64 = read_u64_at(bytes, pos);
        if index_u64 > usize::MAX as u64 {
            return Err(AppError::Internal(String::from_str("Chunk index out of range")));
        }
        let pos2 = pos + 8;
        if total - pos2 < NONCE_SIZE {
            return Err(AppError::Internal(String::from_str("Chunk table truncated")));
        }
        let nonce = copy_range(bytes, pos2, pos2 + NONCE_SIZE);
        let pos3 = pos2 + NONCE_SIZE;
        if total - pos3 < 8 {
            return Err(AppError::Internal(String::from_str("Chunk table truncated")));
        }
        let flen = read_u64_at(bytes, pos3);
        let pos4 = pos3 + 8;
        if flen > (total - pos4) as u64 {
            return Err(AppError::Internal(String::from_str("Chunk table truncated")));
        }
        let flen_us = flen as usize;
        let fname = copy_range(bytes, pos4, pos4 + flen_us);
        let pos5 = pos4 + flen_us;
        if total - pos5 < 8 {
            return Err(AppError::Internal(String::from_str("Chunk table truncated")));
        }
        let size_u64 = read_u64_at(bytes, pos5);
        if size_u64 > i64::MAX as u64 {
            return Err(AppError::Internal(String::from_str("Chunk size out of range")));
        }
        let pos6 = pos5 + 8;
        let ci = ChunkInfo {
            index: index_u64 as usize,
            nonce,
            filename: fname,
            size_encrypted: size_u64 as i64,
        };
        proof {
            lemma_auto_spec_u64_to_from_le_bytes();
            assert(bytes@.subrange(pos as int, pos2 as int) == spec_u64_to_le_bytes(
                ci.index as u64,
            ));
            assert(bytes@.subrange(pos3 as int, pos4 as int) == spec_u64_to_le_bytes(
                ci.filename@.len() as u64,
            ));
            assert(bytes@.subrange(pos5 as int, pos6 as int) == spec_u64_to_le_bytes(
                ci.size_encrypted as u64,
            ));
            assert(bytes@.subrange(pos as int, pos6 as int) =~= bytes@.subrange(
                pos as int,
                pos2 as int,
            ) + ci.nonce@ + bytes@.subrange(pos3 as int, pos4 as int) + ci.filename@
                + bytes@.subrange(pos5 as int, pos6 as int));
            assert(bytes@.subrange(pos as int, pos6 as int) == spec_encode_chunk_info(ci));
            lemma_encode_infos_push(table_before, ci);
            assert(bytes@.subrange(8, pos6 as int) =~= bytes@.subrange(8, pos as int)
                + bytes@.subrange(pos as int, pos6 as int));
            if dec {
                lemma_auto_spec_u64_to_from_le_bytes();
                let x = t0[k as int];
                let e = spec_encode_chunk_info(x);
                let fl = x.filename@.len() as int;
                let tail = spec_encode_infos(t0.skip(k as int + 1));
                assert(bytes@.subrange(pos as int + 20, pos as int + 28) == spec_u64_to_le_bytes(
                    x.filename@.len() as u64,
                ));
                assert(flen == x.filename@.len() as u64);
                assert(e.len() == 36 + fl);
                assert(pos6 - pos == e.len());
                assert(bytes@.subrange(pos as int, total as int) == e + tail);
                assert forall|i: int| 0 <= i < total - pos6 implies #[trigger] bytes@.subrange(
                    pos6 as int,
                    total as int,
                )[i] == tail[i] by {
                    assert(bytes@.subrange(pos6 as int, total as int)[i] == bytes@.subrange(
                        pos as int,
                        total as int,
                    )[i + e.len()]);
                    assert((e + tail)[i + e.len()] == tail[i]);
                }
                assert(bytes@.subrange(pos6 as int, total as int) =~= tail);
            }
        }
        proof {
            assert(ci.filename@.len() == flen);
        }
        table.push(ci);
        pos = pos6;
        k = k + 1;
    }
    proof {
        if dec {
            assert(t0.skip(count as int) =~= Seq::<ChunkInfo>::empty());
            assert(bytes@.subrange(pos as int, total as int).len() == 0);
        }
    }
    if pos != total {
        return Err(AppError::Internal(String::from_str("Trailing bytes after chunk table")));
    }
    proof {
        lemma_auto_spec_u64_to_from_le_bytes();
        assert((table@.len() as u64) == count);
        assert(bytes@ =~= bytes@.subrange(0, 8) + bytes@.subrange(8, total as int));
        assert(spec_decodable_table(table@));
        assert(spec_chunk_table_decodable(bytes@));
    }
    Ok(table)
}

} // verus!
