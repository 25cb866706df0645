//! The chunk-table codec: encoding is stable and decoding accepts exactly
//! what was encoded.

use cryptvault::codec::{decode_chunk_table, encode_chunk_table};
use cryptvault::upload::ChunkInfo;

fn sample_table() -> Vec<ChunkInfo> {
    vec![
        ChunkInfo::new(0, vec![1; 12], "U_0.enc".to_string(), 6291456),
        ChunkInfo::new(1, vec![2; 12], "U_1.enc".to_string(), 6291456),
        ChunkInfo::new(2, vec![3; 12], "U_2.enc".to_string(), 42),
    ]
}

#[test]
fn test_encode_decode_roundtrip() {
    let table = sample_table();
    let bytes = encode_chunk_table(&table);
    let decoded = decode_chunk_table(&bytes).unwrap();
    assert_eq!(decoded.len(), table.len());
    for (a, b) in table.iter().zip(decoded.iter()) {
        assert_eq!(a.index, b.index);
        assert_eq!(a.nonce, b.nonce);
        assert_eq!(a.filename, b.filename);
        assert_eq!(a.size_encrypted, b.size_encrypted);
    }
}

#[test]
fn test_encode_empty_table() {
    let table: Vec<ChunkInfo> = Vec::new();
    let bytes = encode_chunk_table(&table);
    assert_eq!(bytes, vec![0u8; 8]);
    assert_eq!(decode_chunk_table(&bytes).unwrap().len(), 0);
}

#[test]
fn test_encode_layout_of_one_entry() {
    let table = vec![ChunkInfo::new(1, vec![7; 12], "ab".to_string(), 3)];
    let bytes = encode_chunk_table(&table);
    // count || index || nonce || len(filename) || filename || size
    assert_eq!(bytes.len(), 8 + 8 + 12 + 8 + 2 + 8);
    assert_eq!(&bytes[0..8], &[1, 0, 0, 0, 0, 0, 0, 0]);
    assert_eq!(&bytes[8..16], &[1, 0, 0, 0, 0, 0, 0, 0]);
    assert_eq!(&bytes[16..28], &[7; 12]);
    assert_eq!(&bytes[28..36], &[2, 0, 0, 0, 0, 0, 0, 0]);
    assert_eq!(&bytes[36..38], b"ab");
    assert_eq!(&bytes[38..46], &[3, 0, 0, 0, 0, 0, 0, 0]);
}

#[test]
fn test_decode_rejects_truncation() {
    let table = sample_table();
    let mut bytes = encode_chunk_table(&table);
    bytes.pop();
    assert!(decode_chunk_table(&bytes).is_err());
    let short: Vec<u8> = vec![1, 2, 3];
    assert!(decode_chunk_table(&short).is_err());
}

#[test]
fn test_decode_rejects_trailing_bytes() {
    let table = sample_table();
    let mut bytes = encode_chunk_table(&table);
    bytes.push(0);
    assert!(decode_chunk_table(&bytes).is_err());
}

#[test]
fn test_decode_rejects_overlong_count() {
    let mut bytes = vec![0u8; 8];
    bytes[0] = 9;
    assert!(decode_chunk_table(&bytes).is_err());
}

#[test]
fn test_chunk_info_filename_roundtrip() {
    let info = ChunkInfo::new(5, vec![0; 12], "chunk name.enc".to_string(), 1);
    assert_eq!(info.get_filename().unwrap(), "chunk name.enc");
}

#[test]
fn test_chunk_info_rejects_invalid_utf8_name() {
    let mut info = ChunkInfo::new(5, vec![0; 12], "x".to_string(), 1);
    info.filename = vec![0xff, 0xfe];
    assert!(info.get_filename().is_err());
}
