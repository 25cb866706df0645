//! Startup configuration rules: master key decoding.
//!
//! The operator provides the master key as hexadecimal text.  Startup fails
//! unless it decodes to exactly 32 bytes.

use vstd::prelude::*;
use vstd::string::{StrSliceExecFns, StringExecFns};
use crate::aes::SecureKey;
use crate::errors::{AppError, VaultResult};

verus! {

/// The value of a hexadecimal digit, upper or lower case.
pub open spec fn spec_hex_val(c: char) -> Option<u8> {
    let v = c as u32;
    if 48 <= v <= 57 {
        Some((v - 48) as u8)
    } else if 97 <= v <= 102 {
        Some((v - 87) as u8)
    } else if 65 <= v <= 70 {
        Some((v - 55) as u8)
    } else {
        None
    }
}

/// Whether every character of the sequence is a hexadecimal digit.
pub open spec fn spec_all_hex(s: Seq<char>) -> bool {
    forall|i: int| 0 <= i < s.len() ==> #[trigger] spec_hex_val(s[i]) is Some
}

/// The byte that a pair of hexadecimal digits denotes.
pub open spec fn spec_hex_byte(hi: char, lo: char) -> u8 {
    (spec_hex_val(hi).unwrap() * 16 + spec_hex_val(lo).unwrap()) as u8
}

/// The value of a hexadecimal digit, or `None` for any other character.
fn hex_val(c: char) -> (r: Option<u8>)
    ensures
        r == spec_hex_val(c),
        r matches Some(v) ==> v < 16,
{
    let v = c as u32;
    if 48 <= v && v <= 57 {
        Some((v - 48) as u8)
    } else if 97 <= v && v <= 102 {
        Some((v - 87) as u8)
    } else if 65 <= v && v <= 70 {
        Some((v - 55) as u8)
    } else {
        None
    }
}

/// Decodes the operator-provided master key.
///
/// Accepts exactly 64 hexadecimal characters — a 32-byte key — and rejects
/// anything else, so a misconfigured key stops startup.
pub fn parse_master_key(hex: &str) -> (r: VaultResult<SecureKey>)
    ensures
        r is Ok <==> (hex@.len() == 64 && spec_all_hex(hex@)),
        r matches Ok(k) ==> k@.len() == 32 && forall|i: int|
            0 <= i < 32 ==> #[trigger] k@[i] == spec_hex_byte(hex@[2 * i], hex@[2 * i + 1]),
        r matches Err(e) ==> e is Validation,
{
    let n = hex.unicode_len();
    if n != 64 {
        return Err(
            AppError::Validation(
                String::from_str("MASTER_KEY must be exactly 32 bytes (64 hex characters)"),
            ),
        );
    }
    let mut key: Vec<u8> = Vec::new();
    let mut i: usize = 0;
    while i < 32
        invariant
            hex@.len() == 64,
            i <= 32,
            key@.len() == i,
            forall|j: int|
                0 <= j < i ==> spec_hex_val(#[trigger] hex@[2 * j]) is Some && spec_hex_val(
                    hex@[2 * j + 1],
                ) is Some,
            forall|j: int| 0 <= j < i ==> #[trigger] key@[j] == spec_hex_byte(
                hex@[2 * j],
                hex@[2 * j + 1],
            ),
        decreases 32 - i,
    {
        let hi = hex.get_char(2 * i);
        let lo = hex.get_char(2 * i + 1);
        match (hex_val(hi), hex_val(lo)) {
            (Some(h), Some(l)) => {
                key.push(h * 16 + l);
            },
            _ => {
                return Err(
                    AppError::Validation(String::from_str("MASTER_KEY must be valid hexadecimal")),
                );
            },
        }
        i = i + 1;
    }
    proof {
        assert forall|p: int| 0 <= p < 64 implies #[trigger] spec_hex_val(hex@[p]) is Some by {
            let j = p / 2;
            assert(0 <= j < 32);
            if p % 2 == 0 {
                assert(p == 2 * j);
            } else {
                assert(p == 2 * j + 1);
            }
        }
    }
    Ok(SecureKey::new(key))
}

} // verus!
