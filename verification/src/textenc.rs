//! Bridge between text and its UTF-8 byte form.

use vstd::prelude::*;
use vstd::utf8::{decode_utf8, valid_utf8};

verus! {

/// Relies on std's `String::from_utf8`: decodes the bytes as UTF-8, and
/// fails exactly when they are not valid UTF-8.
#[verifier::external_body]
pub fn bytes_to_string(bytes: &Vec<u8>) -> (r: Option<String>)
    ensures
        match r {
            Some(s) => valid_utf8(bytes@) && s@ == decode_utf8(bytes@),
            None => !valid_utf8(bytes@),
        },
{
    String::from_utf8(bytes.clone()).ok()
}

/// Relies on std's `String::from_iter`: builds the string holding exactly
/// these characters, in order.
#[verifier::external_body]
pub fn chars_to_string(chars: &Vec<char>) -> (r: String)
    ensures
        r@ == chars@,
{
    chars.iter().collect()
}

} // verus!
