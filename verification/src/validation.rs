//! Request validation rules for account credentials and folder names.

use vstd::prelude::*;
use vstd::string::{StrSliceExecFns, StringSliceAdditionalSpecFns};
use vstd::string::StringExecFns;
use crate::charprops::{char_is_alphanumeric, is_alphanumeric_char};
use crate::errors::{AppError, VaultResult};

verus! {

/// Whether a character may appear in a username: alphanumeric, underscore or
/// hyphen.
pub open spec fn spec_username_char_ok(c: char) -> bool {
    char_is_alphanumeric(c) || c == '_' || c == '-'
}

/// A valid username is 3 to 255 bytes of alphanumerics, underscores and
/// hyphens.
pub open spec fn spec_username_valid(s: &str) -> bool {
    &&& 3 <= s.spec_bytes().len() <= 255
    &&& forall|i: int| 0 <= i < s@.len() ==> spec_username_char_ok(#[trigger] s@[i])
}

/// A valid password is 8 to 128 bytes long.
pub open spec fn spec_password_valid(s: &str) -> bool {
    8 <= s.spec_bytes().len() <= 128
}

/// A valid folder name is 1 to 500 bytes long.
pub open spec fn spec_folder_name_valid(s: &str) -> bool {
    1 <= s.spec_bytes().len() <= 500
}

/// Validates a username: 3 to 255 bytes, letters, numbers, underscores and
/// hyphens only.
pub fn validate_username(username: &str) -> (r: VaultResult<()>)
    ensures
        r is Ok <==> spec_username_valid(username),
        r matches Err(e) ==> e is Validation,
{
    let ulen = username.as_bytes().len();
    if ulen < 3 {
        return Err(
            AppError::Validation(String::from_str("Username must be at least 3 characters long")),
        );
    }
    if ulen > 255 {
        return Err(
            AppError::Validation(String::from_str("Username must be at most 255 characters")),
        );
    }
    let n = username.unicode_len();
    let mut i: usize = 0;
    while i < n
        invariant
            n == username@.len(),
            i <= n,
            forall|j: int| 0 <= j < i ==> spec_username_char_ok(#[trigger] username@[j]),
        decreases n - i,
    {
        let c = username.get_char(i);
        if !(is_alphanumeric_char(c) || c == '_' || c == '-') {
            return Err(
                AppError::Validation(
                    String::from_str(
                        "Username can only contain letters, numbers, underscores, and hyphens",
                    ),
                ),
            );
        }
        i = i + 1;
    }
    Ok(())
}

/// Validates a password: 8 to 128 bytes.
pub fn validate_password(password: &str) -> (r: VaultResult<()>)
    ensures
        r is Ok <==> spec_password_valid(password),
        r matches Err(e) ==> e is Validation,
{
    let plen = password.as_bytes().len();
    if plen < 8 {
        return Err(
            AppError::Validation(String::from_str("Password must be at least 8 characters long")),
        );
    }
    if plen > 128 {
        return Err(
            AppError::Validation(String::from_str("Password must be at most 128 characters")),
        );
    }
    Ok(())
}

/// Validates a folder name: 1 to 500 bytes.
pub fn validate_folder_name(name: &str) -> (r: VaultResult<()>)
    ensures
        r is Ok <==> spec_folder_name_valid(name),
        r matches Err(e) ==> e is Validation,
{
    let nlen = name.as_bytes().len();
    if nlen == 0 || nlen > 500 {
        return Err(
            AppError::Validation(
                String::from_str("Folder name must be between 1 and 500 characters"),
            ),
        );
    }
    Ok(())
}

} // verus!
