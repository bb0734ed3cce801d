use vstd::prelude::*;
use vstd::utf8::{encode_utf8, is_ascii_chars};

use crate::utils::errors::{ApiError, ApiErrorView};

verus! {

/// The cost with which passwords are hashed.
pub const HASH_COST: u32 = 4;

/// What `bcrypt::verify` answers for a password and a hash: whether the
/// password matches, or `None` where it reports an error.
pub uninterp spec fn bcrypt_verify(password: Seq<char>, hash: Seq<char>) -> Option<bool>;

/// Whether a password holds a zero byte. The hasher refuses such a password,
/// so no hash was ever made from one.
pub open spec fn has_zero_byte(password: Seq<char>) -> bool {
    encode_utf8(password).contains(0u8)
}

/// The cost that a hash was made with: the number that its two digits after
/// the version stand for.
pub open spec fn cost_of(hash: Seq<char>) -> int
    recommends
        hash.len() >= 6,
{
    (hash[4] as int - '0' as int) * 10 + (hash[5] as int - '0' as int)
}

/// What the hasher makes of a stored hash when it is held against a
/// password that it accepts: `None` where the hash is malformed. The empty
/// password stands for the one that holds a zero byte, which the hasher
/// would refuse after it has read the hash.
pub open spec fn hash_reading(hash: Seq<char>) -> Option<bool> {
    bcrypt_verify(Seq::empty(), hash)
}

/// Whether a password matches a stored hash; `None` where the hash is
/// malformed, whatever the password. A hash outside ASCII is malformed, and
/// so is one that the hasher cannot read. Against a hash that can be read, a
/// password that holds a zero byte does not match: no hash was made from it.
pub open spec fn password_check(password: Seq<char>, hash: Seq<char>) -> Option<bool> {
    if !is_ascii_chars(hash) {
        None
    } else if has_zero_byte(password) {
        match hash_reading(hash) {
            Some(_) => Some(false),
            None => None,
        }
    } else {
        bcrypt_verify(password, hash)
    }
}

/// The error that a password which could not be hashed is reported as.
pub open spec fn hash_failure() -> ApiErrorView {
    ApiErrorView::InternalServerError("HASH_ERROR"@, "The password could not be hashed"@)
}

/// The error that a malformed stored hash is reported as.
pub open spec fn credential_failure() -> ApiErrorView {
    ApiErrorView::InternalServerError(
        "INVALID_CREDENTIAL_STATE"@,
        "The stored credential could not be verified"@,
    )
}

/// Calls `bcrypt::hash`, which refuses a password that holds a zero byte and
/// a cost outside 4 to 31, salts the password with 16 random bytes, and
/// formats a dollar sign, the version, a dollar sign, the cost in two digits,
/// a dollar sign, the salt in 22 characters and the digest in 31 as one ASCII
/// string. Not proved: that the string is ASCII and 60 long, that its digits
/// are the cost, and that `bcrypt::verify` accepts the same password against
/// it. Nothing is claimed of when the call succeeds.
#[verifier::external_body]
fn bcrypt_hash(password: &str, cost: u32) -> (r: Option<String>)
    ensures
        r matches Some(hash) ==> {
            &&& is_ascii_chars(hash@)
            &&& hash@.len() == 60
            &&& cost_of(hash@) == cost
            &&& bcrypt_verify(password@, hash@) == Some(true)
        },
{
    bcrypt::hash(password, cost).ok()
}

/// Calls `bcrypt::verify`, which splits the hash at fixed byte offsets (hence
/// ASCII is required), hashes the password again with the salt and cost found
/// there, and compares the digests. Not proved: that the answer is the named
/// result, with every error mapped to `None`.
#[verifier::external_body]
fn bcrypt_check(password: &str, hash: &str) -> (r: Option<bool>)
    requires
        is_ascii_chars(hash@),
    ensures
        r == bcrypt_verify(password@, hash@),
{
    bcrypt::verify(password, hash).ok()
}

/// Reports what the hasher answered: the hash, or the error for a password
/// that could not be hashed.
pub fn hash_outcome(hashed: Option<String>) -> (r: Result<String, ApiError>)
    ensures
        match hashed {
            Some(hash) => r == Ok::<String, ApiError>(hash),
            None => r matches Err(error) && error@ == hash_failure(),
        },
{
    match hashed {
        Some(hash) => Ok(hash),
        None => Err(
            ApiError::InternalServerError(
                String::from_str("HASH_ERROR"),
                String::from_str("The password could not be hashed"),
            ),
        ),
    }
}

/// Reports what the check of a password answered: whether it matched, or the
/// error for a stored hash that is malformed.
pub fn verify_outcome(checked: Option<bool>) -> (r: Result<bool, ApiError>)
    ensures
        match checked {
            Some(matched) => r == Ok::<bool, ApiError>(matched),
            None => r matches Err(error) && error@ == credential_failure(),
        },
{
    match checked {
        Some(matched) => Ok(matched),
        None => Err(
            ApiError::InternalServerError(
                String::from_str("INVALID_CREDENTIAL_STATE"),
                String::from_str("The stored credential could not be verified"),
            ),
        ),
    }
}

/// Tells whether a password holds a zero byte.
pub fn holds_zero_byte(plaintext: &str) -> (r: bool)
    ensures
        r == has_zero_byte(plaintext@),
{
    let bytes = plaintext.as_bytes();
    let mut i: usize = 0;
    while i < bytes.len()
        invariant
            i <= bytes.len(),
            bytes@ == encode_utf8(plaintext@),
            forall|j: int| 0 <= j < i ==> bytes@[j] != 0u8,
        decreases bytes.len() - i,
    {
        if bytes[i] == 0 {
            assert(bytes@[i as int] == 0u8);
            return true;
        }
        i += 1;
    }
    false
}

/// Hashes a password at the cost [`HASH_COST`], with a fresh salt. Whatever
/// the salt, a hash that comes back is 60 characters long, bears the cost,
/// and matches the password. A password that holds a zero byte cannot be
/// hashed; that, like every failure of the hasher, is an internal error.
pub fn hash(plaintext: &str) -> (r: Result<String, ApiError>)
    ensures
        match r {
            Ok(hash) => {
                &&& !has_zero_byte(plaintext@)
                &&& hash@.len() == 60
                &&& cost_of(hash@) == HASH_COST
                &&& password_check(plaintext@, hash@) == Some(true)
            },
            Err(error) => error@ == hash_failure(),
        },
{
    if holds_zero_byte(plaintext) {
        hash_outcome(None)
    } else {
        hash_outcome(bcrypt_hash(plaintext, HASH_COST))
    }
}

/// Settles the check of a password that holds a zero byte, once the hash
/// was read with the empty password in its place: no match if the hash could
/// be read, and the malformed hash if not.
pub fn refused(reading: Option<bool>) -> (r: Option<bool>)
    ensures
        r == match reading {
            Some(_) => Some(false),
            None => None,
        },
{
    match reading {
        Some(_) => Some(false),
        None => None,
    }
}

/// Tells whether a password matches a stored hash. A malformed hash is an
/// internal error, never a mismatch, whatever the password is. Against a
/// hash that can be read, a password that holds a zero byte does not match.
pub fn verify(plaintext: &str, hash: &str) -> (r: Result<bool, ApiError>)
    ensures
        match password_check(plaintext@, hash@) {
            Some(matched) => r == Ok::<bool, ApiError>(matched),
            None => r matches Err(error) && error@ == credential_failure(),
        },
{
    if !hash.is_ascii() {
        verify_outcome(None)
    } else if holds_zero_byte(plaintext) {
        proof {
            reveal_strlit("");
            assert(""@ =~= Seq::<char>::empty());
        }
        verify_outcome(refused(bcrypt_check("", hash)))
    } else {
        verify_outcome(bcrypt_check(plaintext, hash))
    }
}

} // verus!
