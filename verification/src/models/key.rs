use vstd::prelude::*;

use crate::models::directory::Directory;
use crate::models::user::User;
use crate::utils::errors::ApiError;

verus! {

/// An invitation key as the store holds it. Its identifier is a 128-bit
/// value, and its only attribute: a key is consumed once a user refers to it.
#[derive(Debug, Clone, Copy, PartialEq, Eq)]
pub struct Key {
    pub id: u128,
}

/// The form by which a caller asks whether a key can still be redeemed.
#[derive(Debug, Clone, Copy, PartialEq, Eq)]
pub struct CheckKeyForm {
    pub key: u128,
}

impl Key {
    /// Tells whether a key with this identifier was issued.
    pub fn has_key(key: &u128, conn: &Directory) -> (r: Result<bool, ApiError>)
        ensures
            r == Ok::<bool, ApiError>(conn@.has_key(*key)),
    {
        let beta_key = conn.find_key(*key);
        Ok(beta_key.is_some())
    }

    /// Tells whether the key can be redeemed: it was issued and no user
    /// refers to it. Nothing is stored about a key being used; the answer is
    /// derived from the users.
    pub fn is_available(key: &u128, conn: &Directory) -> (r: Result<bool, ApiError>)
        ensures
            r == Ok::<bool, ApiError>(conn@.is_available(*key)),
    {
        let is_taken = conn.find_user_by_key(*key);
        let is_valid = conn.find_key(*key);
        Ok(Key::redeemable(&is_taken, &is_valid))
    }

    /// Decides from the two lookups whether a key can be redeemed: the key
    /// was found, and no user who refers to it.
    pub fn redeemable(is_taken: &Option<User>, is_valid: &Option<Key>) -> (r: bool)
        ensures
            r == (is_taken.is_none() && is_valid.is_some()),
    {
        is_taken.is_none() && is_valid.is_some()
    }
}

} // verus!
