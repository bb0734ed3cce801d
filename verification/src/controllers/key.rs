use vstd::prelude::*;

use crate::controllers::response::{Response, ResponseView};
use crate::models::directory::Directory;
use crate::models::key::{CheckKeyForm, Key};
use crate::utils::errors::{outcome, ApiError, ApiErrorView};

verus! {

/// What the question whether a key can be redeemed is answered with: an
/// empty success if it is available, else the refusal.
pub open spec fn key_answer(is_available: bool) -> Result<ResponseView, ApiErrorView> {
    if is_available {
        Ok(ResponseView::Empty)
    } else {
        Err(ApiErrorView::InvalidBetaKey)
    }
}

/// Answers whether the key of the form can be redeemed.
pub fn check_key(conn: &Directory, key_form: CheckKeyForm) -> (r: Result<Response, ApiError>)
    ensures
        outcome(r) == key_answer(conn@.is_available(key_form.key)),
{
    match Key::is_available(&key_form.key, conn) {
        Ok(is_available) => key_checked(is_available),
        Err(error) => Err(error),
    }
}

/// Answers the question once the store has told whether the key is available.
pub fn key_checked(is_available: bool) -> (r: Result<Response, ApiError>)
    ensures
        outcome(r) == key_answer(is_available),
{
    if is_available {
        Ok(Response::Empty)
    } else {
        Err(ApiError::InvalidBetaKey)
    }
}

} // verus!
