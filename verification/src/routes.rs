use vstd::prelude::*;

use crate::utils::errors::{outcome, ApiError, ApiErrorView};
use crate::utils::token::{validated, Token, TokenData, TokenView};

verus! {

/// What the guard of the protected operations answers for the bearer
/// credentials of a request: the claims of a token that validates, and the
/// refusal for a token that does not or that is missing.
pub open spec fn authenticated(credentials: Option<Seq<char>>, secret: Seq<char>, now: u64) -> Result<
    TokenView,
    ApiErrorView,
> {
    match credentials {
        Some(token) => validated(token, secret, now),
        None => Err(ApiErrorView::Unauthorized),
    }
}

/// Guards the protected operations: lets a request pass, with the claims of
/// its token, only if it bears a token that validates at time `now`.
pub fn validator(credentials: Option<&str>, secret: &str, now: u64) -> (r: Result<
    TokenData,
    ApiError,
>)
    ensures
        outcome(r) == authenticated(
            match credentials {
                Some(token) => Some(token@),
                None => None,
            },
            secret@,
            now,
        ),
{
    match credentials {
        Some(token) => Token::decode(token, secret, now),
        None => Err(ApiError::Unauthorized),
    }
}

} // verus!
