use vstd::prelude::*;
use vstd::utf8::is_ascii_chars;

use crate::models::user::{User, UserView};
use crate::utils::errors::{outcome, ApiError, ApiErrorView};

verus! {

/// The seconds for which a session token is valid: seven days.
pub const VALIDITY: u64 = 604800;

/// The claims of a session token.
#[derive(Debug, PartialEq, Eq)]
pub struct Token {
    /// The number of the user whom the token speaks for.
    pub sub: i32,
    /// The email of that user.
    pub email: String,
    /// The label of the issuer.
    pub iss: String,
    /// Seconds since the epoch at which the token was issued.
    pub iat: u64,
    /// Seconds since the epoch from which the token is no longer valid.
    pub exp: u64,
}

/// The mathematical value of a [`Token`].
pub struct TokenView {
    pub sub: i32,
    pub email: Seq<char>,
    pub iss: Seq<char>,
    pub iat: u64,
    pub exp: u64,
}

impl View for Token {
    type V = TokenView;

    open spec fn view(&self) -> TokenView {
        TokenView {
            sub: self.sub,
            email: self.email@,
            iss: self.iss@,
            iat: self.iat,
            exp: self.exp,
        }
    }
}

impl DeepView for Token {
    type V = TokenView;

    open spec fn deep_view(&self) -> TokenView {
        self@
    }
}

/// What a token whose signature was verified holds under the five claim
/// names: for `sub` a signed integer, for `iat` and `exp` an unsigned one,
/// for `email` and `iss` a string; `None` where the claim is absent or of
/// another kind.
#[derive(Debug, PartialEq, Eq)]
pub struct Claims {
    pub sub: Option<i64>,
    pub email: Option<String>,
    pub iss: Option<String>,
    pub iat: Option<u64>,
    pub exp: Option<u64>,
}

/// The mathematical value of a [`Claims`].
pub struct ClaimsView {
    pub sub: Option<i64>,
    pub email: Option<Seq<char>>,
    pub iss: Option<Seq<char>>,
    pub iat: Option<u64>,
    pub exp: Option<u64>,
}

impl View for Claims {
    type V = ClaimsView;

    open spec fn view(&self) -> ClaimsView {
        ClaimsView {
            sub: self.sub,
            email: self.email.deep_view(),
            iss: self.iss.deep_view(),
            iat: self.iat,
            exp: self.exp,
        }
    }
}

impl DeepView for Claims {
    type V = ClaimsView;

    open spec fn deep_view(&self) -> ClaimsView {
        self@
    }
}

/// What a token string holds, read without a look at its signature: whether
/// its header names the algorithm HS256, and its claims.
#[derive(Debug, PartialEq, Eq)]
pub struct Payload {
    pub hs256: bool,
    pub claims: Claims,
}

/// The mathematical value of a [`Payload`].
pub struct PayloadView {
    pub hs256: bool,
    pub claims: ClaimsView,
}

impl View for Payload {
    type V = PayloadView;

    open spec fn view(&self) -> PayloadView {
        PayloadView { hs256: self.hs256, claims: self.claims@ }
    }
}

impl DeepView for Payload {
    type V = PayloadView;

    open spec fn deep_view(&self) -> PayloadView {
        self@
    }
}

/// A token that was accepted, with the claims it carried.
#[derive(Debug, PartialEq, Eq)]
pub struct TokenData {
    pub claims: Token,
}

impl View for TokenData {
    type V = TokenView;

    open spec fn view(&self) -> TokenView {
        self.claims@
    }
}

impl DeepView for TokenData {
    type V = TokenView;

    open spec fn deep_view(&self) -> TokenView {
        self@
    }
}

/// What `jsonwebtoken::encode` returns for these claims, the default header
/// and this secret as the HMAC key; `None` where it reports an error.
pub uninterp spec fn signed_token(claims: TokenView, secret: Seq<char>) -> Option<Seq<char>>;

/// What `jsonwebtoken::crypto::verify` answers for a signature and the
/// message it should sign, with the algorithm HS256 and this secret as the
/// HMAC key: whether the signature is that of the message; `None` where it
/// reports an error.
pub uninterp spec fn signature_check(
    message: Seq<char>,
    signature: Seq<char>,
    secret: Seq<char>,
) -> Option<bool>;

/// What `jsonwebtoken::dangerous_insecure_decode` finds in a token string:
/// whether its header names HS256, and what its claims hold under the five
/// claim names; `None` where it reports an error.
pub uninterp spec fn unverified_payload(token: Seq<char>) -> Option<PayloadView>;

/// Whether the last dot of a token string stands at place `i`.
pub open spec fn is_last_dot(token: Seq<char>, i: int) -> bool {
    0 <= i < token.len() && token[i] == '.' && forall|j: int|
        i < j < token.len() ==> token[j] != '.'
}

/// The two parts of a token string: the message, before its last dot, and
/// the signature, after it. A string outside ASCII or without a dot has none.
pub open spec fn token_parts(token: Seq<char>) -> Option<(Seq<char>, Seq<char>)> {
    if is_ascii_chars(token) && exists|i: int| is_last_dot(token, i) {
        let i = choose|i: int| is_last_dot(token, i);
        Some((token.subrange(0, i), token.subrange(i + 1, token.len() as int)))
    } else {
        None
    }
}

/// The claims that a signature check and a payload admit: those of the
/// payload, if the signature is that of the message and the header names
/// HS256.
pub open spec fn admitted(checked: Option<bool>, payload: Option<PayloadView>) -> Option<
    ClaimsView,
> {
    match (checked, payload) {
        (Some(true), Some(found)) => if found.hs256 {
            Some(found.claims)
        } else {
            None
        },
        _ => None,
    }
}

/// The claims of a token string whose signature verifies under a secret:
/// the string has a message and a signature, the signature is that of the
/// message under the secret, and the header names HS256. The expiry is not
/// looked at.
pub open spec fn verified_claims(token: Seq<char>, secret: Seq<char>) -> Option<ClaimsView> {
    match token_parts(token) {
        Some((message, signature)) => admitted(
            signature_check(message, signature, secret),
            unverified_payload(token),
        ),
        None => None,
    }
}

/// The claim set that a token is written as.
pub open spec fn claims_of(token: TokenView) -> ClaimsView {
    ClaimsView {
        sub: Some(token.sub as i64),
        email: Some(token.email),
        iss: Some(token.iss),
        iat: Some(token.iat),
        exp: Some(token.exp),
    }
}

/// The token that a claim set is read as: all five claims must be there, and
/// the subject must be the number of a user.
pub open spec fn token_of(claims: ClaimsView) -> Option<TokenView> {
    match (claims.sub, claims.email, claims.iss, claims.iat, claims.exp) {
        (Some(sub), Some(email), Some(iss), Some(iat), Some(exp)) => if i32::MIN <= sub
            <= i32::MAX {
            Some(TokenView { sub: sub as i32, email, iss, iat, exp })
        } else {
            None
        },
        _ => None,
    }
}

/// The token that is issued to a user at a given time.
pub open spec fn issued(user: UserView, now: u64) -> TokenView {
    TokenView {
        sub: user.id,
        email: user.email,
        iss: "tallii"@,
        iat: now,
        exp: (now + VALIDITY) as u64,
    }
}

/// What the check of a verified claim set at a given time answers: the
/// token, if the claims are a token that has not expired; else the refusal.
pub open spec fn accepted(claims: Option<ClaimsView>, now: u64) -> Result<TokenView, ApiErrorView> {
    match claims {
        Some(found) => match token_of(found) {
            Some(token) => if now < token.exp {
                Ok(token)
            } else {
                Err(ApiErrorView::Unauthorized)
            },
            None => Err(ApiErrorView::Unauthorized),
        },
        None => Err(ApiErrorView::Unauthorized),
    }
}

/// What the validation of a token string under a secret at a given time
/// answers.
pub open spec fn validated(token: Seq<char>, secret: Seq<char>, now: u64) -> Result<
    TokenView,
    ApiErrorView,
> {
    accepted(verified_claims(token, secret), now)
}

/// The error that a token which could not be signed is reported as.
pub open spec fn signing_failure() -> ApiErrorView {
    ApiErrorView::InternalServerError("TOKEN_ERROR"@, "The token could not be signed"@)
}

/// Calls `jsonwebtoken::encode` with the default header (HS256), the five
/// claims as a JSON object and the secret's bytes as the key. Not proved:
/// that the answer is the named result, with every error mapped to `None`;
/// that a token comes back, since with an HMAC key, that header and a JSON
/// object of numbers and strings no step of `encode` can fail; and that the
/// token is three base64 strings joined by dots, of which the last is the
/// signature that `jsonwebtoken::crypto::verify` accepts under the same
/// secret for what stands before it, and from which
/// `jsonwebtoken::dangerous_insecure_decode` reads HS256 and the five claims
/// as they were written.
#[verifier::external_body]
fn sign(claims: &Token, secret: &str) -> (r: Option<String>)
    ensures
        r.deep_view() == signed_token(claims@, secret@),
        r is Some,
        r matches Some(token) ==> verified_claims(token@, secret@) == Some(claims_of(claims@)),
{
    let mut object = serde_json::Map::new();
    object.insert("sub".to_string(), serde_json::Value::from(claims.sub));
    object.insert("email".to_string(), serde_json::Value::from(claims.email.as_str()));
    object.insert("iss".to_string(), serde_json::Value::from(claims.iss.as_str()));
    object.insert("iat".to_string(), serde_json::Value::from(claims.iat));
    object.insert("exp".to_string(), serde_json::Value::from(claims.exp));
    let key = jsonwebtoken::EncodingKey::from_secret(secret.as_bytes());
    jsonwebtoken::encode(&jsonwebtoken::Header::default(), &object, &key).ok()
}

/// Calls `jsonwebtoken::crypto::verify` with the algorithm HS256 and the
/// secret's bytes as the key, which signs the message again and compares.
/// Not proved: that the answer is the named result, with every error mapped
/// to `None`.
#[verifier::external_body]
fn check_signature(message: &str, signature: &str, secret: &str) -> (r: Option<bool>)
    ensures
        r == signature_check(message@, signature@, secret@),
{
    let key = jsonwebtoken::DecodingKey::from_secret(secret.as_bytes());
    jsonwebtoken::crypto::verify(signature, message, &key, jsonwebtoken::Algorithm::HS256).ok()
}

/// Calls `jsonwebtoken::dangerous_insecure_decode`, which decodes header and
/// claims and checks neither signature nor expiry, and reads the algorithm
/// and the five claims from what comes back. Not proved: that the answer is
/// the named result, with every error mapped to `None`.
#[verifier::external_body]
fn read_payload(token: &str) -> (r: Option<Payload>)
    ensures
        r.deep_view() == unverified_payload(token@),
{
    let data = jsonwebtoken::dangerous_insecure_decode::<serde_json::Map<String, serde_json::Value>>(token).ok()?;
    let claims = Claims {
        sub: data.claims.get("sub").and_then(|v| v.as_i64()),
        email: data.claims.get("email").and_then(|v| v.as_str()).map(String::from),
        iss: data.claims.get("iss").and_then(|v| v.as_str()).map(String::from),
        iat: data.claims.get("iat").and_then(|v| v.as_u64()),
        exp: data.claims.get("exp").and_then(|v| v.as_u64()),
    };
    Some(Payload { hs256: data.header.alg == jsonwebtoken::Algorithm::HS256, claims })
}

/// The last dot of a token string is the only place that is one.
pub proof fn lemma_last_dot(token: Seq<char>, i: int)
    requires
        is_ascii_chars(token),
        is_last_dot(token, i),
    ensures
        token_parts(token) == Some(
            (token.subrange(0, i), token.subrange(i + 1, token.len() as int)),
        ),
{
    let k = choose|k: int| is_last_dot(token, k);
    if k < i {
        assert(token[i] != '.');
    } else if i < k {
        assert(token[k] != '.');
    }
}

/// Splits a token string at its last dot into the message and the signature.
pub fn split_token<'a>(token: &'a str) -> (r: Option<(&'a str, &'a str)>)
    ensures
        match r {
            Some((message, signature)) => token_parts(token@) == Some((message@, signature@)),
            None => token_parts(token@) is None,
        },
{
    if !token.is_ascii() {
        return None;
    }
    let n = token.unicode_len();
    let mut i = n;
    while i > 0
        invariant
            i <= n,
            n == token@.len(),
            is_ascii_chars(token@),
            forall|j: int| i <= j < n ==> token@[j] != '.',
        decreases i,
    {
        i -= 1;
        let byte = token.get_ascii(i);
        assert('.' as u8 == 46u8);
        if byte == 46 {
            assert(token@[i as int] == '.');
            proof {
                lemma_last_dot(token@, i as int);
            }
            return Some((token.substring_ascii(0, i), token.substring_ascii(i + 1, n)));
        }
        assert(token@[i as int] != '.');
    }
    assert(forall|i: int| !is_last_dot(token@, i));
    None
}

/// The claims that a signature check and a payload admit.
pub fn claims_under(checked: Option<bool>, payload: Option<Payload>) -> (r: Option<Claims>)
    ensures
        r.deep_view() == admitted(checked, payload.deep_view()),
{
    match (checked, payload) {
        (Some(true), Some(found)) => if found.hs256 {
            Some(found.claims)
        } else {
            None
        },
        _ => None,
    }
}

/// The claims of a token string whose signature verifies under the secret.
/// No clock is read.
pub fn verify_signature(token: &str, secret: &str) -> (r: Option<Claims>)
    ensures
        r.deep_view() == verified_claims(token@, secret@),
{
    match split_token(token) {
        Some((message, signature)) => {
            let checked = check_signature(message, signature, secret);
            match checked {
                Some(true) => claims_under(checked, read_payload(token)),
                _ => None,
            }
        },
        None => None,
    }
}

impl Token {
    /// The token that is issued to a user at time `now`: it names the user,
    /// and is valid for seven days.
    pub fn from_user(user: &User, now: u64) -> (r: Token)
        requires
            now + VALIDITY <= u64::MAX,
        ensures
            r@ == issued(user@, now),
    {
        Token {
            sub: user.id,
            email: user.email.clone(),
            iss: String::from_str("tallii"),
            iat: now,
            exp: now + VALIDITY,
        }
    }

    /// Reads a claim set as a token.
    pub fn from_claims(claims: Claims) -> (r: Option<Token>)
        ensures
            r.deep_view() == token_of(claims@),
    {
        match (claims.sub, claims.email, claims.iss, claims.iat, claims.exp) {
            (Some(sub), Some(email), Some(iss), Some(iat), Some(exp)) => {
                if i32::MIN as i64 <= sub && sub <= i32::MAX as i64 {
                    Some(Token { sub: sub as i32, email, iss, iat, exp })
                } else {
                    None
                }
            },
            _ => None,
        }
    }

    /// Checks a verified claim set at time `now`: the claims must be a
    /// token, and `now` must be before its expiry. Everything else is
    /// unauthorized.
    pub fn validate(claims: Option<Claims>, now: u64) -> (r: Result<TokenData, ApiError>)
        ensures
            outcome(r) == accepted(claims.deep_view(), now),
    {
        match claims {
            Some(found) => match Token::from_claims(found) {
                Some(token) => if now < token.exp {
                    Ok(TokenData { claims: token })
                } else {
                    Err(ApiError::Unauthorized)
                },
                None => Err(ApiError::Unauthorized),
            },
            None => Err(ApiError::Unauthorized),
        }
    }

    /// Validates a token string at time `now`: the signature must verify
    /// under the secret, the claims must be a token, and `now` must be before
    /// its expiry. Everything else is unauthorized.
    pub fn decode(token: &str, secret: &str, now: u64) -> (r: Result<TokenData, ApiError>)
        ensures
            outcome(r) == validated(token@, secret@, now),
    {
        Token::validate(verify_signature(token, secret), now)
    }

    /// Reports what the signer answered: the token string, or the error for
    /// a token that could not be signed.
    pub fn signed(token: Option<String>) -> (r: Result<String, ApiError>)
        ensures
            match token {
                Some(text) => r == Ok::<String, ApiError>(text),
                None => r matches Err(error) && error@ == signing_failure(),
            },
    {
        match token {
            Some(text) => Ok(text),
            None => Err(
                ApiError::InternalServerError(
                    String::from_str("TOKEN_ERROR"),
                    String::from_str("The token could not be signed"),
                ),
            ),
        }
    }

    /// Signs the token under the secret. A token string always comes back.
    /// Under the same secret its signature verifies and its claims are
    /// these very claims: it validates to them at every time before the
    /// expiry, and is unauthorized from the expiry on.
    pub fn encode(&self, secret: &str) -> (r: Result<String, ApiError>)
        ensures
            r matches Ok(token) && signed_token(self@, secret@) == Some(token@) && verified_claims(
                token@,
                secret@,
            ) == Some(claims_of(self@)),
            r matches Ok(token) ==> forall|now: u64|
                #[trigger] validated(token@, secret@, now) == if now < self.exp {
                    Ok::<TokenView, ApiErrorView>(self@)
                } else {
                    Err::<TokenView, ApiErrorView>(ApiErrorView::Unauthorized)
                },
    {
        Token::signed(sign(self, secret))
    }
}

/// A claim set that was written from a token is read as that token.
pub proof fn lemma_claims_round_trip(token: TokenView)
    ensures
        token_of(claims_of(token)) == Some(token),
{
}

/// Validation accepts a token only before its expiry: at the expiry and
/// after it, whatever the signature, the answer is unauthorized.
pub proof fn lemma_expired_is_unauthorized(token: Seq<char>, secret: Seq<char>, now: u64)
    ensures
        validated(token, secret, now) matches Ok(claims) ==> now < claims.exp,
        validated(token, secret, now) matches Err(error) ==> error == ApiErrorView::Unauthorized,
        forall|claims: TokenView|
            verified_claims(token, secret) == Some(claims_of(claims)) && claims.exp <= now
                ==> validated(token, secret, now) == Err::<TokenView, ApiErrorView>(
                ApiErrorView::Unauthorized,
            ),
{
}

} // verus!
