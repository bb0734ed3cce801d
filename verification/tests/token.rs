use tallii_users::models::user::User;
use tallii_users::routes::validator;
use tallii_users::utils::errors::ApiError;
use tallii_users::utils::token::{
    claims_under, split_token, verify_signature, Claims, Payload, Token, TokenData, VALIDITY,
};

fn seconds_now() -> u64 {
    std::time::SystemTime::now()
        .duration_since(std::time::UNIX_EPOCH)
        .expect("Time went backwards")
        .as_secs()
}

fn create_token() -> Token {
    let user = User {
        id: 1,
        email: "foo@bar.com".to_string(),
        password: "password".to_string(),
        key_id: uuid::Uuid::new_v4().as_u128(),
        created_at: seconds_now(),
    };

    Token::from_user(&user, seconds_now())
}

fn fixed_token() -> Token {
    Token {
        sub: 1,
        email: "foo@bar.com".to_string(),
        iss: "tallii".to_string(),
        iat: 1,
        exp: 604801,
    }
}

/// The header, the claims of `fixed_token` and the signatures under two secrets.
const HEADER: &str = "eyJ0eXAiOiJKV1QiLCJhbGciOiJIUzI1NiJ9";
const FIXED_CLAIMS: &str =
    "eyJlbWFpbCI6ImZvb0BiYXIuY29tIiwiZXhwIjo2MDQ4MDEsImlhdCI6MSwiaXNzIjoidGFsbGlpIiwic3ViIjoxfQ";
const SIGNED_WITH_SECRET: &str = "FTWy1RoAIUttqlPehtMX4VNA6VM2VJHZCzqvVUPmHgY";
const SIGNED_WITH_OTHER: &str = "mPOPPO0zradk5Gw6S5u8ZRIcdKKxInLa6zFQxiU7z8I";

fn joined(header: &str, claims: &str, signature: &str) -> String {
    format!("{}.{}.{}", header, claims, signature)
}

#[test]
fn it_creates_token_from_user() {
    let token = create_token();

    assert!(token.email == "foo@bar.com".to_string());
}

#[test]
fn it_decodes_token() {
    let token = create_token();
    let encoded_token = token.encode("secret").expect("Failed to encode token");

    let decoded_token =
        Token::decode(&encoded_token, "secret", seconds_now()).expect("Failed to decode token");

    assert!(decoded_token.claims.email == token.email);
}

#[test]
fn token_from_user_is_valid_for_seven_days() {
    let user = User {
        id: 17,
        email: "a@b.com".to_string(),
        password: "hash".to_string(),
        key_id: 5,
        created_at: 3,
    };
    assert_eq!(VALIDITY, 60 * 60 * 24 * 7);
    assert_eq!(
        Token::from_user(&user, 1_000),
        Token {
            sub: 17,
            email: "a@b.com".to_string(),
            iss: "tallii".to_string(),
            iat: 1_000,
            exp: 605_800,
        }
    );
    assert_eq!(Token::from_user(&user, u64::MAX - VALIDITY).exp, u64::MAX);
}

#[test]
fn encode_signs_the_claims_with_the_secret() {
    let token = fixed_token();
    assert_eq!(token.encode("secret"), Ok(joined(HEADER, FIXED_CLAIMS, SIGNED_WITH_SECRET)));
    assert_eq!(token.encode("other"), Ok(joined(HEADER, FIXED_CLAIMS, SIGNED_WITH_OTHER)));
}

#[test]
fn decode_returns_the_claims_that_were_encoded() {
    let text = joined(HEADER, FIXED_CLAIMS, SIGNED_WITH_SECRET);
    assert_eq!(Token::decode(&text, "secret", 2), Ok(TokenData { claims: fixed_token() }));
    assert_eq!(Token::decode(&text, "secret", 604800), Ok(TokenData { claims: fixed_token() }));
}

#[test]
fn round_trip_keeps_every_claim() {
    let tokens = vec![
        fixed_token(),
        Token {
            sub: i32::MIN,
            email: "quote\" back\\slash \u{e9}\u{4e16}\u{1f600} \n\t\u{0}".to_string(),
            iss: String::new(),
            iat: 0,
            exp: u64::MAX,
        },
        Token {
            sub: i32::MAX,
            email: String::new(),
            iss: "tallii".to_string(),
            iat: u64::MAX,
            exp: 1,
        },
    ];
    for token in tokens {
        for secret in ["secret", "", "a much longer secret, longer than the block of the hash function is, by some margin"] {
            let text = token.encode(secret).unwrap();
            assert_ne!(text, token.email);
            let decoded = Token::decode(&text, secret, token.exp - 1).unwrap();
            assert_eq!(decoded.claims, token);
        }
    }
}

#[test]
fn expired_token_is_unauthorized() {
    let text = fixed_token().encode("secret").unwrap();
    assert!(Token::decode(&text, "secret", 604800).is_ok());
    assert_eq!(Token::decode(&text, "secret", 604801), Err(ApiError::Unauthorized));
    assert_eq!(Token::decode(&text, "secret", 604802), Err(ApiError::Unauthorized));
    assert_eq!(Token::decode(&text, "secret", u64::MAX), Err(ApiError::Unauthorized));
}

#[test]
fn token_signed_with_another_secret_is_unauthorized() {
    let text = fixed_token().encode("other").unwrap();
    assert_eq!(Token::decode(&text, "secret", 2), Err(ApiError::Unauthorized));
    assert!(Token::decode(&text, "other", 2).is_ok());
}

#[test]
fn malformed_token_is_unauthorized() {
    assert_eq!(Token::decode("", "secret", 2), Err(ApiError::Unauthorized));
    assert_eq!(Token::decode("a.jwt.token", "secret", 2), Err(ApiError::Unauthorized));
    assert_eq!(Token::decode("foo@bar.com", "secret", 2), Err(ApiError::Unauthorized));
    let cut = joined(HEADER, FIXED_CLAIMS, "");
    assert_eq!(Token::decode(&cut, "secret", 2), Err(ApiError::Unauthorized));
    // the claims of another token under the signature of this one
    let other_claims =
        "eyJzdWIiOjEsImlzcyI6InRhbGxpaSIsImlhdCI6MSwiZXhwIjo5OX0";
    let forged = joined(HEADER, other_claims, SIGNED_WITH_SECRET);
    assert_eq!(Token::decode(&forged, "secret", 2), Err(ApiError::Unauthorized));
}

#[test]
fn header_must_name_the_algorithm_of_the_signature() {
    // the header names HS384, the signature is that of HS256 under the secret
    let text = joined(
        "eyJ0eXAiOiJKV1QiLCJhbGciOiJIUzM4NCJ9",
        FIXED_CLAIMS,
        "xaPIbHHXU7RuCIBQZ7CzqpYhLIPKXvI4wHd_oaCSl-o",
    );
    assert_eq!(Token::decode(&text, "secret", 2), Err(ApiError::Unauthorized));
    assert_eq!(verify_signature(&text, "secret"), None);
    // the header names HS384, and so is the signature
    let text = joined(
        "eyJ0eXAiOiJKV1QiLCJhbGciOiJIUzM4NCJ9",
        FIXED_CLAIMS,
        "glQW_KhE4E6kCKfbgCUGPc1fkU1BhAWb25OCuu8vmlJxUoFy51cbvadvMFflHezZ",
    );
    assert_eq!(Token::decode(&text, "secret", 2), Err(ApiError::Unauthorized));
    // the header names no algorithm
    let text = joined(
        "eyJ0eXAiOiJKV1QiLCJhbGciOiJub25lIn0",
        FIXED_CLAIMS,
        "bExb1Ikk_FYr9iFEq6qq7exJMczWoevWWRWHdFRjMUM",
    );
    assert_eq!(Token::decode(&text, "secret", 2), Err(ApiError::Unauthorized));
    let text = joined("eyJ0eXAiOiJKV1QiLCJhbGciOiJub25lIn0", FIXED_CLAIMS, "");
    assert_eq!(Token::decode(&text, "secret", 2), Err(ApiError::Unauthorized));
    // a header without a type is a header
    let text = joined(
        "eyJhbGciOiJIUzI1NiJ9",
        FIXED_CLAIMS,
        "GM5be7NdANr3h5PdTUcQw_9rVoa4S-Rs15_hKnFdyuY",
    );
    assert_eq!(Token::decode(&text, "secret", 2), Ok(TokenData { claims: fixed_token() }));
}

#[test]
fn signed_nonsense_is_unauthorized() {
    // claims that are no JSON, under a signature that verifies
    let text = joined(HEADER, "bm90IGpzb24", "cDr7PCn929cfZwG8WjprlrxOBPVycDQrAIg7_Ct42ek");
    assert_eq!(Token::decode(&text, "secret", 2), Err(ApiError::Unauthorized));
    // one part too many, under a signature that verifies
    let text = format!(
        "a.{}.{}.{}",
        HEADER, FIXED_CLAIMS, "gH5vp0KlPjqs_xRjNc6wak3fyxXzFdPrEVovpzCXVIg"
    );
    assert_eq!(Token::decode(&text, "secret", 2), Err(ApiError::Unauthorized));
    // a character outside ASCII
    let text = joined(HEADER, FIXED_CLAIMS, "FTWy1RoAIUttqlPehtMX4VNA6VM2VJHZCzqvVUPmHg\u{e9}");
    assert_eq!(Token::decode(&text, "secret", 2), Err(ApiError::Unauthorized));
    let text = format!("\u{e9}{}", joined(HEADER, FIXED_CLAIMS, SIGNED_WITH_SECRET));
    assert_eq!(Token::decode(&text, "secret", 2), Err(ApiError::Unauthorized));
}

#[test]
fn token_is_split_at_its_last_dot() {
    assert_eq!(split_token("a.b.c"), Some(("a.b", "c")));
    assert_eq!(split_token("a.b."), Some(("a.b", "")));
    assert_eq!(split_token(".c"), Some(("", "c")));
    assert_eq!(split_token("."), Some(("", "")));
    assert_eq!(split_token("abc"), None);
    assert_eq!(split_token(""), None);
    assert_eq!(split_token("a.b\u{e9}.c"), None);
    let text = joined(HEADER, FIXED_CLAIMS, SIGNED_WITH_SECRET);
    let message = format!("{}.{}", HEADER, FIXED_CLAIMS);
    assert_eq!(split_token(&text), Some((message.as_str(), SIGNED_WITH_SECRET)));
}

#[test]
fn claims_need_a_signature_and_the_algorithm() {
    let claims = || Claims {
        sub: Some(5),
        email: Some("a@b.com".to_string()),
        iss: None,
        iat: Some(10),
        exp: Some(20),
    };
    let payload = |hs256: bool| Some(Payload { hs256, claims: claims() });
    assert_eq!(claims_under(Some(true), payload(true)), Some(claims()));
    assert_eq!(claims_under(Some(true), payload(false)), None);
    assert_eq!(claims_under(Some(false), payload(true)), None);
    assert_eq!(claims_under(None, payload(true)), None);
    assert_eq!(claims_under(Some(true), None), None);

    let text = joined(HEADER, FIXED_CLAIMS, SIGNED_WITH_SECRET);
    assert_eq!(
        verify_signature(&text, "secret"),
        Some(Claims {
            sub: Some(1),
            email: Some("foo@bar.com".to_string()),
            iss: Some("tallii".to_string()),
            iat: Some(1),
            exp: Some(604801),
        })
    );
    assert_eq!(verify_signature(&text, "other"), None);
}

#[test]
fn token_without_all_claims_is_unauthorized() {
    // {"sub":1,"iss":"tallii","iat":1,"exp":99}: no email
    let text = joined(
        HEADER,
        "eyJzdWIiOjEsImlzcyI6InRhbGxpaSIsImlhdCI6MSwiZXhwIjo5OX0",
        "rSAWBhtrY8IeWxywwTGTZhMndB-4rcGFGprAv081a_A",
    );
    assert_eq!(Token::decode(&text, "secret", 2), Err(ApiError::Unauthorized));
    // {"sub":2147483648,...}: not the number of a user
    let text = joined(
        HEADER,
        "eyJzdWIiOjIxNDc0ODM2NDgsImVtYWlsIjoieEB5LmNvbSIsImlzcyI6InRhbGxpaSIsImlhdCI6MSwiZXhwIjo5OX0",
        "0Ol-WqvimreORov4Z5zJfbdCBqCmG7Ezr1uBFyGXWmA",
    );
    assert_eq!(Token::decode(&text, "secret", 2), Err(ApiError::Unauthorized));
}

#[test]
fn token_from_elsewhere_is_read_by_its_claims() {
    // {"sub":-7,"email":"x@y.com","iss":"elsewhere","iat":5,"exp":18446744073709551615,"admin":true}
    let text = joined(
        HEADER,
        "eyJzdWIiOi03LCJlbWFpbCI6InhAeS5jb20iLCJpc3MiOiJlbHNld2hlcmUiLCJpYXQiOjUsImV4cCI6MTg0NDY3NDQwNzM3MDk1NTE2MTUsImFkbWluIjp0cnVlfQ",
        "BPMvowGd4QdZxU730q42co8GlB77Q6RxkgPNmMtME8A",
    );
    assert_eq!(
        Token::decode(&text, "secret", 1_700_000_000),
        Ok(TokenData {
            claims: Token {
                sub: -7,
                email: "x@y.com".to_string(),
                iss: "elsewhere".to_string(),
                iat: 5,
                exp: u64::MAX,
            }
        })
    );
}

#[test]
fn validate_checks_claims_and_expiry() {
    let claims = || Claims {
        sub: Some(5),
        email: Some("a@b.com".to_string()),
        iss: Some("tallii".to_string()),
        iat: Some(10),
        exp: Some(20),
    };
    let token = Token {
        sub: 5,
        email: "a@b.com".to_string(),
        iss: "tallii".to_string(),
        iat: 10,
        exp: 20,
    };
    assert_eq!(Token::validate(Some(claims()), 19), Ok(TokenData { claims: token }));
    assert_eq!(Token::validate(Some(claims()), 20), Err(ApiError::Unauthorized));
    assert_eq!(Token::validate(None, 0), Err(ApiError::Unauthorized));
    assert_eq!(Token::validate(Some(Claims { sub: None, ..claims() }), 0), Err(ApiError::Unauthorized));
    assert_eq!(Token::validate(Some(Claims { email: None, ..claims() }), 0), Err(ApiError::Unauthorized));
    assert_eq!(Token::validate(Some(Claims { iss: None, ..claims() }), 0), Err(ApiError::Unauthorized));
    assert_eq!(Token::validate(Some(Claims { iat: None, ..claims() }), 0), Err(ApiError::Unauthorized));
    assert_eq!(Token::validate(Some(Claims { exp: None, ..claims() }), 0), Err(ApiError::Unauthorized));
    assert_eq!(Token::from_claims(Claims { sub: Some(2147483648), ..claims() }), None);
    assert_eq!(Token::from_claims(Claims { sub: Some(-2147483649), ..claims() }), None);
    assert_eq!(Token::from_claims(Claims { sub: Some(-2147483648), ..claims() }).unwrap().sub, i32::MIN);
    assert_eq!(Token::from_claims(Claims { sub: Some(2147483647), ..claims() }).unwrap().sub, i32::MAX);
}

#[test]
fn signed_reports_what_the_signer_answered() {
    assert_eq!(Token::signed(Some("text".to_string())), Ok("text".to_string()));
    assert_eq!(
        Token::signed(None),
        Err(ApiError::InternalServerError(
            "TOKEN_ERROR".to_string(),
            "The token could not be signed".to_string()
        ))
    );
}

#[test]
fn validator_lets_only_valid_bearers_pass() {
    let text = fixed_token().encode("secret").unwrap();
    assert_eq!(validator(Some(text.as_str()), "secret", 2), Ok(TokenData { claims: fixed_token() }));
    assert_eq!(validator(Some(text.as_str()), "secret", 604801), Err(ApiError::Unauthorized));
    assert_eq!(validator(Some(text.as_str()), "other", 2), Err(ApiError::Unauthorized));
    assert_eq!(validator(Some("nonsense"), "secret", 2), Err(ApiError::Unauthorized));
    assert_eq!(validator(None, "secret", 2), Err(ApiError::Unauthorized));
}
