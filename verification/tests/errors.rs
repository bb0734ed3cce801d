use tallii_users::utils::errors::{
    copy_strings, no_headers, ApiError, BlockingError, DatabaseError, ErrorResponse, PayloadError, PoolError,
    UserErrorResponse, ValidationErrors, ValidationErrorsKind,
};

fn internal(code: &str, message: &str) -> ApiError {
    ApiError::InternalServerError(code.to_string(), message.to_string())
}

fn body(code: &str, message: &str, errors: Option<Vec<String>>) -> UserErrorResponse {
    UserErrorResponse { code: code.to_string(), message: message.to_string(), errors }
}

#[test]
fn internal_error_is_answered_with_500() {
    assert_eq!(
        internal("DATABASE_ERROR", "Database error occurred").error_response(),
        ErrorResponse {
            status: 500,
            headers: vec![],
            body: body("DATABASE_ERROR", "Database error occurred", None),
        }
    );
}

#[test]
fn validation_error_is_answered_with_400_and_its_codes() {
    let error = ApiError::ValidationError(
        "VALIDATION_ERROR".to_string(),
        "A validation error occurred".to_string(),
        vec!["INVALID_EMAIL".to_string(), "TOO_SHORT".to_string()],
    );
    assert_eq!(
        error.error_response(),
        ErrorResponse {
            status: 400,
            headers: vec![],
            body: body(
                "VALIDATION_ERROR",
                "A validation error occurred",
                Some(vec!["INVALID_EMAIL".to_string(), "TOO_SHORT".to_string()])
            ),
        }
    );
    let none = ApiError::ValidationError("C".to_string(), "M".to_string(), vec![]);
    assert_eq!(none.error_response().body.errors, Some(vec![]));
}

#[test]
fn invalid_beta_key_is_answered_with_400() {
    assert_eq!(
        ApiError::InvalidBetaKey.error_response(),
        ErrorResponse {
            status: 400,
            headers: vec![],
            body: body("INVALID_BETA_KEY", "The provided beta key is taken or invalid", None),
        }
    );
}

#[test]
fn invalid_login_is_answered_with_400() {
    assert_eq!(
        ApiError::InvalidLogin.error_response(),
        ErrorResponse {
            status: 400,
            headers: vec![],
            body: body("INVALID_LOGIN", "The provided email and password are invalid", None),
        }
    );
}

#[test]
fn unauthorized_is_answered_with_401_and_a_challenge() {
    assert_eq!(
        ApiError::Unauthorized.error_response(),
        ErrorResponse {
            status: 401,
            headers: vec![("www-authenticate".to_string(), "Bearer".to_string())],
            body: body("UNAUTHORIZED", "Please login to continue", None),
        }
    );
}

#[test]
fn errors_describe_themselves() {
    assert_eq!(
        internal("DATABASE_ERROR", "Database error occurred").describe(),
        "An internal server error occured: DATABASE_ERROR"
    );
    assert_eq!(
        ApiError::ValidationError("VALIDATION_ERROR".to_string(), "m".to_string(), vec![])
            .describe(),
        "A validation error occurred: VALIDATION_ERROR"
    );
    assert_eq!(ApiError::InvalidBetaKey.describe(), "Beta key is invalid or taken");
    assert_eq!(
        ApiError::InvalidLogin.describe(),
        "The provided email and password are invalid"
    );
    assert_eq!(ApiError::Unauthorized.describe(), "Unauthorized. Please login to continue");
}

#[test]
fn store_failures_become_internal_errors() {
    assert_eq!(
        ApiError::from(DatabaseError::UniqueViolation),
        internal("DATABASE_UNIQUNESS_ERROR", "Uniquness database error occurred")
    );
    assert_eq!(
        ApiError::from(DatabaseError::Database),
        internal("DATABASE_ERROR", "Database error occurred")
    );
    assert_eq!(
        ApiError::from(DatabaseError::Unknown),
        internal("UNKNOWN_DATABASE_ERROR", "Unknown database error occurred")
    );
    assert_eq!(
        ApiError::from(PoolError),
        internal("DATABASE_POOL_ERROR", "Could not get connection to database")
    );
}

#[test]
fn blocking_failures_keep_the_inner_error() {
    assert_eq!(
        ApiError::from(BlockingError::Error(ApiError::InvalidLogin)),
        ApiError::InvalidLogin
    );
    assert_eq!(
        ApiError::from(BlockingError::Error(internal("A", "B"))),
        internal("A", "B")
    );
    assert_eq!(
        ApiError::from(BlockingError::Canceled),
        internal("BLOCKING_ERROR", "Thread execution was blocked")
    );
}

#[test]
fn unreadable_body_becomes_a_validation_error() {
    assert_eq!(
        ApiError::from(PayloadError),
        ApiError::ValidationError(
            "VALIDATION_ERROR".to_string(),
            "A validation error occurred".to_string(),
            vec![]
        )
    );
}

#[test]
fn validation_findings_are_listed_field_by_field() {
    let errors = ValidationErrors {
        errors: vec![
            (
                "email".to_string(),
                ValidationErrorsKind::Field(vec!["INVALID_EMAIL".to_string()]),
            ),
            ("address".to_string(), ValidationErrorsKind::Struct),
            (
                "password".to_string(),
                ValidationErrorsKind::Field(vec!["TOO_SHORT".to_string(), "TOO_PLAIN".to_string()]),
            ),
            ("phones".to_string(), ValidationErrorsKind::List),
            ("name".to_string(), ValidationErrorsKind::Field(vec![])),
        ],
    };
    assert_eq!(
        ApiError::from(errors),
        ApiError::ValidationError(
            "VALIDATION_ERROR".to_string(),
            "A validation error occurred".to_string(),
            vec!["INVALID_EMAIL".to_string(), "TOO_SHORT".to_string(), "TOO_PLAIN".to_string()]
        )
    );
    assert_eq!(
        ApiError::from(ValidationErrors::new()),
        ApiError::ValidationError(
            "VALIDATION_ERROR".to_string(),
            "A validation error occurred".to_string(),
            vec![]
        )
    );
}

#[test]
fn validation_findings_are_added_in_order() {
    let mut errors = ValidationErrors::new();
    assert!(errors.is_empty());
    errors.add("email", "INVALID_EMAIL");
    errors.add("password", "TOO_SHORT");
    assert!(!errors.is_empty());
    assert_eq!(
        errors,
        ValidationErrors {
            errors: vec![
                (
                    "email".to_string(),
                    ValidationErrorsKind::Field(vec!["INVALID_EMAIL".to_string()])
                ),
                (
                    "password".to_string(),
                    ValidationErrorsKind::Field(vec!["TOO_SHORT".to_string()])
                ),
            ]
        }
    );
}

#[test]
fn codes_of_one_field_are_joined() {
    let mut errors = ValidationErrors::new();
    errors.add("email", "INVALID_EMAIL");
    errors.add("password", "TOO_SHORT");
    errors.add("email", "TOO_LONG");
    errors.add("password", "TOO_PLAIN");
    assert_eq!(
        errors,
        ValidationErrors {
            errors: vec![
                (
                    "email".to_string(),
                    ValidationErrorsKind::Field(vec![
                        "INVALID_EMAIL".to_string(),
                        "TOO_LONG".to_string()
                    ])
                ),
                (
                    "password".to_string(),
                    ValidationErrorsKind::Field(vec![
                        "TOO_SHORT".to_string(),
                        "TOO_PLAIN".to_string()
                    ])
                ),
            ]
        }
    );

    // findings on a nested form hold no codes: the field gets an entry for them
    let mut errors = ValidationErrors {
        errors: vec![("address".to_string(), ValidationErrorsKind::Struct)],
    };
    errors.add("address", "MISSING");
    errors.add("address", "TOO_LONG");
    assert_eq!(
        errors,
        ValidationErrors {
            errors: vec![
                ("address".to_string(), ValidationErrorsKind::Struct),
                (
                    "address".to_string(),
                    ValidationErrorsKind::Field(vec!["MISSING".to_string(), "TOO_LONG".to_string()])
                ),
            ]
        }
    );
}

#[test]
fn no_headers_is_empty() {
    assert_eq!(no_headers(), Vec::<(String, String)>::new());
}

#[test]
fn error_bodies_are_made_from_tuples() {
    assert_eq!(UserErrorResponse::from(("CODE", "message")), body("CODE", "message", None));
    let code = "CODE".to_string();
    let message = "message".to_string();
    assert_eq!(UserErrorResponse::from((&code, &message)), body("CODE", "message", None));
    let codes = vec!["A".to_string(), "B".to_string()];
    assert_eq!(
        UserErrorResponse::from((&code, &message, &codes)),
        body("CODE", "message", Some(vec!["A".to_string(), "B".to_string()]))
    );
    assert_eq!(copy_strings(&codes), codes);
    assert_eq!(copy_strings(&vec![]), Vec::<String>::new());
}
