use vstd::prelude::*;

verus! {

/// What went wrong while serving a request. Every failure of a component is
/// reported to the caller as exactly one of these.
#[derive(Debug, PartialEq, Eq)]
pub enum ApiError {
    /// A failure of the store, the pool or the process: a code and a message.
    InternalServerError(String, String),
    /// Malformed input: a code, a message and the codes of the offending fields.
    ValidationError(String, String, Vec<String>),
    /// The invitation key is missing, already consumed, or lost a race.
    InvalidBetaKey,
    /// Unknown email or wrong password; the two are not told apart.
    InvalidLogin,
    /// The bearer token is missing, invalid or expired.
    Unauthorized,
}

/// The mathematical value of an [`ApiError`].
pub enum ApiErrorView {
    InternalServerError(Seq<char>, Seq<char>),
    ValidationError(Seq<char>, Seq<char>, Seq<Seq<char>>),
    InvalidBetaKey,
    InvalidLogin,
    Unauthorized,
}

impl View for ApiError {
    type V = ApiErrorView;

    open spec fn view(&self) -> ApiErrorView {
        match self {
            ApiError::InternalServerError(code, message) => ApiErrorView::InternalServerError(
                code@,
                message@,
            ),
            ApiError::ValidationError(code, message, errors) => ApiErrorView::ValidationError(
                code@,
                message@,
                errors.deep_view(),
            ),
            ApiError::InvalidBetaKey => ApiErrorView::InvalidBetaKey,
            ApiError::InvalidLogin => ApiErrorView::InvalidLogin,
            ApiError::Unauthorized => ApiErrorView::Unauthorized,
        }
    }
}

/// The mathematical value of a result whose error is an [`ApiError`].
pub open spec fn outcome<T: DeepView>(r: Result<T, ApiError>) -> Result<T::V, ApiErrorView> {
    match r {
        Ok(value) => Ok(value.deep_view()),
        Err(error) => Err(error@),
    }
}

/// The validation error that carries the given field codes.
pub open spec fn validation_failure(codes: Seq<Seq<char>>) -> ApiErrorView {
    ApiErrorView::ValidationError("VALIDATION_ERROR"@, "A validation error occurred"@, codes)
}

/// The one-line description of an error.
pub open spec fn description(error: ApiErrorView) -> Seq<char> {
    match error {
        ApiErrorView::InternalServerError(code, _) => "An internal server error occured: "@
            + code,
        ApiErrorView::ValidationError(code, _, _) => "A validation error occurred: "@ + code,
        ApiErrorView::InvalidBetaKey => "Beta key is invalid or taken"@,
        ApiErrorView::InvalidLogin => "The provided email and password are invalid"@,
        ApiErrorView::Unauthorized => "Unauthorized. Please login to continue"@,
    }
}

/// The body that a caller receives when a request fails.
#[derive(Debug, PartialEq, Eq)]
pub struct UserErrorResponse {
    pub code: String,
    pub message: String,
    pub errors: Option<Vec<String>>,
}

/// The mathematical value of a [`UserErrorResponse`].
pub struct UserErrorResponseView {
    pub code: Seq<char>,
    pub message: Seq<char>,
    pub errors: Option<Seq<Seq<char>>>,
}

impl View for UserErrorResponse {
    type V = UserErrorResponseView;

    open spec fn view(&self) -> UserErrorResponseView {
        UserErrorResponseView {
            code: self.code@,
            message: self.message@,
            errors: self.errors.deep_view(),
        }
    }
}

/// A failed request as the transport is to send it: status, headers and body.
#[derive(Debug, PartialEq, Eq)]
pub struct ErrorResponse {
    pub status: u16,
    pub headers: Vec<(String, String)>,
    pub body: UserErrorResponse,
}

/// The mathematical value of an [`ErrorResponse`].
pub struct ErrorResponseView {
    pub status: int,
    pub headers: Seq<(Seq<char>, Seq<char>)>,
    pub body: UserErrorResponseView,
}

impl View for ErrorResponse {
    type V = ErrorResponseView;

    open spec fn view(&self) -> ErrorResponseView {
        ErrorResponseView {
            status: self.status as int,
            headers: self.headers.deep_view(),
            body: self.body@,
        }
    }
}

/// The response that each error is answered with.
pub open spec fn response_of(error: ApiErrorView) -> ErrorResponseView {
    match error {
        ApiErrorView::InternalServerError(code, message) => ErrorResponseView {
            status: 500,
            headers: seq![],
            body: UserErrorResponseView { code, message, errors: None },
        },
        ApiErrorView::ValidationError(code, message, errors) => ErrorResponseView {
            status: 400,
            headers: seq![],
            body: UserErrorResponseView { code, message, errors: Some(errors) },
        },
        ApiErrorView::InvalidBetaKey => ErrorResponseView {
            status: 400,
            headers: seq![],
            body: UserErrorResponseView {
                code: "INVALID_BETA_KEY"@,
                message: "The provided beta key is taken or invalid"@,
                errors: None,
            },
        },
        ApiErrorView::InvalidLogin => ErrorResponseView {
            status: 400,
            headers: seq![],
            body: UserErrorResponseView {
                code: "INVALID_LOGIN"@,
                message: "The provided email and password are invalid"@,
                errors: None,
            },
        },
        ApiErrorView::Unauthorized => ErrorResponseView {
            status: 401,
            headers: seq![("www-authenticate"@, "Bearer"@)],
            body: UserErrorResponseView {
                code: "UNAUTHORIZED"@,
                message: "Please login to continue"@,
                errors: None,
            },
        },
    }
}

/// Copies a list of strings.
pub fn copy_strings(list: &Vec<String>) -> (r: Vec<String>)
    ensures
        r@ == list@,
        r.deep_view() == list.deep_view(),
{
    let mut copy: Vec<String> = Vec::new();
    let mut i: usize = 0;
    while i < list.len()
        invariant
            i <= list.len(),
            copy@ == list@.take(i as int),
        decreases list.len() - i,
    {
        copy.push(list[i].clone());
        assert(copy@ =~= list@.take(i + 1));
        i += 1;
    }
    assert(list@.take(list.len() as int) =~= list@);
    assert(copy.deep_view() =~= list.deep_view());
    copy
}

/// No headers.
pub fn no_headers() -> (r: Vec<(String, String)>)
    ensures
        r.deep_view() == Seq::<(Seq<char>, Seq<char>)>::empty(),
{
    let headers: Vec<(String, String)> = Vec::new();
    assert(headers.deep_view() =~= Seq::empty());
    headers
}

impl ApiError {
    /// Tells how the error is answered: the status, the headers and the body.
    pub fn error_response(&self) -> (r: ErrorResponse)
        ensures
            r@ == response_of(self@),
    {
        match self {
            ApiError::InternalServerError(code, message) => {
                let headers = no_headers();
                ErrorResponse { status: 500, headers, body: UserErrorResponse::from((code, message)) }
            },
            ApiError::ValidationError(code, message, errors) => {
                let headers = no_headers();
                ErrorResponse {
                    status: 400,
                    headers,
                    body: UserErrorResponse::from((code, message, errors)),
                }
            },
            ApiError::InvalidBetaKey => {
                let headers = no_headers();
                ErrorResponse {
                    status: 400,
                    headers,
                    body: UserErrorResponse::from(
                        ("INVALID_BETA_KEY", "The provided beta key is taken or invalid"),
                    ),
                }
            },
            ApiError::InvalidLogin => {
                let headers = no_headers();
                ErrorResponse {
                    status: 400,
                    headers,
                    body: UserErrorResponse::from(
                        ("INVALID_LOGIN", "The provided email and password are invalid"),
                    ),
                }
            },
            ApiError::Unauthorized => {
                let mut headers: Vec<(String, String)> = Vec::new();
                headers.push((String::from_str("www-authenticate"), String::from_str("Bearer")));
                assert(headers.deep_view() =~= seq![("www-authenticate"@, "Bearer"@)]);
                ErrorResponse {
                    status: 401,
                    headers,
                    body: UserErrorResponse::from(("UNAUTHORIZED", "Please login to continue")),
                }
            },
        }
    }

    /// Describes the error in one line.
    pub fn describe(&self) -> (r: String)
        ensures
            r@ == description(self@),
    {
        match self {
            ApiError::InternalServerError(code, _) => String::from_str(
                "An internal server error occured: ",
            ).concat(code.as_str()),
            ApiError::ValidationError(code, _, _) => String::from_str(
                "A validation error occurred: ",
            ).concat(code.as_str()),
            ApiError::InvalidBetaKey => String::from_str("Beta key is invalid or taken"),
            ApiError::InvalidLogin => String::from_str(
                "The provided email and password are invalid",
            ),
            ApiError::Unauthorized => String::from_str("Unauthorized. Please login to continue"),
        }
    }
}

impl From<(&str, &str)> for UserErrorResponse {
    /// A body with a code and a message, and no field codes.
    fn from(error: (&str, &str)) -> (r: UserErrorResponse)
        ensures
            r@ == (UserErrorResponseView { code: error.0@, message: error.1@, errors: None }),
    {
        UserErrorResponse {
            code: String::from_str(error.0),
            message: String::from_str(error.1),
            errors: None,
        }
    }
}

/// The result holds strings, which no specification can write down as values:
/// what `from` returns is stated in its own `ensures`, over the views.
impl vstd::std_specs::convert::FromSpecImpl<(&str, &str)> for UserErrorResponse {
    open spec fn obeys_from_spec() -> bool {
        false
    }

    open spec fn from_spec(error: (&str, &str)) -> UserErrorResponse {
        arbitrary()
    }
}

impl From<(&String, &String)> for UserErrorResponse {
    /// A body with a code and a message, and no field codes.
    fn from(error: (&String, &String)) -> (r: UserErrorResponse)
        ensures
            r@ == (UserErrorResponseView { code: error.0@, message: error.1@, errors: None }),
    {
        UserErrorResponse { code: error.0.clone(), message: error.1.clone(), errors: None }
    }
}

/// The result holds strings, which no specification can write down as values:
/// what `from` returns is stated in its own `ensures`, over the views.
impl vstd::std_specs::convert::FromSpecImpl<(&String, &String)> for UserErrorResponse {
    open spec fn obeys_from_spec() -> bool {
        false
    }

    open spec fn from_spec(error: (&String, &String)) -> UserErrorResponse {
        arbitrary()
    }
}

impl From<(&String, &String, &Vec<String>)> for UserErrorResponse {
    /// A body with a code, a message and the codes of the offending fields.
    fn from(error: (&String, &String, &Vec<String>)) -> (r: UserErrorResponse)
        ensures
            r@ == (UserErrorResponseView {
                code: error.0@,
                message: error.1@,
                errors: Some(error.2.deep_view()),
            }),
    {
        UserErrorResponse {
            code: error.0.clone(),
            message: error.1.clone(),
            errors: Some(copy_strings(error.2)),
        }
    }
}

/// The result holds strings, which no specification can write down as values:
/// what `from` returns is stated in its own `ensures`, over the views.
impl vstd::std_specs::convert::FromSpecImpl<(&String, &String, &Vec<String>)> for UserErrorResponse {
    open spec fn obeys_from_spec() -> bool {
        false
    }

    open spec fn from_spec(error: (&String, &String, &Vec<String>)) -> UserErrorResponse {
        arbitrary()
    }
}

/// A failure reported by the relational store.
#[derive(Debug, Clone, Copy, PartialEq, Eq)]
pub enum DatabaseError {
    /// A uniqueness constraint refused the statement.
    UniqueViolation,
    /// The store refused the statement for another reason.
    Database,
    /// Any other failure, a missing row among them.
    Unknown,
}

/// No connection to the store could be had from the pool.
#[derive(Debug, Clone, Copy, PartialEq, Eq)]
pub struct PoolError;

/// The body of a request could not be read as the form it should hold.
#[derive(Debug, Clone, Copy, PartialEq, Eq)]
pub struct PayloadError;

/// How work that was handed to a blocking worker failed.
#[derive(Debug, PartialEq, Eq)]
pub enum BlockingError {
    /// The work itself failed.
    Error(ApiError),
    /// The worker gave the work up.
    Canceled,
}

/// What the validation of one field of a form found.
#[derive(Debug, PartialEq, Eq)]
pub enum ValidationErrorsKind {
    /// The codes of the rules that the field broke.
    Field(Vec<String>),
    /// Findings on a nested form.
    Struct,
    /// Findings on a list of nested forms.
    List,
}

impl DeepView for ValidationErrorsKind {
    type V = Option<Seq<Seq<char>>>;

    /// The codes of a field's findings; `None` for findings on nested forms.
    open spec fn deep_view(&self) -> Option<Seq<Seq<char>>> {
        match self {
            ValidationErrorsKind::Field(codes) => Some(codes.deep_view()),
            _ => None,
        }
    }
}

/// The findings of a form's validation, field by field.
#[derive(Debug, PartialEq, Eq)]
pub struct ValidationErrors {
    pub errors: Vec<(String, ValidationErrorsKind)>,
}

impl View for ValidationErrors {
    type V = Seq<(Seq<char>, Option<Seq<Seq<char>>>)>;

    open spec fn view(&self) -> Seq<(Seq<char>, Option<Seq<Seq<char>>>)> {
        self.errors.deep_view()
    }
}

/// The codes of all field findings, in the order of the fields.
pub open spec fn field_codes(findings: Seq<(Seq<char>, Option<Seq<Seq<char>>>)>) -> Seq<Seq<char>>
    decreases findings.len(),
{
    if findings.len() == 0 {
        seq![]
    } else {
        field_codes(findings.drop_last()) + match findings.last().1 {
            Some(codes) => codes,
            None => seq![],
        }
    }
}

/// Whether entry `i` of the findings holds the codes of the field.
pub open spec fn holds_field(
    findings: Seq<(Seq<char>, Option<Seq<Seq<char>>>)>,
    field: Seq<char>,
    i: int,
) -> bool {
    0 <= i < findings.len() && findings[i].0 == field && findings[i].1 is Some
}

/// The place of the first entry that holds the codes of the field, if there
/// is one.
pub open spec fn field_entry(
    findings: Seq<(Seq<char>, Option<Seq<Seq<char>>>)>,
    field: Seq<char>,
) -> Option<int> {
    if exists|i: int| holds_field(findings, field, i) {
        Some(
            choose|i: int|
                holds_field(findings, field, i) && forall|j: int|
                    0 <= j < i ==> !holds_field(findings, field, j),
        )
    } else {
        None
    }
}

/// The findings after a field broke one more rule: the code joins the codes
/// that the field has, as their last; a field without codes gets a new last
/// entry.
pub open spec fn with_finding(
    findings: Seq<(Seq<char>, Option<Seq<Seq<char>>>)>,
    field: Seq<char>,
    code: Seq<char>,
) -> Seq<(Seq<char>, Option<Seq<Seq<char>>>)> {
    match field_entry(findings, field) {
        Some(i) => findings.update(i, (field, Some(findings[i].1->0.push(code)))),
        None => findings.push((field, Some(seq![code]))),
    }
}

/// The first entry that holds the codes of a field is the one before which
/// no entry does.
pub proof fn lemma_field_entry(
    findings: Seq<(Seq<char>, Option<Seq<Seq<char>>>)>,
    field: Seq<char>,
    i: int,
)
    requires
        holds_field(findings, field, i),
        forall|j: int| 0 <= j < i ==> !holds_field(findings, field, j),
    ensures
        field_entry(findings, field) == Some(i),
{
    let k = choose|k: int|
        holds_field(findings, field, k) && forall|j: int|
            0 <= j < k ==> !holds_field(findings, field, j);
    if k < i {
        assert(!holds_field(findings, field, k));
    } else if i < k {
        assert(!holds_field(findings, field, i));
    }
}

/// The error that each failure of the store is reported as.
pub open spec fn database_failure(error: DatabaseError) -> ApiErrorView {
    match error {
        DatabaseError::UniqueViolation => ApiErrorView::InternalServerError(
            "DATABASE_UNIQUNESS_ERROR"@,
            "Uniquness database error occurred"@,
        ),
        DatabaseError::Database => ApiErrorView::InternalServerError(
            "DATABASE_ERROR"@,
            "Database error occurred"@,
        ),
        DatabaseError::Unknown => ApiErrorView::InternalServerError(
            "UNKNOWN_DATABASE_ERROR"@,
            "Unknown database error occurred"@,
        ),
    }
}

/// The error that a failure of the pool is reported as.
pub open spec fn pool_failure() -> ApiErrorView {
    ApiErrorView::InternalServerError(
        "DATABASE_POOL_ERROR"@,
        "Could not get connection to database"@,
    )
}

/// The error that work given up by its worker is reported as.
pub open spec fn blocking_failure() -> ApiErrorView {
    ApiErrorView::InternalServerError("BLOCKING_ERROR"@, "Thread execution was blocked"@)
}

impl ValidationErrors {
    /// No findings.
    pub fn new() -> (r: ValidationErrors)
        ensures
            r@ == Seq::<(Seq<char>, Option<Seq<Seq<char>>>)>::empty(),
    {
        let errors: Vec<(String, ValidationErrorsKind)> = Vec::new();
        assert(errors.deep_view() =~= Seq::empty());
        ValidationErrors { errors }
    }

    /// Records that `field` broke the rule named by `code`. The code joins
    /// the codes that the field has; a field without codes gets a new last
    /// entry. So a field whose findings all came in this way occurs once.
    pub fn add(&mut self, field: &str, code: &str)
        ensures
            final(self)@ == with_finding(old(self)@, field@, code@),
    {
        let name = String::from_str(field);
        let ghost findings = self@;
        let mut i: usize = 0;
        while i < self.errors.len()
            invariant
                i <= self.errors.len(),
                findings == self@,
                *self == *old(self),
                name@ == field@,
                forall|j: int| 0 <= j < i ==> !holds_field(findings, field@, j),
            decreases self.errors.len() - i,
        {
            assert(findings[i as int].0 == self.errors[i as int].0@);
            assert(findings[i as int].1 == self.errors[i as int].1.deep_view());
            if self.errors[i].0 == name {
                if let ValidationErrorsKind::Field(found) = &self.errors[i].1 {
                    let mut codes = copy_strings(found);
                    codes.push(String::from_str(code));
                    assert(codes.deep_view() =~= found.deep_view().push(code@));
                    proof {
                        lemma_field_entry(findings, field@, i as int);
                    }
                    self.errors.set(i, (name, ValidationErrorsKind::Field(codes)));
                    assert(self.errors.deep_view() =~= findings.update(
                        i as int,
                        (field@, Some(findings[i as int].1->0.push(code@))),
                    ));
                    return ;
                }
            }
            i += 1;
        }
        let mut codes: Vec<String> = Vec::new();
        codes.push(String::from_str(code));
        assert(codes.deep_view() =~= seq![code@]);
        self.errors.push((name, ValidationErrorsKind::Field(codes)));
        assert(self.errors.deep_view() =~= findings.push((field@, Some(seq![code@]))));
    }

    /// Tells whether nothing was found.
    pub fn is_empty(&self) -> (r: bool)
        ensures
            r == (self@.len() == 0),
    {
        self.errors.len() == 0
    }
}

impl From<DatabaseError> for ApiError {
    /// Reports a failure of the store as an internal error.
    fn from(error: DatabaseError) -> (r: ApiError)
        ensures
            r@ == database_failure(error),
    {
        match error {
            DatabaseError::UniqueViolation => ApiError::InternalServerError(
                String::from_str("DATABASE_UNIQUNESS_ERROR"),
                String::from_str("Uniquness database error occurred"),
            ),
            DatabaseError::Database => ApiError::InternalServerError(
                String::from_str("DATABASE_ERROR"),
                String::from_str("Database error occurred"),
            ),
            DatabaseError::Unknown => ApiError::InternalServerError(
                String::from_str("UNKNOWN_DATABASE_ERROR"),
                String::from_str("Unknown database error occurred"),
            ),
        }
    }
}

/// The result holds strings, which no specification can write down as values:
/// what `from` returns is stated in its own `ensures`, over the views.
impl vstd::std_specs::convert::FromSpecImpl<DatabaseError> for ApiError {
    open spec fn obeys_from_spec() -> bool {
        false
    }

    open spec fn from_spec(error: DatabaseError) -> ApiError {
        arbitrary()
    }
}

impl From<PoolError> for ApiError {
    /// Reports a failure of the pool as an internal error.
    fn from(error: PoolError) -> (r: ApiError)
        ensures
            r@ == pool_failure(),
    {
        ApiError::InternalServerError(
            String::from_str("DATABASE_POOL_ERROR"),
            String::from_str("Could not get connection to database"),
        )
    }
}

/// The result holds strings, which no specification can write down as values:
/// what `from` returns is stated in its own `ensures`, over the views.
impl vstd::std_specs::convert::FromSpecImpl<PoolError> for ApiError {
    open spec fn obeys_from_spec() -> bool {
        false
    }

    open spec fn from_spec(error: PoolError) -> ApiError {
        arbitrary()
    }
}

impl From<BlockingError> for ApiError {
    /// Hands on the error of work that failed, and reports work that was given
    /// up as an internal error.
    fn from(error: BlockingError) -> (r: ApiError)
        ensures
            match error {
                BlockingError::Error(inner) => r == inner,
                BlockingError::Canceled => r@ == blocking_failure(),
            },
    {
        match error {
            BlockingError::Error(api_error) => api_error,
            BlockingError::Canceled => ApiError::InternalServerError(
                String::from_str("BLOCKING_ERROR"),
                String::from_str("Thread execution was blocked"),
            ),
        }
    }
}

/// The result holds strings, which no specification can write down as values:
/// what `from` returns is stated in its own `ensures`, over the views.
impl vstd::std_specs::convert::FromSpecImpl<BlockingError> for ApiError {
    open spec fn obeys_from_spec() -> bool {
        false
    }

    open spec fn from_spec(error: BlockingError) -> ApiError {
        arbitrary()
    }
}

impl From<PayloadError> for ApiError {
    /// Reports an unreadable body as a validation error without field codes.
    fn from(error: PayloadError) -> (r: ApiError)
        ensures
            r@ == validation_failure(seq![]),
    {
        let codes: Vec<String> = Vec::new();
        assert(codes.deep_view() =~= seq![]);
        ApiError::ValidationError(
            String::from_str("VALIDATION_ERROR"),
            String::from_str("A validation error occurred"),
            codes,
        )
    }
}

/// The result holds strings, which no specification can write down as values:
/// what `from` returns is stated in its own `ensures`, over the views.
impl vstd::std_specs::convert::FromSpecImpl<PayloadError> for ApiError {
    open spec fn obeys_from_spec() -> bool {
        false
    }

    open spec fn from_spec(error: PayloadError) -> ApiError {
        arbitrary()
    }
}

impl From<ValidationErrors> for ApiError {
    /// Reports the findings of a validation as a validation error that lists
    /// the codes of all field findings, field by field.
    fn from(errors: ValidationErrors) -> (r: ApiError)
        ensures
            r@ == validation_failure(field_codes(errors@)),
    {
        let mut codes: Vec<String> = Vec::new();
        let ghost findings = errors@;
        let mut i: usize = 0;
        assert(findings.take(0) =~= Seq::empty());
        while i < errors.errors.len()
            invariant
                i <= errors.errors.len(),
                findings == errors@,
                findings.len() == errors.errors.len(),
                codes.deep_view() == field_codes(findings.take(i as int)),
            decreases errors.errors.len() - i,
        {
            let ghost before = codes.deep_view();
            assert(findings.take(i + 1).drop_last() =~= findings.take(i as int));
            assert(findings.take(i + 1).last() == findings[i as int]);
            assert(findings[i as int].1 == errors.errors[i as int].1.deep_view());
            match &errors.errors[i].1 {
                ValidationErrorsKind::Field(found) => {
                    let mut j: usize = 0;
                    while j < found.len()
                        invariant
                            j <= found.len(),
                            codes.deep_view() == before + found.deep_view().take(j as int),
                        decreases found.len() - j,
                    {
                        let ghost so_far = codes.deep_view();
                        codes.push(found[j].clone());
                        assert(codes.deep_view() =~= so_far.push(found[j as int]@));
                        assert(found.deep_view().take(j + 1) =~= found.deep_view().take(
                            j as int,
                        ).push(found[j as int]@));
                        j += 1;
                    }
                    assert(found.deep_view().take(found.len() as int) =~= found.deep_view());
                },
                _ => {
                    assert(codes.deep_view() =~= before + seq![]);
                },
            }
            i += 1;
        }
        assert(findings.take(i as int) =~= findings);
        ApiError::ValidationError(
            String::from_str("VALIDATION_ERROR"),
            String::from_str("A validation error occurred"),
            codes,
        )
    }
}

/// The result holds strings, which no specification can write down as values:
/// what `from` returns is stated in its own `ensures`, over the views.
impl vstd::std_specs::convert::FromSpecImpl<ValidationErrors> for ApiError {
    open spec fn obeys_from_spec() -> bool {
        false
    }

    open spec fn from_spec(errors: ValidationErrors) -> ApiError {
        arbitrary()
    }
}

} // verus!
