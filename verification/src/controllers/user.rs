use vstd::prelude::*;

use crate::controllers::response::{Response, ResponseView};
use crate::models::directory::{Directory, DirectoryView};
use crate::models::user::{
    login_outcome, registered, LoginUserForm, LoginUserFormView, NewUserForm, NewUserFormView,
    User, UserView,
};
use crate::utils::errors::{outcome, ApiError, ApiErrorView};
use crate::utils::hasher::{credential_failure, has_zero_byte, password_check};
use crate::utils::token::{
    issued, signed_token, signing_failure, validated, Token, TokenView, VALIDITY,
};

verus! {

/// The answer that carries a fresh token for a user: the token that is
/// issued to the user at `now`, signed under the secret.
pub open spec fn token_answer(user: UserView, secret: Seq<char>, now: u64) -> Result<
    ResponseView,
    ApiErrorView,
> {
    match signed_token(issued(user, now), secret) {
        Some(token) => Ok(ResponseView::Token(token)),
        None => Err(signing_failure()),
    }
}

/// What a login is answered with, once the credentials were checked: a
/// fresh token for the user, or `InvalidLogin` where nobody was found. An
/// unknown email and a wrong password are both "nobody".
pub open spec fn login_answer(
    checked: Result<Option<UserView>, ApiErrorView>,
    secret: Seq<char>,
    now: u64,
) -> Result<ResponseView, ApiErrorView> {
    match checked {
        Ok(Some(user)) => token_answer(user, secret, now),
        Ok(None) => Err(ApiErrorView::InvalidLogin),
        Err(error) => Err(error),
    }
}

/// What a registration is answered with, once it ended: a fresh token for
/// the user that was created, or the registration's error.
pub open spec fn signup_answer(
    created: Result<UserView, ApiErrorView>,
    secret: Seq<char>,
    now: u64,
) -> Result<ResponseView, ApiErrorView> {
    match created {
        Ok(user) => token_answer(user, secret, now),
        Err(error) => Err(error),
    }
}

/// Whether a signup of `form` at time `now` may take the directory from
/// `before` to `after` with this answer: the registration ran, and its result
/// was answered.
pub open spec fn signed_up(
    before: DirectoryView,
    form: NewUserFormView,
    secret: Seq<char>,
    now: u64,
    after: DirectoryView,
    answer: Result<ResponseView, ApiErrorView>,
) -> bool {
    if after == before {
        answer matches Err(error) && registered(before, form, now, after, Err(error))
    } else {
        after.users.len() > 0 && registered(before, form, now, after, Ok(after.users.last()))
            && answer == token_answer(after.users.last(), secret, now)
    }
}

/// Answers with what may be shown of all users.
pub fn get(conn: &Directory) -> (r: Result<Response, ApiError>)
    ensures
        outcome(r) == Ok::<ResponseView, ApiErrorView>(ResponseView::Users(conn@.shown_users())),
{
    match User::find_all_users(conn) {
        Ok(users) => Ok(Response::Users(users)),
        Err(error) => Err(error),
    }
}

/// Issues a token to the user at time `now` and answers with it. The
/// token validates under the same secret to the user's number and email at
/// every time before it expires, seven days after `now`, and is unauthorized
/// from then on.
pub fn token_for(user: &User, secret: &str, now: u64) -> (r: Result<Response, ApiError>)
    requires
        now + VALIDITY <= u64::MAX,
    ensures
        outcome(r) == token_answer(user@, secret@, now),
        r matches Ok(Response::Token(token)) && forall|at: u64|
            #[trigger] validated(token@, secret@, at) == if at < now + VALIDITY {
                Ok::<TokenView, ApiErrorView>(issued(user@, now))
            } else {
                Err::<TokenView, ApiErrorView>(ApiErrorView::Unauthorized)
            },
{
    match Token::from_user(user, now).encode(secret) {
        Ok(token) => Ok(Response::Token(token)),
        Err(error) => Err(error),
    }
}

/// Registers the user of the form and answers with a token for it. Where
/// the registration created a user, a token comes back.
pub fn create(conn: &mut Directory, new_user: NewUserForm, secret: &str, now: u64) -> (r: Result<
    Response,
    ApiError,
>)
    requires
        now + VALIDITY <= u64::MAX,
    ensures
        signed_up(old(conn)@, new_user@, secret@, now, final(conn)@, outcome(r)),
        final(conn)@ != old(conn)@ ==> r is Ok,
        r matches Ok(Response::Token(token)) ==> final(conn)@.users.len() > 0 && forall|at: u64|
            at < now + VALIDITY ==> #[trigger] validated(token@, secret@, at) == Ok::<
                TokenView,
                ApiErrorView,
            >(issued(final(conn)@.users.last(), now)),
{
    let created = new_user.create(conn, now);
    signed(created, secret, now)
}

/// Answers a registration that ended.
pub fn signed(created: Result<User, ApiError>, secret: &str, now: u64) -> (r: Result<
    Response,
    ApiError,
>)
    requires
        now + VALIDITY <= u64::MAX,
    ensures
        outcome(r) == signup_answer(outcome(created), secret@, now),
        created is Ok ==> r is Ok,
        r matches Ok(Response::Token(token)) ==> created matches Ok(user) && forall|at: u64|
            at < now + VALIDITY ==> #[trigger] validated(token@, secret@, at) == Ok::<
                TokenView,
                ApiErrorView,
            >(issued(user@, now)),
{
    match created {
        Ok(user) => token_for(&user, secret, now),
        Err(error) => Err(error),
    }
}

/// Checks the credentials and answers with a token for the user: where the
/// email is that of a user and the password matches the stored hash, a token
/// comes back, and it validates to that user's number and email. An unknown
/// email and a wrong password get the same answer.
pub fn login(conn: &Directory, creds: LoginUserForm, secret: &str, now: u64) -> (r: Result<
    Response,
    ApiError,
>)
    requires
        now + VALIDITY <= u64::MAX,
    ensures
        outcome(r) == login_answer(login_outcome(conn@, creds@), secret@, now),
        login_outcome(conn@, creds@) matches Ok(Some(_)) ==> r is Ok,
        r matches Ok(Response::Token(token)) ==> login_outcome(conn@, creds@) matches Ok(
            Some(user),
        ) && user.email == creds.email@ && forall|at: u64|
            at < now + VALIDITY ==> #[trigger] validated(token@, secret@, at) == Ok::<
                TokenView,
                ApiErrorView,
            >(issued(user, now)),
{
    let valid_user = creds.verify_user(conn);
    logged_in(valid_user, secret, now)
}

/// Answers a login whose credentials were checked.
pub fn logged_in(valid_user: Result<Option<User>, ApiError>, secret: &str, now: u64) -> (r: Result<
    Response,
    ApiError,
>)
    requires
        now + VALIDITY <= u64::MAX,
    ensures
        outcome(r) == login_answer(outcome(valid_user), secret@, now),
        valid_user matches Ok(Some(_)) ==> r is Ok,
        r matches Ok(Response::Token(token)) ==> valid_user matches Ok(Some(user)) && forall|
            at: u64,
        |
            at < now + VALIDITY ==> #[trigger] validated(token@, secret@, at) == Ok::<
                TokenView,
                ApiErrorView,
            >(issued(user@, now)),
{
    match valid_user {
        Ok(Some(user)) => token_for(&user, secret, now),
        Ok(None) => Err(ApiError::InvalidLogin),
        Err(error) => Err(error),
    }
}

/// A login with the email of a user and a password that matches the stored
/// hash is answered with a fresh token for that user.
pub proof fn lemma_login_with_correct_credentials(
    directory: DirectoryView,
    form: LoginUserFormView,
    secret: Seq<char>,
    now: u64,
    i: int,
)
    requires
        directory.wf(),
        0 <= i < directory.users.len(),
        directory.users[i].email == form.email,
        password_check(form.password, directory.users[i].password) == Some(true),
    ensures
        login_outcome(directory, form) == Ok::<Option<UserView>, ApiErrorView>(
            Some(directory.users[i]),
        ),
        login_answer(login_outcome(directory, form), secret, now) == token_answer(
            directory.users[i],
            secret,
            now,
        ),
{
    directory.lemma_user_by_email(form.email, i);
}

/// A login with an email that no user has, and a login with the email of a
/// user and a password that does not match, get the same answer:
/// `InvalidLogin`.
pub proof fn lemma_failed_logins_look_alike(
    directory: DirectoryView,
    unknown: LoginUserFormView,
    wrong: LoginUserFormView,
    secret: Seq<char>,
    now: u64,
    i: int,
)
    requires
        directory.wf(),
        !directory.email_taken(unknown.email),
        0 <= i < directory.users.len(),
        directory.users[i].email == wrong.email,
        password_check(wrong.password, directory.users[i].password) == Some(false),
    ensures
        login_answer(login_outcome(directory, unknown), secret, now) == Err::<
            ResponseView,
            ApiErrorView,
        >(ApiErrorView::InvalidLogin),
        login_answer(login_outcome(directory, wrong), secret, now) == login_answer(
            login_outcome(directory, unknown),
            secret,
            now,
        ),
{
    directory.lemma_user_by_email(wrong.email, i);
}

/// A password that holds a zero byte logs nobody in. Where no user has the
/// email, and where the stored hash of the user who has it can be read, the
/// answer is `InvalidLogin`: it tells nothing of the email. A stored hash
/// that is malformed is reported as such, as for every other password.
pub proof fn lemma_zero_byte_password_is_no_login(
    directory: DirectoryView,
    form: LoginUserFormView,
    secret: Seq<char>,
    now: u64,
)
    requires
        has_zero_byte(form.password),
    ensures
        !(login_outcome(directory, form) matches Ok(Some(_))),
        login_answer(login_outcome(directory, form), secret, now) is Err,
        match directory.user_by_email(form.email) {
            Some(user) => if password_check(form.password, user.password) is None {
                login_answer(login_outcome(directory, form), secret, now) == Err::<
                    ResponseView,
                    ApiErrorView,
                >(credential_failure())
            } else {
                login_answer(login_outcome(directory, form), secret, now) == Err::<
                    ResponseView,
                    ApiErrorView,
                >(ApiErrorView::InvalidLogin)
            },
            None => login_answer(login_outcome(directory, form), secret, now) == Err::<
                ResponseView,
                ApiErrorView,
            >(ApiErrorView::InvalidLogin),
        },
{
}

/// A stored hash that is malformed is never answered as a failed login:
/// whatever the password, with a zero byte or without, a login with the
/// email of that user is answered with the error for a credential that
/// could not be verified.
pub proof fn lemma_malformed_hash_is_reported(
    directory: DirectoryView,
    form: LoginUserFormView,
    secret: Seq<char>,
    now: u64,
    i: int,
)
    requires
        directory.wf(),
        0 <= i < directory.users.len(),
        directory.users[i].email == form.email,
        password_check(form.password, directory.users[i].password) is None,
    ensures
        login_outcome(directory, form) == Err::<Option<UserView>, ApiErrorView>(
            credential_failure(),
        ),
        login_answer(login_outcome(directory, form), secret, now) == Err::<
            ResponseView,
            ApiErrorView,
        >(credential_failure()),
{
    directory.lemma_user_by_email(form.email, i);
}

} // verus!
