use vstd::prelude::*;

use crate::models::directory::{Directory, DirectoryView};
use crate::models::key::Key;
use crate::utils::errors::{
    database_failure, outcome, validation_failure, ApiError, ApiErrorView, DatabaseError,
    ValidationErrors,
};
use crate::utils::hasher::{
    cost_of, credential_failure, has_zero_byte, hash, hash_failure, password_check, verify,
    HASH_COST,
};
use crate::utils::validation::{check_email, email_findings, email_is_valid};

verus! {

/// A user as the store holds it.
#[derive(Debug, PartialEq, Eq)]
pub struct User {
    pub id: i32,
    pub email: String,
    /// The hash of the password, never the password.
    pub password: String,
    /// The invitation key that was consumed to create the account.
    pub key_id: u128,
    /// Seconds since the epoch at which the account was created.
    pub created_at: u64,
}

/// The mathematical value of a [`User`].
pub struct UserView {
    pub id: i32,
    pub email: Seq<char>,
    pub password: Seq<char>,
    pub key_id: u128,
    pub created_at: u64,
}

impl View for User {
    type V = UserView;

    open spec fn view(&self) -> UserView {
        UserView {
            id: self.id,
            email: self.email@,
            password: self.password@,
            key_id: self.key_id,
            created_at: self.created_at,
        }
    }
}

impl DeepView for User {
    type V = UserView;

    open spec fn deep_view(&self) -> UserView {
        self@
    }
}

/// What may be shown of a user: never the password hash.
#[derive(Debug, PartialEq, Eq)]
pub struct ViewableUser {
    pub id: i32,
    pub email: String,
}

/// The mathematical value of a [`ViewableUser`].
pub struct ViewableUserView {
    pub id: i32,
    pub email: Seq<char>,
}

impl View for ViewableUser {
    type V = ViewableUserView;

    open spec fn view(&self) -> ViewableUserView {
        ViewableUserView { id: self.id, email: self.email@ }
    }
}

impl DeepView for ViewableUser {
    type V = ViewableUserView;

    open spec fn deep_view(&self) -> ViewableUserView {
        self@
    }
}

/// What a user looks like to the outside.
pub open spec fn shown(user: UserView) -> ViewableUserView {
    ViewableUserView { id: user.id, email: user.email }
}

/// The credentials of a login.
#[derive(Debug, PartialEq, Eq)]
pub struct LoginUserForm {
    pub email: String,
    pub password: String,
}

/// The mathematical value of a [`LoginUserForm`].
pub struct LoginUserFormView {
    pub email: Seq<char>,
    pub password: Seq<char>,
}

impl View for LoginUserForm {
    type V = LoginUserFormView;

    open spec fn view(&self) -> LoginUserFormView {
        LoginUserFormView { email: self.email@, password: self.password@ }
    }
}

/// A registration. Once the password was replaced by its hash, the same
/// value is the row that the store is asked to insert.
#[derive(Debug, PartialEq, Eq)]
pub struct NewUserForm {
    pub email: String,
    pub password: String,
    pub key_id: u128,
}

/// The mathematical value of a [`NewUserForm`].
pub struct NewUserFormView {
    pub email: Seq<char>,
    pub password: Seq<char>,
    pub key_id: u128,
}

impl View for NewUserForm {
    type V = NewUserFormView;

    open spec fn view(&self) -> NewUserFormView {
        NewUserFormView { email: self.email@, password: self.password@, key_id: self.key_id }
    }
}

impl Default for NewUserForm {
    /// The empty form: no email, no password, and the key whose identifier
    /// is zero.
    fn default() -> (r: NewUserForm)
        ensures
            r@ == (NewUserFormView { email: Seq::empty(), password: Seq::empty(), key_id: 0 }),
    {
        NewUserForm { email: String::new(), password: String::new(), key_id: 0 }
    }
}

/// The state of a registration: what the store is to be asked next, or how
/// the registration ended.
#[derive(Debug, PartialEq, Eq)]
pub enum Registration {
    /// The form passed validation. The store is to say whether the form's key
    /// is available.
    CheckKey(NewUserForm),
    /// The key was available and the password was hashed. The store is to
    /// insert this row.
    Insert(NewUserForm),
    /// The registration ended, with the user that was created or with the
    /// first error that was met.
    Done(Result<User, ApiError>),
}

/// The mathematical value of a [`Registration`].
pub enum RegistrationView {
    CheckKey(NewUserFormView),
    Insert(NewUserFormView),
    Done(Result<UserView, ApiErrorView>),
}

impl View for Registration {
    type V = RegistrationView;

    open spec fn view(&self) -> RegistrationView {
        match self {
            Registration::CheckKey(form) => RegistrationView::CheckKey(form@),
            Registration::Insert(row) => RegistrationView::Insert(row@),
            Registration::Done(result) => RegistrationView::Done(outcome(*result)),
        }
    }
}

/// What the store answered to a registration's request.
#[derive(Debug, PartialEq, Eq)]
pub enum StoreReply {
    /// Whether the key is available, or why that could not be told.
    Availability(Result<bool, ApiError>),
    /// The user that the row became, or why the store refused the row.
    Inserted(Result<User, DatabaseError>),
}

/// The mathematical value of a [`StoreReply`].
pub enum StoreReplyView {
    Availability(Result<bool, ApiErrorView>),
    Inserted(Result<UserView, DatabaseError>),
}

impl View for StoreReply {
    type V = StoreReplyView;

    open spec fn view(&self) -> StoreReplyView {
        match self {
            StoreReply::Availability(answer) => StoreReplyView::Availability(outcome(*answer)),
            StoreReply::Inserted(Ok(user)) => StoreReplyView::Inserted(Ok(user@)),
            StoreReply::Inserted(Err(error)) => StoreReplyView::Inserted(Err(*error)),
        }
    }
}

/// What a lookup by number is answered with: what may be shown of the user, or
/// the error for a row that is missing.
pub open spec fn lookup_outcome(found: Option<ViewableUserView>) -> Result<
    ViewableUserView,
    ApiErrorView,
> {
    match found {
        Some(user) => Ok(user),
        None => Err(database_failure(DatabaseError::Unknown)),
    }
}

/// What a login is answered with, given the user who has the form's email:
/// the user if the password matches the stored hash; nobody if it does not,
/// or if there is no such user; an error if the stored hash is malformed.
pub open spec fn login_decision(password: Seq<char>, user: Option<UserView>) -> Result<
    Option<UserView>,
    ApiErrorView,
> {
    match user {
        None => Ok(None),
        Some(found) => match password_check(password, found.password) {
            Some(true) => Ok(Some(found)),
            Some(false) => Ok(None),
            None => Err(credential_failure()),
        },
    }
}

/// What a login against a directory is answered with.
pub open spec fn login_outcome(directory: DirectoryView, form: LoginUserFormView) -> Result<
    Option<UserView>,
    ApiErrorView,
> {
    login_decision(form.password, directory.user_by_email(form.email))
}

/// The state in which a registration starts: it waits for the key check if
/// the email is an address, and has ended with the validation error if not.
pub open spec fn registration_begun(form: NewUserFormView) -> RegistrationView {
    if email_is_valid(form.email) {
        RegistrationView::CheckKey(form)
    } else {
        RegistrationView::Done(Err(validation_failure(seq!["INVALID_EMAIL"@])))
    }
}

/// The state after the password was hashed: the row to insert, which has the
/// hash in place of the password, or the end with the hasher's error.
pub open spec fn registration_hashed(
    form: NewUserFormView,
    hashed: Result<Seq<char>, ApiErrorView>,
) -> RegistrationView {
    match hashed {
        Ok(digest) => RegistrationView::Insert(
            NewUserFormView { email: form.email, password: digest, key_id: form.key_id },
        ),
        Err(error) => RegistrationView::Done(Err(error)),
    }
}

/// Whether `after` is a state that a registration in state `before` may
/// take on the store's reply. An unavailable key ends it with
/// `InvalidBetaKey`, and so does every refusal of the row; an available key
/// leads to the row with a hash of 60 characters that was made at
/// [`HASH_COST`] and matches the password, or to the end with the hasher's error, which is certain for
/// a password that holds a zero byte. A reply that answers no pending request
/// changes nothing.
pub open spec fn registration_step(
    before: RegistrationView,
    reply: StoreReplyView,
    after: RegistrationView,
) -> bool {
    match (before, reply) {
        (RegistrationView::CheckKey(form), StoreReplyView::Availability(Ok(available))) => {
            if available {
                ||| after == RegistrationView::Done(Err(hash_failure()))
                ||| (after matches RegistrationView::Insert(row) && row.email == form.email
                    && row.key_id == form.key_id && !has_zero_byte(form.password)
                    && row.password.len() == 60 && cost_of(row.password) == HASH_COST
                    && password_check(form.password, row.password) == Some(true))
            } else {
                after == RegistrationView::Done(Err(ApiErrorView::InvalidBetaKey))
            }
        },
        (RegistrationView::CheckKey(_), StoreReplyView::Availability(Err(error))) => after
            == RegistrationView::Done(Err(error)),
        (RegistrationView::Insert(_), StoreReplyView::Inserted(Ok(user))) => after
            == RegistrationView::Done(Ok(user)),
        (RegistrationView::Insert(_), StoreReplyView::Inserted(Err(_))) => after
            == RegistrationView::Done(Err(ApiErrorView::InvalidBetaKey)),
        _ => after == before,
    }
}

/// Whether a registration of `form` at time `now` may take the directory
/// from `before` to `after` with this result. Validation comes before the key
/// check, the key check before hashing, hashing before the insert; whatever
/// fails first is the result, and then the directory is unchanged. A
/// password that holds a zero byte cannot be hashed. A row that the store
/// refuses is reported as `InvalidBetaKey`. The user that is created holds a
/// hash of 60 characters that was made at [`HASH_COST`] and matches the
/// password.
pub open spec fn registered(
    before: DirectoryView,
    form: NewUserFormView,
    now: u64,
    after: DirectoryView,
    result: Result<UserView, ApiErrorView>,
) -> bool {
    if !email_is_valid(form.email) {
        after == before && result == Err::<UserView, ApiErrorView>(
            validation_failure(seq!["INVALID_EMAIL"@]),
        )
    } else if !before.is_available(form.key_id) {
        after == before && result == Err::<UserView, ApiErrorView>(ApiErrorView::InvalidBetaKey)
    } else if has_zero_byte(form.password) {
        after == before && result == Err::<UserView, ApiErrorView>(hash_failure())
    } else if result == Err::<UserView, ApiErrorView>(hash_failure()) {
        after == before
    } else if !before.accepts(form) {
        after == before && result == Err::<UserView, ApiErrorView>(ApiErrorView::InvalidBetaKey)
    } else {
        &&& result matches Ok(user)
        &&& user.password.len() == 60
        &&& cost_of(user.password) == HASH_COST
        &&& password_check(form.password, user.password) == Some(true)
        &&& user == before.new_user(
            NewUserFormView { email: form.email, password: user.password, key_id: form.key_id },
            now,
        )
        &&& after == before.with_user(user)
    }
}

impl User {
    /// What may be shown of all users, in the order of their creation:
    /// numbers and emails, never a password hash.
    pub fn find_all_users(conn: &Directory) -> (r: Result<Vec<ViewableUser>, ApiError>)
        ensures
            outcome(r) == Ok::<Seq<ViewableUserView>, ApiErrorView>(conn@.shown_users()),
    {
        let all_users = conn.all_users();
        Ok(all_users)
    }

    /// What may be shown of the user with this number. A number that no user
    /// has is reported as the store reports a missing row.
    pub fn find_one(user_id: i32, conn: &Directory) -> (r: Result<ViewableUser, ApiError>)
        ensures
            outcome(r) == lookup_outcome(
                match conn@.user_by_id(user_id) {
                    Some(user) => Some(shown(user)),
                    None => None,
                },
            ),
    {
        User::found(conn.find_user(user_id))
    }

    /// Reports what a lookup by number found.
    pub fn found(user: Option<ViewableUser>) -> (r: Result<ViewableUser, ApiError>)
        ensures
            outcome(r) == lookup_outcome(user.deep_view()),
    {
        match user {
            Some(user) => Ok(user),
            None => Err(ApiError::from(DatabaseError::Unknown)),
        }
    }

    /// A copy of the user.
    pub fn copy(&self) -> (r: User)
        ensures
            r == *self,
    {
        User {
            id: self.id,
            email: self.email.clone(),
            password: self.password.clone(),
            key_id: self.key_id,
            created_at: self.created_at,
        }
    }

    /// What may be shown of the user.
    pub fn viewable(&self) -> (r: ViewableUser)
        ensures
            r@ == shown(self@),
    {
        ViewableUser { id: self.id, email: self.email.clone() }
    }
}

impl LoginUserForm {
    /// Checks the form: its email must be an address.
    pub fn validate(&self) -> (r: Result<(), ValidationErrors>)
        ensures
            match r {
                Ok(_) => email_is_valid(self.email@),
                Err(errors) => !email_is_valid(self.email@) && errors@ == email_findings(
                    self.email@,
                ),
            },
    {
        check_email(self.email.as_str())
    }

    /// Checks the credentials against the directory: the user who has the
    /// email, if the password matches the stored hash; nobody if there is no
    /// such user or the password does not match.
    pub fn verify_user(self, conn: &Directory) -> (r: Result<Option<User>, ApiError>)
        ensures
            outcome(r) == login_outcome(conn@, self@),
    {
        let user = conn.find_user_by_email(&self.email);
        self.check(user)
    }

    /// Checks the password against the user who was found under the email.
    pub fn check(&self, user: Option<User>) -> (r: Result<Option<User>, ApiError>)
        ensures
            outcome(r) == login_decision(self.password@, user.deep_view()),
    {
        match user {
            Some(found) => {
                let verdict = verify(self.password.as_str(), found.password.as_str());
                LoginUserForm::settle(found, verdict)
            },
            None => Ok(None),
        }
    }

    /// Settles a login once the password was held against the stored hash:
    /// the user on a match, nobody on a mismatch, and the hasher's error.
    pub fn settle(user: User, verdict: Result<bool, ApiError>) -> (r: Result<
        Option<User>,
        ApiError,
    >)
        ensures
            match verdict {
                Ok(true) => r == Ok::<Option<User>, ApiError>(Some(user)),
                Ok(false) => r == Ok::<Option<User>, ApiError>(None),
                Err(error) => r == Err::<Option<User>, ApiError>(error),
            },
    {
        match verdict {
            Ok(true) => Ok(Some(user)),
            Ok(false) => Ok(None),
            Err(error) => Err(error),
        }
    }
}

impl NewUserForm {
    /// Checks the form: its email must be an address.
    pub fn validate(&self) -> (r: Result<(), ValidationErrors>)
        ensures
            match r {
                Ok(_) => email_is_valid(self.email@),
                Err(errors) => !email_is_valid(self.email@) && errors@ == email_findings(
                    self.email@,
                ),
            },
    {
        check_email(self.email.as_str())
    }

    /// Starts a registration: validates the form.
    pub fn begin(self) -> (r: Registration)
        ensures
            r@ == registration_begun(self@),
    {
        match self.validate() {
            Ok(_) => Registration::CheckKey(self),
            Err(errors) => {
                proof {
                    reveal_with_fuel(crate::utils::errors::field_codes, 2);
                    assert(errors@.drop_last() =~= Seq::empty());
                    assert(crate::utils::errors::field_codes(errors@) =~= seq!["INVALID_EMAIL"@]);
                }
                Registration::Done(Err(ApiError::from(errors)))
            },
        }
    }

    /// Registers a user in the directory at time `now`: validates the form,
    /// checks that the key is available, hashes the password, and inserts
    /// the row. The first failure is the result, and leaves the directory as
    /// it was.
    pub fn create(self, conn: &mut Directory, now: u64) -> (r: Result<User, ApiError>)
        ensures
            registered(old(conn)@, self@, now, final(conn)@, outcome(r)),
    {
        let state = self.begin();
        let state = match state {
            Registration::CheckKey(form) => {
                let available = Key::is_available(&form.key_id, conn);
                Registration::CheckKey(form).resume(StoreReply::Availability(available))
            },
            other => other,
        };
        let state = match state {
            Registration::Insert(row) => {
                let inserted = conn.insert_user(&row, now);
                Registration::Insert(row).resume(StoreReply::Inserted(inserted))
            },
            other => other,
        };
        match state {
            Registration::Done(result) => result,
            _ => vstd::pervasive::unreached(),
        }
    }
}

impl Registration {
    /// The state after the password was hashed.
    pub fn hashed(form: NewUserForm, hashed: Result<String, ApiError>) -> (r: Registration)
        ensures
            r@ == registration_hashed(form@, outcome(hashed)),
    {
        match hashed {
            Ok(digest) => Registration::Insert(
                NewUserForm { email: form.email, password: digest, key_id: form.key_id },
            ),
            Err(error) => Registration::Done(Err(error)),
        }
    }

    /// Takes the store's reply and moves on. On an available key the
    /// password is hashed here.
    pub fn resume(self, reply: StoreReply) -> (r: Registration)
        ensures
            registration_step(self@, reply@, r@),
    {
        match self {
            Registration::CheckKey(form) => match reply {
                StoreReply::Availability(Ok(true)) => {
                    let digest = hash(form.password.as_str());
                    Registration::hashed(form, digest)
                },
                StoreReply::Availability(Ok(false)) => Registration::Done(
                    Err(ApiError::InvalidBetaKey),
                ),
                StoreReply::Availability(Err(error)) => Registration::Done(Err(error)),
                StoreReply::Inserted(_) => Registration::CheckKey(form),
            },
            Registration::Insert(row) => match reply {
                StoreReply::Inserted(Ok(user)) => Registration::Done(Ok(user)),
                StoreReply::Inserted(Err(_)) => Registration::Done(Err(ApiError::InvalidBetaKey)),
                StoreReply::Availability(_) => Registration::Insert(row),
            },
            Registration::Done(result) => Registration::Done(result),
        }
    }
}

/// A key is redeemed once. Take a directory that keeps its constraints, a
/// form with a valid email that the directory accepts (its key is available,
/// its email is new, a number is left), and a registration of it that did
/// not end with the hasher's error: that registration created the user, and
/// every later registration with the same key and a valid email ends with
/// `InvalidBetaKey` and changes nothing.
pub proof fn lemma_key_is_redeemed_once(
    before: DirectoryView,
    first: NewUserFormView,
    at: u64,
    between: DirectoryView,
    created: Result<UserView, ApiErrorView>,
    second: NewUserFormView,
    later: u64,
    after: DirectoryView,
    refused: Result<UserView, ApiErrorView>,
)
    requires
        before.wf(),
        email_is_valid(first.email),
        before.accepts(first),
        registered(before, first, at, between, created),
        created != Err::<UserView, ApiErrorView>(hash_failure()),
        second.key_id == first.key_id,
        email_is_valid(second.email),
        registered(between, second, later, after, refused),
    ensures
        created is Ok,
        between.wf(),
        between.users == before.users.push(created->Ok_0),
        refused == Err::<UserView, ApiErrorView>(ApiErrorView::InvalidBetaKey),
        after == between,
{
    let user = created->Ok_0;
    let row = NewUserFormView { email: first.email, password: user.password, key_id: first.key_id };
    before.lemma_insert_wf(row, at);
}

/// Of two registrations that race for one key, at most one creates a user,
/// however their steps interleave. Both may find the key available; the
/// store takes the rows one after the other, in either order. Once it has
/// taken the row of one, it refuses the row of the other, and the other, on
/// that refusal, ends with `InvalidBetaKey` and with no other error. The
/// directory keeps its constraints, and exactly one of its users refers to
/// the key: the one that the first row became.
pub proof fn lemma_race_has_one_winner(
    store: DirectoryView,
    winner: NewUserFormView,
    at: u64,
    loser: NewUserFormView,
    ended: RegistrationView,
)
    requires
        store.wf(),
        store.accepts(winner),
        loser.key_id == winner.key_id,
        registration_step(
            RegistrationView::Insert(loser),
            StoreReplyView::Inserted(
                Err(store.with_user(store.new_user(winner, at)).refusal(loser)),
            ),
            ended,
        ),
    ensures
        !store.with_user(store.new_user(winner, at)).accepts(loser),
        store.with_user(store.new_user(winner, at)).has_room() ==> store.with_user(
            store.new_user(winner, at),
        ).refusal(loser) == DatabaseError::UniqueViolation,
        ended == RegistrationView::Done(Err(ApiErrorView::InvalidBetaKey)),
        store.with_user(store.new_user(winner, at)).wf(),
        store.with_user(store.new_user(winner, at)).user_by_key(winner.key_id) == Some(
            store.new_user(winner, at),
        ),
        forall|i: int|
            0 <= i < store.users.len() + 1 && (#[trigger] store.with_user(
                store.new_user(winner, at),
            ).users[i]).key_id == winner.key_id ==> i == store.users.len(),
{
    let after = store.with_user(store.new_user(winner, at));
    let n = store.users.len() as int;
    store.lemma_insert_wf(winner, at);
    assert(after.users[n] == store.new_user(winner, at));
    after.lemma_user_by_key(winner.key_id, n);
    assert forall|i: int| 0 <= i < n + 1 && (#[trigger] after.users[i]).key_id
        == winner.key_id implies i == n by {
        if i < n {
            assert(after.users[i].key_id != after.users[n].key_id);
        }
    }
}

/// A registration with a valid email, an available key and an email that
/// no user has, in a directory with a number left, creates the user unless
/// the hasher fails: the user has the form's email and key and a number that
/// no user had, and is added alone, after the users that were there; no key
/// is issued or lost.
pub proof fn lemma_registration_creates_the_user(
    before: DirectoryView,
    form: NewUserFormView,
    now: u64,
    after: DirectoryView,
    result: Result<UserView, ApiErrorView>,
)
    requires
        before.wf(),
        email_is_valid(form.email),
        before.is_available(form.key_id),
        !before.email_taken(form.email),
        before.has_room(),
        registered(before, form, now, after, result),
        result != Err::<UserView, ApiErrorView>(hash_failure()),
    ensures
        !has_zero_byte(form.password),
        result is Ok,
        result->Ok_0.email == form.email,
        result->Ok_0.key_id == form.key_id,
        result->Ok_0.created_at == now,
        result->Ok_0.password.len() == 60,
        cost_of(result->Ok_0.password) == HASH_COST,
        password_check(form.password, result->Ok_0.password) == Some(true),
        forall|i: int|
            0 <= i < before.users.len() ==> (#[trigger] before.users[i]).id != result->Ok_0.id,
        after.users == before.users.push(result->Ok_0),
        after.keys == before.keys,
        after.wf(),
{
    let user = result->Ok_0;
    let row = NewUserFormView { email: form.email, password: user.password, key_id: form.key_id };
    before.lemma_insert_wf(row, now);
}

/// A key that is not available is refused. A registration with a valid
/// email and a key that was never issued, or that a user refers to, ends
/// with `InvalidBetaKey` and creates no user.
pub proof fn lemma_unavailable_key_is_refused(
    before: DirectoryView,
    form: NewUserFormView,
    now: u64,
    after: DirectoryView,
    result: Result<UserView, ApiErrorView>,
)
    requires
        email_is_valid(form.email),
        !before.is_available(form.key_id),
        registered(before, form, now, after, result),
    ensures
        result == Err::<UserView, ApiErrorView>(ApiErrorView::InvalidBetaKey),
        after == before,
{
}

/// A malformed email is refused before anything else. A registration with
/// it ends with the validation error that carries `INVALID_EMAIL`, creates
/// no user, and leaves the key as available as it was.
pub proof fn lemma_malformed_email_is_refused(
    before: DirectoryView,
    form: NewUserFormView,
    now: u64,
    after: DirectoryView,
    result: Result<UserView, ApiErrorView>,
)
    requires
        !email_is_valid(form.email),
        registered(before, form, now, after, result),
    ensures
        result == Err::<UserView, ApiErrorView>(validation_failure(seq!["INVALID_EMAIL"@])),
        after == before,
        after.is_available(form.key_id) == before.is_available(form.key_id),
{
}

/// A registration that creates a user consumes its key, and keeps the
/// constraints of the directory. The user has the form's email, which is an
/// address, and a hash that matches the form's password.
pub proof fn lemma_registration_consumes_key(
    before: DirectoryView,
    form: NewUserFormView,
    now: u64,
    after: DirectoryView,
    user: UserView,
)
    requires
        before.wf(),
        registered(before, form, now, after, Ok(user)),
    ensures
        before.is_available(form.key_id),
        !after.is_available(form.key_id),
        after.wf(),
        after.user_by_email(form.email) == Some(user),
        user.key_id == form.key_id,
        user.email == form.email,
        email_is_valid(user.email),
        password_check(form.password, user.password) == Some(true),
{
    let row = NewUserFormView { email: form.email, password: user.password, key_id: form.key_id };
    before.lemma_insert_wf(row, now);
    assert(after.users[before.users.len() as int] == user);
    after.lemma_user_by_email(form.email, before.users.len() as int);
}

/// A registration issues no key and removes nothing: the keys stay as they
/// were, the users that were there stay as they were and where they were,
/// and at most one user is added.
pub proof fn lemma_registration_only_adds(
    before: DirectoryView,
    form: NewUserFormView,
    now: u64,
    after: DirectoryView,
    result: Result<UserView, ApiErrorView>,
)
    requires
        registered(before, form, now, after, result),
    ensures
        after.keys == before.keys,
        after.users.len() == before.users.len() + (if result is Ok {
            1int
        } else {
            0int
        }),
        after.users.take(before.users.len() as int) == before.users,
{
    assert(after.users.take(before.users.len() as int) =~= before.users);
}

/// Who has registered can log in: after a registration that created a
/// user, the credentials of the form are those of that user.
pub proof fn lemma_registered_user_logs_in(
    before: DirectoryView,
    form: NewUserFormView,
    now: u64,
    after: DirectoryView,
    user: UserView,
)
    requires
        before.wf(),
        registered(before, form, now, after, Ok(user)),
    ensures
        login_outcome(after, LoginUserFormView { email: form.email, password: form.password })
            == Ok::<Option<UserView>, ApiErrorView>(Some(user)),
{
    lemma_registration_consumes_key(before, form, now, after, user);
}

} // verus!
