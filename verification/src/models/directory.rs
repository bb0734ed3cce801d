use vstd::prelude::*;

use crate::models::key::Key;
use crate::models::user::{shown, NewUserForm, NewUserFormView, User, UserView, ViewableUser, ViewableUserView};
use crate::utils::errors::DatabaseError;

verus! {

/// The mathematical value of a [`Directory`]: the identifiers of the keys
/// that were issued, and the users in the order in which they were created.
pub struct DirectoryView {
    pub keys: Set<u128>,
    pub users: Seq<UserView>,
}

impl DirectoryView {
    /// The constraints that the store keeps: users are numbered from 1 in the
    /// order of their creation, every user refers to a key that was issued,
    /// and no two users share an email or a key.
    pub open spec fn wf(self) -> bool {
        &&& self.users.len() <= i32::MAX
        &&& forall|i: int|
            0 <= i < self.users.len() ==> (#[trigger] self.users[i]).id == i + 1
                && self.keys.contains(self.users[i].key_id)
        &&& forall|i: int, j: int|
            0 <= i < j < self.users.len() ==> (#[trigger] self.users[i]).email != (
            #[trigger] self.users[j]).email && self.users[i].key_id != self.users[j].key_id
    }

    /// The directory without keys and without users.
    pub open spec fn empty() -> DirectoryView {
        DirectoryView { keys: Set::empty(), users: Seq::empty() }
    }

    /// Whether a key with this identifier was issued.
    pub open spec fn has_key(self, key: u128) -> bool {
        self.keys.contains(key)
    }

    /// Whether some user refers to this key.
    pub open spec fn key_taken(self, key: u128) -> bool {
        exists|i: int| 0 <= i < self.users.len() && (#[trigger] self.users[i]).key_id == key
    }

    /// Whether the key can be redeemed: it was issued and no user refers to it.
    pub open spec fn is_available(self, key: u128) -> bool {
        self.has_key(key) && !self.key_taken(key)
    }

    /// Whether some user has this email.
    pub open spec fn email_taken(self, email: Seq<char>) -> bool {
        exists|i: int| 0 <= i < self.users.len() && (#[trigger] self.users[i]).email == email
    }

    /// The user who refers to this key, if there is one.
    pub open spec fn user_by_key(self, key: u128) -> Option<UserView> {
        if self.key_taken(key) {
            Some(
                self.users[choose|i: int|
                    0 <= i < self.users.len() && (#[trigger] self.users[i]).key_id == key],
            )
        } else {
            None
        }
    }

    /// The user who has this email, if there is one.
    pub open spec fn user_by_email(self, email: Seq<char>) -> Option<UserView> {
        if self.email_taken(email) {
            Some(
                self.users[choose|i: int|
                    0 <= i < self.users.len() && (#[trigger] self.users[i]).email == email],
            )
        } else {
            None
        }
    }

    /// The user who has this number, if there is one.
    pub open spec fn user_by_id(self, id: i32) -> Option<UserView> {
        if exists|i: int| 0 <= i < self.users.len() && (#[trigger] self.users[i]).id == id {
            Some(
                self.users[choose|i: int|
                    0 <= i < self.users.len() && (#[trigger] self.users[i]).id == id],
            )
        } else {
            None
        }
    }

    /// What may be shown of the users, in the order of their creation.
    pub open spec fn shown_users(self) -> Seq<ViewableUserView> {
        Seq::new(self.users.len(), |i: int| shown(self.users[i]))
    }

    /// The directory after a key with this identifier was issued.
    pub open spec fn with_key(self, key: u128) -> DirectoryView {
        DirectoryView { keys: self.keys.insert(key), users: self.users }
    }

    /// Whether a number is left for one more user.
    pub open spec fn has_room(self) -> bool {
        self.users.len() < i32::MAX
    }

    /// Whether the store takes this row: a number is left, its key was issued,
    /// and neither its key nor its email belongs to a user.
    pub open spec fn accepts(self, row: NewUserFormView) -> bool {
        &&& self.has_room()
        &&& self.is_available(row.key_id)
        &&& !self.email_taken(row.email)
    }

    /// Why the store refuses a row that it does not take. A uniqueness
    /// constraint is reported before a key that was never issued.
    pub open spec fn refusal(self, row: NewUserFormView) -> DatabaseError {
        if !self.has_room() {
            DatabaseError::Database
        } else if self.email_taken(row.email) || self.key_taken(row.key_id) {
            DatabaseError::UniqueViolation
        } else {
            DatabaseError::Database
        }
    }

    /// The user that a row becomes when it is inserted at the given time.
    pub open spec fn new_user(self, row: NewUserFormView, created_at: u64) -> UserView {
        UserView {
            id: (self.users.len() + 1) as i32,
            email: row.email,
            password: row.password,
            key_id: row.key_id,
            created_at,
        }
    }

    /// The directory after this user was added.
    pub open spec fn with_user(self, user: UserView) -> DirectoryView {
        DirectoryView { keys: self.keys, users: self.users.push(user) }
    }

    /// Issuing a key keeps the constraints.
    pub proof fn lemma_with_key_wf(self, key: u128)
        requires
            self.wf(),
        ensures
            self.with_key(key).wf(),
    {
    }

    /// Inserting a row that the store takes keeps the constraints, and
    /// consumes the row's key.
    pub proof fn lemma_insert_wf(self, row: NewUserFormView, created_at: u64)
        requires
            self.wf(),
            self.accepts(row),
        ensures
            self.with_user(self.new_user(row, created_at)).wf(),
            self.with_user(self.new_user(row, created_at)).key_taken(row.key_id),
            !self.with_user(self.new_user(row, created_at)).is_available(row.key_id),
    {
        let user = self.new_user(row, created_at);
        let after = self.with_user(user);
        let n = self.users.len() as int;
        assert(after.users[n] == user);
        assert forall|i: int, j: int| 0 <= i < j < after.users.len() implies (
        #[trigger] after.users[i]).email != (#[trigger] after.users[j]).email
            && after.users[i].key_id != after.users[j].key_id by {
            if j == n {
                assert(after.users[i] == self.users[i]);
            } else {
                assert(after.users[i] == self.users[i]);
                assert(after.users[j] == self.users[j]);
            }
        }
        assert forall|i: int| 0 <= i < after.users.len() implies (#[trigger] after.users[i]).id
            == i + 1 && after.keys.contains(after.users[i].key_id) by {
            if i < n {
                assert(after.users[i] == self.users[i]);
            }
        }
    }

    /// Under the constraints, a lookup by key finds the one user who refers to it.
    pub proof fn lemma_user_by_key(self, key: u128, i: int)
        requires
            self.wf(),
            0 <= i < self.users.len(),
            self.users[i].key_id == key,
        ensures
            self.user_by_key(key) == Some(self.users[i]),
    {
        let j = choose|j: int| 0 <= j < self.users.len() && (#[trigger] self.users[j]).key_id == key;
        assert(i == j) by {
            if i < j {
                assert(self.users[i].key_id != self.users[j].key_id);
            } else if j < i {
                assert(self.users[j].key_id != self.users[i].key_id);
            }
        }
    }

    /// Under the constraints, a lookup by email finds the one user who has it.
    pub proof fn lemma_user_by_email(self, email: Seq<char>, i: int)
        requires
            self.wf(),
            0 <= i < self.users.len(),
            self.users[i].email == email,
        ensures
            self.user_by_email(email) == Some(self.users[i]),
    {
        let j = choose|j: int| 0 <= j < self.users.len() && (#[trigger] self.users[j]).email == email;
        assert(i == j) by {
            if i < j {
                assert(self.users[i].email != self.users[j].email);
            } else if j < i {
                assert(self.users[j].email != self.users[i].email);
            }
        }
    }

    /// Under the constraints, the user with number `id` is the `id`-th that was created.
    pub proof fn lemma_user_by_id(self, id: i32)
        requires
            self.wf(),
        ensures
            self.user_by_id(id) == if 1 <= id <= self.users.len() {
                Some(self.users[id - 1])
            } else {
                None
            },
    {
        if 1 <= id <= self.users.len() {
            assert(self.users[id - 1].id == id);
            let j = choose|j: int| 0 <= j < self.users.len() && (#[trigger] self.users[j]).id == id;
            assert(self.users[j].id == j + 1);
        } else {
            assert forall|i: int| 0 <= i < self.users.len() implies (#[trigger] self.users[i]).id
                != id by {
                assert(self.users[i].id == i + 1);
            }
        }
    }
}

/// The identifiers of a list of keys.
pub open spec fn identifiers(keys: Seq<Key>) -> Set<u128> {
    Set::new(|id: u128| exists|i: int| 0 <= i < keys.len() && (#[trigger] keys[i]).id == id)
}

/// The rows of a directory: the keys and the users, each in the order of
/// their arrival.
struct Tables {
    keys: Vec<Key>,
    users: Vec<User>,
}

impl View for Tables {
    type V = DirectoryView;

    closed spec fn view(&self) -> DirectoryView {
        DirectoryView { keys: identifiers(self.keys@), users: self.users.deep_view() }
    }
}

impl Tables {
    /// No rows.
    fn new() -> (r: Tables)
        ensures
            r@ == DirectoryView::empty(),
    {
        let r = Tables { keys: Vec::new(), users: Vec::new() };
        assert(r@.keys =~= Set::empty());
        assert(r@.users =~= Seq::empty());
        r
    }

    /// Adds a key.
    fn push_key(&mut self, key: Key)
        ensures
            final(self)@ == old(self)@.with_key(key.id),
    {
        let ghost before = self.keys@;
        self.keys.push(key);
        proof {
            assert forall|id: u128|
                identifiers(before.push(key)).contains(id) <==> identifiers(before).insert(
                    key.id,
                ).contains(id) by {
                if identifiers(before).contains(id) {
                    let i = choose|i: int| 0 <= i < before.len() && (#[trigger] before[i]).id == id;
                    assert(before.push(key)[i].id == id);
                }
                if id == key.id {
                    assert(before.push(key)[before.len() as int].id == id);
                }
                if identifiers(before.push(key)).contains(id) {
                    let i = choose|i: int|
                        0 <= i < before.push(key).len() && (#[trigger] before.push(key)[i]).id == id;
                    if i < before.len() {
                        assert(before[i].id == id);
                    }
                }
            }
            assert(identifiers(before.push(key)) =~= identifiers(before).insert(key.id));
        }
    }

    /// Adds a user.
    fn push_user(&mut self, user: User)
        ensures
            final(self)@ == old(self)@.with_user(user@),
    {
        self.users.push(user);
        assert(self.users.deep_view() =~= old(self).users.deep_view().push(user@));
    }
}

/// An in-memory store of keys and users that keeps the constraints of
/// [`DirectoryView::wf`] by refusing what would break them.
pub struct Directory {
    tables: Tables,
}

impl View for Directory {
    type V = DirectoryView;

    closed spec fn view(&self) -> DirectoryView {
        self.tables@
    }
}

impl Directory {
    /// Every directory keeps the constraints, at all times.
    #[verifier::type_invariant]
    pub open spec fn inv(self) -> bool {
        self@.wf()
    }

    /// A directory without keys and without users.
    pub fn new() -> (r: Directory)
        ensures
            r@ == DirectoryView::empty(),
    {
        Directory { tables: Tables::new() }
    }

    /// Issues a key. A key that was issued before is refused as a violation
    /// of uniqueness, and nothing changes.
    pub fn insert_key(&mut self, key: Key) -> (r: Result<(), DatabaseError>)
        ensures
            match r {
                Ok(_) => !old(self)@.has_key(key.id) && final(self)@ == old(self)@.with_key(
                    key.id,
                ),
                Err(error) => old(self)@.has_key(key.id) && error == DatabaseError::UniqueViolation
                    && final(self)@ == old(self)@,
            },
    {
        proof {
            use_type_invariant(&*self);
            self@.lemma_with_key_wf(key.id);
        }
        if self.find_key(key.id).is_some() {
            return Err(DatabaseError::UniqueViolation);
        }
        let mut tables = Tables::new();
        std::mem::swap(&mut tables, &mut self.tables);
        tables.push_key(key);
        self.tables = tables;
        Ok(())
    }

    /// Looks a key up by its identifier.
    pub fn find_key(&self, id: u128) -> (r: Option<Key>)
        ensures
            r == if self@.has_key(id) {
                Some(Key { id })
            } else {
                None
            },
    {
        let mut i: usize = 0;
        while i < self.tables.keys.len()
            invariant
                i <= self.tables.keys.len(),
                forall|j: int| 0 <= j < i ==> (#[trigger] self.tables.keys[j]).id != id,
            decreases self.tables.keys.len() - i,
        {
            if self.tables.keys[i].id == id {
                return Some(self.tables.keys[i]);
            }
            i += 1;
        }
        None
    }

    /// Looks up the user who refers to a key.
    pub fn find_user_by_key(&self, key: u128) -> (r: Option<User>)
        ensures
            r.deep_view() == self@.user_by_key(key),
    {
        proof {
            use_type_invariant(self);
        }
        let mut i: usize = 0;
        while i < self.tables.users.len()
            invariant
                i <= self.tables.users.len(),
                self@.wf(),
                forall|j: int| 0 <= j < i ==> (#[trigger] self@.users[j]).key_id != key,
            decreases self.tables.users.len() - i,
        {
            if self.tables.users[i].key_id == key {
                proof {
                    self@.lemma_user_by_key(key, i as int);
                }
                return Some(self.tables.users[i].copy());
            }
            i += 1;
        }
        None
    }

    /// Looks up the user who has an email.
    pub fn find_user_by_email(&self, email: &String) -> (r: Option<User>)
        ensures
            r.deep_view() == self@.user_by_email(email@),
    {
        proof {
            use_type_invariant(self);
        }
        let mut i: usize = 0;
        while i < self.tables.users.len()
            invariant
                i <= self.tables.users.len(),
                self@.wf(),
                forall|j: int| 0 <= j < i ==> (#[trigger] self@.users[j]).email != email@,
            decreases self.tables.users.len() - i,
        {
            if self.tables.users[i].email == *email {
                proof {
                    self@.lemma_user_by_email(email@, i as int);
                }
                return Some(self.tables.users[i].copy());
            }
            i += 1;
        }
        None
    }

    /// Looks up what may be shown of the user with a number.
    pub fn find_user(&self, id: i32) -> (r: Option<ViewableUser>)
        ensures
            r.deep_view() == match self@.user_by_id(id) {
                Some(user) => Some(shown(user)),
                None => None,
            },
    {
        proof {
            use_type_invariant(self);
            self@.lemma_user_by_id(id);
        }
        if 1 <= id && (id as usize) <= self.tables.users.len() {
            Some(self.tables.users[(id - 1) as usize].viewable())
        } else {
            None
        }
    }

    /// What may be shown of all users, in the order of their creation.
    pub fn all_users(&self) -> (r: Vec<ViewableUser>)
        ensures
            r.deep_view() == self@.shown_users(),
    {
        let mut shown_users: Vec<ViewableUser> = Vec::new();
        let mut i: usize = 0;
        while i < self.tables.users.len()
            invariant
                i <= self.tables.users.len(),
                shown_users.len() == i,
                forall|j: int| 0 <= j < i ==> (#[trigger] shown_users[j])@ == shown(self@.users[j]),
            decreases self.tables.users.len() - i,
        {
            shown_users.push(self.tables.users[i].viewable());
            i += 1;
        }
        assert(shown_users.deep_view() =~= self@.shown_users());
        shown_users
    }

    /// Inserts a row as a new user, created at the given time. A row that
    /// the constraints do not admit is refused, and nothing changes.
    pub fn insert_user(&mut self, row: &NewUserForm, created_at: u64) -> (r: Result<
        User,
        DatabaseError,
    >)
        ensures
            match r {
                Ok(user) => old(self)@.accepts(row@) && user@ == old(self)@.new_user(
                    row@,
                    created_at,
                ) && final(self)@ == old(self)@.with_user(user@),
                Err(error) => !old(self)@.accepts(row@) && error == old(self)@.refusal(row@)
                    && final(self)@ == old(self)@,
            },
    {
        proof {
            use_type_invariant(&*self);
        }
        if self.tables.users.len() >= i32::MAX as usize {
            return Err(DatabaseError::Database);
        }
        if self.find_user_by_email(&row.email).is_some() || self.find_user_by_key(
            row.key_id,
        ).is_some() {
            return Err(DatabaseError::UniqueViolation);
        }
        if self.find_key(row.key_id).is_none() {
            return Err(DatabaseError::Database);
        }
        let user = User {
            id: (self.tables.users.len() + 1) as i32,
            email: row.email.clone(),
            password: row.password.clone(),
            key_id: row.key_id,
            created_at,
        };
        let inserted = user.copy();
        proof {
            self@.lemma_insert_wf(row@, created_at);
        }
        let mut tables = Tables::new();
        std::mem::swap(&mut tables, &mut self.tables);
        tables.push_user(user);
        self.tables = tables;
        Ok(inserted)
    }
}

} // verus!
