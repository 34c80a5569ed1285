//! The user directory: the persistent collection of accounts, keyed by
//! unique username, unique email and unique id. Lookups are keyed only;
//! an insert that collides on any key fails the way a storage layer with
//! unique indexes would.

use vstd::prelude::*;
use crate::errors::AppError;
use crate::text::str_eq;

verus! {

/// One user account. The id is an opaque unique identifier rendered as text.
#[derive(Debug, Clone)]
pub struct User {
    pub id: String,
    pub username: String,
    pub email: String,
}

/// The mathematical content of one account.
pub ghost struct UserModel {
    pub id: Seq<char>,
    pub username: Seq<char>,
    pub email: Seq<char>,
}

impl View for User {
    type V = UserModel;

    open spec fn view(&self) -> UserModel {
        UserModel { id: self.id@, username: self.username@, email: self.email@ }
    }
}

/// Whether some account carries this username.
pub open spec fn has_username(users: Seq<UserModel>, name: Seq<char>) -> bool {
    exists|i: int| 0 <= i < users.len() && users[i].username == name
}

/// Whether some account carries this email.
pub open spec fn has_email(users: Seq<UserModel>, email: Seq<char>) -> bool {
    exists|i: int| 0 <= i < users.len() && users[i].email == email
}

/// Whether some account carries this id.
pub open spec fn has_id(users: Seq<UserModel>, id: Seq<char>) -> bool {
    exists|i: int| 0 <= i < users.len() && users[i].id == id
}

/// The position of the account with this email; meaningful under
/// [`has_email`] and uniqueness.
pub open spec fn email_index(users: Seq<UserModel>, email: Seq<char>) -> int {
    choose|i: int| 0 <= i < users.len() && users[i].email == email
}

/// The account with this email; meaningful under [`has_email`] and uniqueness.
pub open spec fn user_by_email(users: Seq<UserModel>, email: Seq<char>) -> UserModel {
    users[email_index(users, email)]
}

/// The position of the account with this id; meaningful under [`has_id`]
/// and uniqueness.
pub open spec fn id_index(users: Seq<UserModel>, id: Seq<char>) -> int {
    choose|i: int| 0 <= i < users.len() && users[i].id == id
}

/// The account with this id; meaningful under [`has_id`] and uniqueness.
pub open spec fn user_by_id(users: Seq<UserModel>, id: Seq<char>) -> UserModel {
    users[id_index(users, id)]
}

/// No two accounts share a username, an email or an id.
pub open spec fn users_distinct(users: Seq<UserModel>) -> bool {
    forall|i: int, j: int|
        0 <= i < j < users.len() ==> users[i].username != users[j].username && users[i].email
            != users[j].email && users[i].id != users[j].id
}

/// Under uniqueness, an account found at position `i` by email is the one
/// that [`user_by_email`] denotes.
pub proof fn lemma_email_witness(users: Seq<UserModel>, i: int)
    requires
        users_distinct(users),
        0 <= i < users.len(),
    ensures
        has_email(users, users[i].email),
        email_index(users, users[i].email) == i,
        user_by_email(users, users[i].email) == users[i],
{
    let email = users[i].email;
    assert(0 <= i < users.len() && users[i].email == email);
    let c = email_index(users, email);
    if c < i {
        assert(users[c].email != users[i].email);
    } else if i < c {
        assert(users[i].email != users[c].email);
    }
}

/// Under uniqueness, an account found at position `i` by id is the one
/// that [`user_by_id`] denotes.
pub proof fn lemma_id_witness(users: Seq<UserModel>, i: int)
    requires
        users_distinct(users),
        0 <= i < users.len(),
    ensures
        has_id(users, users[i].id),
        id_index(users, users[i].id) == i,
        user_by_id(users, users[i].id) == users[i],
{
    let id = users[i].id;
    assert(0 <= i < users.len() && users[i].id == id);
    let c = id_index(users, id);
    if c < i {
        assert(users[c].id != users[i].id);
    } else if i < c {
        assert(users[i].id != users[c].id);
    }
}

/// The collection of user accounts, viewed as the sequence of their models.
pub struct UserDirectory {
    users: Vec<User>,
}

impl View for UserDirectory {
    type V = Seq<UserModel>;

    closed spec fn view(&self) -> Seq<UserModel> {
        self.users@.map_values(|u: User| u@)
    }
}

impl UserDirectory {
    /// Usernames, emails and ids are pairwise distinct.
    pub open spec fn wf(&self) -> bool {
        users_distinct(self@)
    }

    /// An empty directory.
    pub fn new() -> (d: Self)
        ensures
            d.wf(),
            d@ == Seq::<UserModel>::empty(),
    {
        let d = UserDirectory { users: Vec::new() };
        proof {
            assert(d@ =~= Seq::<UserModel>::empty());
        }
        d
    }

    /// The position of the account with this username, if any.
    fn index_of_username(&self, name: &str) -> (r: Option<usize>)
        ensures
            match r {
                Some(i) => i < self@.len() && self@[i as int].username == name@,
                None => !has_username(self@, name@),
            },
    {
        let len = self.users.len();
        let mut i: usize = 0;
        while i < len
            invariant
                0 <= i <= len,
                len == self@.len(),
                len == self.users@.len(),
                forall|j: int| 0 <= j < i ==> self@[j].username != name@,
            decreases len - i,
        {
            if str_eq(self.users[i].username.as_str(), name) {
                return Some(i);
            }
            i += 1;
        }
        None
    }

    /// The position of the account with this email, if any.
    fn index_of_email(&self, email: &str) -> (r: Option<usize>)
        ensures
            match r {
                Some(i) => i < self@.len() && self@[i as int].email == email@,
                None => !has_email(self@, email@),
            },
    {
        let len = self.users.len();
        let mut i: usize = 0;
        while i < len
            invariant
                0 <= i <= len,
                len == self@.len(),
                len == self.users@.len(),
                forall|j: int| 0 <= j < i ==> self@[j].email != email@,
            decreases len - i,
        {
            if str_eq(self.users[i].email.as_str(), email) {
                return Some(i);
            }
            i += 1;
        }
        None
    }

    /// The position of the account with this id, if any.
    fn index_of_id(&self, id: &str) -> (r: Option<usize>)
        ensures
            match r {
                Some(i) => i < self@.len() && self@[i as int].id == id@,
                None => !has_id(self@, id@),
            },
    {
        let len = self.users.len();
        let mut i: usize = 0;
        while i < len
            invariant
                0 <= i <= len,
                len == self@.len(),
                len == self.users@.len(),
                forall|j: int| 0 <= j < i ==> self@[j].id != id@,
            decreases len - i,
        {
            if str_eq(self.users[i].id.as_str(), id) {
                return Some(i);
            }
            i += 1;
        }
        None
    }

    /// Looks an account up by its username.
    pub fn find_by_username(&self, name: &str) -> (r: Option<&User>)
        requires
            self.wf(),
        ensures
            match r {
                Some(u) => has_username(self@, name@) && u@.username == name@ && has_id(
                    self@,
                    u@.id,
                ) && u@ == user_by_id(self@, u@.id),
                None => !has_username(self@, name@),
            },
    {
        match self.index_of_username(name) {
            Some(i) => {
                proof {
                    lemma_id_witness(self@, i as int);
                }
                Some(&self.users[i])
            },
            None => None,
        }
    }

    /// Looks an account up by its email.
    pub fn find_by_email(&self, email: &str) -> (r: Option<&User>)
        requires
            self.wf(),
        ensures
            match r {
                Some(u) => has_email(self@, email@) && u@ == user_by_email(self@, email@),
                None => !has_email(self@, email@),
            },
    {
        match self.index_of_email(email) {
            Some(i) => {
                proof {
                    lemma_email_witness(self@, i as int);
                }
                Some(&self.users[i])
            },
            None => None,
        }
    }

    /// Looks an account up by its id.
    pub fn find_by_id(&self, id: &str) -> (r: Option<&User>)
        requires
            self.wf(),
        ensures
            match r {
                Some(u) => has_id(self@, id@) && u@ == user_by_id(self@, id@),
                None => !has_id(self@, id@),
            },
    {
        match self.index_of_id(id) {
            Some(i) => {
                proof {
                    lemma_id_witness(self@, i as int);
                }
                Some(&self.users[i])
            },
            None => None,
        }
    }

    /// Inserts an account. Fails like a storage layer with unique indexes:
    /// a collision on username, email or id is a duplicate-key error and
    /// leaves the directory unchanged.
    pub fn insert(&mut self, u: User) -> (r: Result<(), AppError>)
        requires
            old(self).wf(),
        ensures
            final(self).wf(),
            ({
                let taken = has_username(old(self)@, u@.username) || has_email(old(self)@, u@.email)
                    || has_id(old(self)@, u@.id);
                if taken {
                    r matches Err(AppError::DatabaseError(_)) && final(self)@ == old(self)@
                } else {
                    r is Ok && final(self)@ == old(self)@.push(u@)
                }
            }),
    {
        if self.index_of_username(u.username.as_str()).is_some() || self.index_of_email(
            u.email.as_str(),
        ).is_some() || self.index_of_id(u.id.as_str()).is_some() {
            return Err(AppError::DatabaseError(String::from_str("duplicate key")));
        }
        let ghost before = self@;
        let ghost um = u@;
        self.users.push(u);
        proof {
            assert(self@ =~= before.push(um));
        }
        Ok(())
    }

    /// Gives the account with this id a new, untaken username.
    pub fn rename(&mut self, id: &str, new_name: &str)
        requires
            old(self).wf(),
            has_id(old(self)@, id@),
            !has_username(old(self)@, new_name@),
        ensures
            final(self).wf(),
            final(self)@ == old(self)@.update(
                id_index(old(self)@, id@),
                UserModel {
                    username: new_name@,
                    ..old(self)@[id_index(old(self)@, id@)]
                },
            ),
    {
        let ghost before = self@;
        match self.index_of_id(id) {
            Some(i) => {
                proof {
                    lemma_id_witness(self@, i as int);
                }
                let u = &mut self.users[i];
                u.username = String::from_str(new_name);
                proof {
                    assert(self@ =~= before.update(
                        i as int,
                        UserModel { username: new_name@, ..before[i as int] },
                    ));
                }
            },
            None => {
                proof {
                    assert(false);
                }
            },
        }
    }
}

} // verus!
