//! The verification flow controller: registration and login as two
//! challenge/response flows sharing one verification store.
//!
//! Each operation is a state transition over [`StateModel`]: the directory
//! of accounts together with the map of pending verification records. The
//! transition functions below say exactly which states each operation can
//! produce; the methods of [`AuthService`] are proved to realise them.

use vstd::prelude::*;
use crate::directory::{
    User, UserModel, UserDirectory, has_username, has_email, has_id, user_by_email, user_by_id,
    id_index,
};
use crate::store::{
    VerificationStore, PendingVerification, RecordModel, Purpose, reg_match, login_match,
};
use crate::errors::AppError;
use crate::text::{is_blank, spec_is_blank, str_eq};
use crate::random::generate_code;
use crate::ids::{new_object_id_hex, spec_is_object_id_hex};

verus! {

/// The whole authentication state: the account directory and the pending
/// verification records.
pub ghost struct StateModel {
    pub users: Seq<UserModel>,
    pub store: Map<(Seq<char>, Purpose), RecordModel>,
}

/// A registration request is accepted when both fields are non-blank and
/// neither the username nor the email is taken.
pub open spec fn reg_request_allowed(s: StateModel, username: Seq<char>, email: Seq<char>) -> bool {
    &&& !spec_is_blank(username)
    &&& !spec_is_blank(email)
    &&& !has_username(s.users, username)
    &&& !has_email(s.users, email)
}

/// The state after a registration request: an accepted request stores the
/// code under `(email, Register)`, superseding any prior record there; a
/// rejected one changes nothing.
pub open spec fn reg_request_next(
    s: StateModel,
    username: Seq<char>,
    email: Seq<char>,
    code: u32,
    now: u64,
) -> StateModel {
    if reg_request_allowed(s, username, email) {
        StateModel {
            users: s.users,
            store: s.store.insert(
                (email, Purpose::Register),
                RecordModel { username, code, created_at: now },
            ),
        }
    } else {
        s
    }
}

/// Whether a live registration code matches this submission.
pub open spec fn reg_code_ok(
    s: StateModel,
    username: Seq<char>,
    email: Seq<char>,
    code: u32,
    now: u64,
) -> bool {
    reg_match(s.store, username, email, code, now)
}

/// Whether inserting a fresh account would collide with an existing one on
/// any unique key.
pub open spec fn insert_blocked(
    s: StateModel,
    username: Seq<char>,
    email: Seq<char>,
    id: Seq<char>,
) -> bool {
    has_username(s.users, username) || has_email(s.users, email) || has_id(s.users, id)
}

/// The state after a registration verification: on a live matching code and
/// an unblocked insert, the account is created and the code is consumed;
/// otherwise nothing changes. In particular a blocked insert keeps the
/// pending record, so the caller may retry.
pub open spec fn reg_verify_next(
    s: StateModel,
    username: Seq<char>,
    email: Seq<char>,
    code: u32,
    now: u64,
    id: Seq<char>,
) -> StateModel {
    if reg_code_ok(s, username, email, code, now) && !insert_blocked(s, username, email, id) {
        StateModel {
            users: s.users.push(UserModel { id, username, email }),
            store: s.store.remove((email, Purpose::Register)),
        }
    } else {
        s
    }
}

/// The state after a login request: for a known email the code is stored
/// under `(email, Login)`, superseding any prior record there; for an
/// unknown email nothing changes, and in particular no pending record is
/// ever written.
pub open spec fn login_request_next(
    s: StateModel,
    email: Seq<char>,
    code: u32,
    now: u64,
) -> StateModel {
    if has_email(s.users, email) {
        StateModel {
            users: s.users,
            store: s.store.insert(
                (email, Purpose::Login),
                RecordModel {
                    username: user_by_email(s.users, email).username,
                    code,
                    created_at: now,
                },
            ),
        }
    } else {
        s
    }
}

/// Whether a live login code matches this submission.
pub open spec fn login_code_ok(s: StateModel, email: Seq<char>, code: u32, now: u64) -> bool {
    login_match(s.store, email, code, now)
}

/// The state after a login verification: on a live matching code for a
/// known email the code is consumed; otherwise nothing changes.
pub open spec fn login_verify_next(s: StateModel, email: Seq<char>, code: u32, now: u64) -> StateModel {
    if login_code_ok(s, email, code, now) && has_email(s.users, email) {
        StateModel { users: s.users, store: s.store.remove((email, Purpose::Login)) }
    } else {
        s
    }
}

/// A username change is accepted when the account exists, the new name is
/// not blank and no account (including this one) already carries it.
pub open spec fn rename_allowed(s: StateModel, id: Seq<char>, new_name: Seq<char>) -> bool {
    has_id(s.users, id) && !spec_is_blank(new_name) && !has_username(s.users, new_name)
}

/// The state after a username change: the account keeps its id and email
/// and takes the new name; a rejected change alters nothing.
pub open spec fn rename_next(s: StateModel, id: Seq<char>, new_name: Seq<char>) -> StateModel {
    if rename_allowed(s, id, new_name) {
        StateModel {
            users: s.users.update(
                id_index(s.users, id),
                UserModel { username: new_name, ..user_by_id(s.users, id) },
            ),
            store: s.store,
        }
    } else {
        s
    }
}

/// Orchestrates the registration and login flows against the user
/// directory and the verification store.
pub struct AuthService {
    pub users: UserDirectory,
    pub store: VerificationStore,
}

impl View for AuthService {
    type V = StateModel;

    open spec fn view(&self) -> StateModel {
        StateModel { users: self.users@, store: self.store@ }
    }
}

impl AuthService {
    /// Both halves are well-formed.
    pub open spec fn wf(&self) -> bool {
        self.users.wf() && self.store.wf()
    }

    /// A service with no accounts and no pending codes.
    pub fn new() -> (s: Self)
        ensures
            s.wf(),
            s@.users == Seq::<UserModel>::empty(),
            s@.store == Map::<(Seq<char>, Purpose), RecordModel>::empty(),
    {
        AuthService { users: UserDirectory::new(), store: VerificationStore::new() }
    }

    /// The registration request with the verification code given by the
    /// caller: validates both fields, rejects taken usernames and emails,
    /// and stores the code. Checks run before any mutation, so a rejected
    /// request writes nothing.
    pub fn request_registration_with(
        &mut self,
        username: &str,
        email: &str,
        code: u32,
        now: u64,
    ) -> (r: Result<(), AppError>)
        requires
            old(self).wf(),
        ensures
            final(self).wf(),
            final(self)@ == reg_request_next(old(self)@, username@, email@, code, now),
            r is Ok <==> reg_request_allowed(old(self)@, username@, email@),
            spec_is_blank(username@) ==> (r matches Err(AppError::InvalidInput(m)) && m@
                == "Username Error"@),
            !spec_is_blank(username@) && spec_is_blank(email@) ==> (r matches Err(
                AppError::InvalidInput(m),
            ) && m@ == "Email Error"@),
            !spec_is_blank(username@) && !spec_is_blank(email@) && (has_username(
                old(self)@.users,
                username@,
            ) || has_email(old(self)@.users, email@)) ==> r matches Err(AppError::UserAlreadyExists),
    {
        if is_blank(username) {
            return Err(AppError::InvalidInput(String::from_str("Username Error")));
        }
        if is_blank(email) {
            return Err(AppError::InvalidInput(String::from_str("Email Error")));
        }
        if self.users.find_by_username(username).is_some() {
            return Err(AppError::UserAlreadyExists);
        }
        if self.users.find_by_email(email).is_some() {
            return Err(AppError::UserAlreadyExists);
        }
        let rec = PendingVerification {
            username: String::from_str(username),
            email: String::from_str(email),
            code,
            purpose: Purpose::Register,
            created_at: now,
        };
        self.store.put(rec);
        Ok(())
    }

    /// Requests a registration: draws a fresh six-digit code, stores it and
    /// returns it so the caller can deliver it to the email address.
    pub fn request_registration(&mut self, username: &str, email: &str, now: u64) -> (r: Result<
        u32,
        AppError,
    >)
        requires
            old(self).wf(),
        ensures
            final(self).wf(),
            match r {
                Ok(code) => 100_000 <= code <= 999_999 && reg_request_allowed(
                    old(self)@,
                    username@,
                    email@,
                ) && final(self)@ == reg_request_next(old(self)@, username@, email@, code, now),
                Err(_) => !reg_request_allowed(old(self)@, username@, email@) && final(self)@ == old(
                    self,
                )@,
            },
            spec_is_blank(username@) ==> (r matches Err(AppError::InvalidInput(m)) && m@
                == "Username Error"@),
            !spec_is_blank(username@) && spec_is_blank(email@) ==> (r matches Err(
                AppError::InvalidInput(m),
            ) && m@ == "Email Error"@),
            !spec_is_blank(username@) && !spec_is_blank(email@) && (has_username(
                old(self)@.users,
                username@,
            ) || has_email(old(self)@.users, email@)) ==> r matches Err(AppError::UserAlreadyExists),
    {
        let code = generate_code();
        match self.request_registration_with(username, email, code, now) {
            Ok(()) => Ok(code),
            Err(e) => Err(e),
        }
    }

    /// The registration verification with the fresh account id given by the
    /// caller. A missing, wrong or expired code is one indistinguishable
    /// failure; a collision on account insert surfaces as a storage error
    /// and keeps the pending record so the caller may retry.
    pub fn verify_registration_with(
        &mut self,
        username: &str,
        email: &str,
        code: u32,
        now: u64,
        id: String,
    ) -> (r: Result<User, AppError>)
        requires
            old(self).wf(),
        ensures
            final(self).wf(),
            final(self)@ == reg_verify_next(old(self)@, username@, email@, code, now, id@),
            !reg_code_ok(old(self)@, username@, email@, code, now) ==> r matches Err(
                AppError::InvalidOrExpiredCode,
            ),
            reg_code_ok(old(self)@, username@, email@, code, now) && insert_blocked(
                old(self)@,
                username@,
                email@,
                id@,
            ) ==> r matches Err(AppError::DatabaseError(_)),
            reg_code_ok(old(self)@, username@, email@, code, now) && !insert_blocked(
                old(self)@,
                username@,
                email@,
                id@,
            ) ==> (r matches Ok(u) && u@ == UserModel {
                id: id@,
                username: username@,
                email: email@,
            }),
    {
        if !self.store.check_register(username, email, code, now) {
            return Err(AppError::InvalidOrExpiredCode);
        }
        let returned = User {
            id: id.clone(),
            username: String::from_str(username),
            email: String::from_str(email),
        };
        let stored = User {
            id,
            username: String::from_str(username),
            email: String::from_str(email),
        };
        match self.users.insert(stored) {
            Ok(()) => {},
            Err(e) => {
                // the code stays stored: the caller may retry once the
                // collision is gone
                return Err(e);
            },
        }
        self.store.delete(email, Purpose::Register);
        Ok(returned)
    }

    /// Verifies a registration: on a live matching code, creates the
    /// account under a freshly drawn id and consumes the code. Success is
    /// owed whenever the code matches and no admissible id can collide: the
    /// drawn id is always well-formed, so only a directory that blocks one
    /// can force the storage-error outcome.
    pub fn verify_registration(&mut self, username: &str, email: &str, code: u32, now: u64) -> (r:
        Result<User, AppError>)
        requires
            old(self).wf(),
        ensures
            final(self).wf(),
            reg_code_ok(old(self)@, username@, email@, code, now) && (forall|fresh: Seq<char>|
                spec_is_object_id_hex(fresh) ==> !insert_blocked(
                    old(self)@,
                    username@,
                    email@,
                    fresh,
                )) ==> r is Ok,
            match r {
                Ok(u) => reg_code_ok(old(self)@, username@, email@, code, now) && u@.username
                    == username@ && u@.email == email@ && spec_is_object_id_hex(u@.id)
                    && !insert_blocked(old(self)@, username@, email@, u@.id) && final(self)@
                    == reg_verify_next(old(self)@, username@, email@, code, now, u@.id),
                Err(e) => final(self)@ == old(self)@ && (!reg_code_ok(
                    old(self)@,
                    username@,
                    email@,
                    code,
                    now,
                ) <==> e is InvalidOrExpiredCode) && (reg_code_ok(
                    old(self)@,
                    username@,
                    email@,
                    code,
                    now,
                ) ==> e matches AppError::DatabaseError(_)),
            },
    {
        let id = new_object_id_hex();
        let ghost idv = id@;
        let r = self.verify_registration_with(username, email, code, now, id);
        proof {
            if forall|fresh: Seq<char>|
                spec_is_object_id_hex(fresh) ==> !insert_blocked(
                    old(self)@,
                    username@,
                    email@,
                    fresh,
                ) {
                assert(spec_is_object_id_hex(idv));
                assert(!insert_blocked(old(self)@, username@, email@, idv));
            }
        }
        r
    }

    /// The login request with the verification code given by the caller:
    /// for a known email, stores the code under `(email, Login)`. For an
    /// unknown email nothing is ever written.
    pub fn request_login_with(&mut self, email: &str, code: u32, now: u64) -> (r: Result<
        (),
        AppError,
    >)
        requires
            old(self).wf(),
        ensures
            final(self).wf(),
            final(self)@ == login_request_next(old(self)@, email@, code, now),
            r is Ok <==> has_email(old(self)@.users, email@),
            !has_email(old(self)@.users, email@) ==> r matches Err(AppError::UserNotFound),
    {
        let username = match self.users.find_by_email(email) {
            Some(u) => u.username.clone(),
            None => { return Err(AppError::UserNotFound); },
        };
        // storing supersedes any earlier pending login record for the email
        let rec = PendingVerification {
            username,
            email: String::from_str(email),
            code,
            purpose: Purpose::Login,
            created_at: now,
        };
        self.store.put(rec);
        Ok(())
    }

    /// Requests a login: draws a fresh six-digit code for a known email,
    /// stores it and returns it so the caller can deliver it.
    pub fn request_login(&mut self, email: &str, now: u64) -> (r: Result<u32, AppError>)
        requires
            old(self).wf(),
        ensures
            final(self).wf(),
            match r {
                Ok(code) => 100_000 <= code <= 999_999 && has_email(old(self)@.users, email@)
                    && final(self)@ == login_request_next(old(self)@, email@, code, now),
                Err(e) => !has_email(old(self)@.users, email@) && e is UserNotFound && final(self)@
                    == old(self)@,
            },
    {
        let code = generate_code();
        match self.request_login_with(email, code, now) {
            Ok(()) => Ok(code),
            Err(e) => Err(e),
        }
    }

    /// Verifies a login: on a live matching code, loads the account and
    /// consumes the code. The account may have vanished between request and
    /// verification; that case fails without consuming the code.
    pub fn verify_login(&mut self, email: &str, code: u32, now: u64) -> (r: Result<User, AppError>)
        requires
            old(self).wf(),
        ensures
            final(self).wf(),
            final(self)@ == login_verify_next(old(self)@, email@, code, now),
            !login_code_ok(old(self)@, email@, code, now) ==> r matches Err(
                AppError::InvalidOrExpiredCode,
            ),
            login_code_ok(old(self)@, email@, code, now) && !has_email(old(self)@.users, email@)
                ==> r matches Err(AppError::UserNotFound),
            login_code_ok(old(self)@, email@, code, now) && has_email(old(self)@.users, email@)
                ==> (r matches Ok(u) && u@ == user_by_email(old(self)@.users, email@)),
    {
        if !self.store.check_login(email, code, now) {
            return Err(AppError::InvalidOrExpiredCode);
        }
        let user = match self.users.find_by_email(email) {
            Some(u) => User {
                id: u.id.clone(),
                username: u.username.clone(),
                email: u.email.clone(),
            },
            None => { return Err(AppError::UserNotFound); },
        };
        self.store.delete(email, Purpose::Login);
        Ok(user)
    }

    /// Looks an account up by its id.
    pub fn get_user(&self, id: &str) -> (r: Result<&User, AppError>)
        requires
            self.wf(),
        ensures
            match r {
                Ok(u) => has_id(self@.users, id@) && u@ == user_by_id(self@.users, id@),
                Err(e) => !has_id(self@.users, id@) && e is UserNotFound,
            },
    {
        match self.users.find_by_id(id) {
            Some(u) => Ok(u),
            None => Err(AppError::UserNotFound),
        }
    }

    /// Changes an account's username: the account must exist, the new name
    /// must not be blank, must differ from the current one and must not be
    /// taken by anyone.
    pub fn change_username(&mut self, id: &str, new_name: &str) -> (r: Result<(), AppError>)
        requires
            old(self).wf(),
        ensures
            final(self).wf(),
            final(self)@ == rename_next(old(self)@, id@, new_name@),
            r is Ok <==> rename_allowed(old(self)@, id@, new_name@),
            !has_id(old(self)@.users, id@) ==> r matches Err(AppError::UserNotFound),
            has_id(old(self)@.users, id@) && spec_is_blank(new_name@) ==> r matches Err(
                AppError::InvalidToken,
            ),
            has_id(old(self)@.users, id@) && !spec_is_blank(new_name@) && has_username(
                old(self)@.users,
                new_name@,
            ) ==> r matches Err(AppError::UserAlreadyExists),
    {
        let current = match self.users.find_by_id(id) {
            Some(u) => u.username.clone(),
            None => { return Err(AppError::UserNotFound); },
        };
        if is_blank(new_name) {
            return Err(AppError::InvalidToken);
        }
        if str_eq(current.as_str(), new_name) {
            proof {
                let ix = id_index(old(self)@.users, id@);
                assert(has_username(old(self)@.users, new_name@));
            }
            return Err(AppError::UserAlreadyExists);
        }
        if self.users.find_by_username(new_name).is_some() {
            return Err(AppError::UserAlreadyExists);
        }
        self.users.rename(id, new_name);
        Ok(())
    }
}

} // verus!
