//! The verification store: a time-to-live backed mapping from an identity
//! (the email address together with what the code is for) to the single
//! pending verification record for that identity.
//!
//! The store enforces two things. First, at most one record is active per
//! `(email, purpose)` pair: storing a new record supersedes any prior one
//! for the same pair. Second, a record whose age has reached the time-to-live
//! is treated exactly as if it were absent, so an expired code and a wrong
//! code are indistinguishable to a caller.

use vstd::prelude::*;
use crate::text::str_eq;

verus! {

/// How long a pending verification code stays valid, in milliseconds.
pub const TTL_MILLIS: u64 = 180_000;

/// What a pending verification code is for.
#[derive(Debug, Clone, Copy, PartialEq, Eq, Structural)]
pub enum Purpose {
    Register,
    Login,
}

/// A short-lived record binding an identity and purpose to a one-time
/// numeric code. Timestamps are milliseconds since the Unix epoch.
#[derive(Debug, Clone)]
pub struct PendingVerification {
    pub username: String,
    pub email: String,
    pub code: u32,
    pub purpose: Purpose,
    pub created_at: u64,
}

/// The mathematical content of one pending record, without its key.
pub ghost struct RecordModel {
    pub username: Seq<char>,
    pub code: u32,
    pub created_at: u64,
}

impl View for PendingVerification {
    type V = RecordModel;

    open spec fn view(&self) -> RecordModel {
        RecordModel { username: self.username@, code: self.code, created_at: self.created_at }
    }
}

/// The identity a record is stored under: its email and its purpose.
pub open spec fn record_key(r: PendingVerification) -> (Seq<char>, Purpose) {
    (r.email@, r.purpose)
}

/// Whether a record is still within its time-to-live at time `now`.
pub open spec fn live_at(r: RecordModel, now: u64) -> bool {
    (now as int) < r.created_at + TTL_MILLIS
}

/// Whether the store holds a live registration record for exactly this
/// username, email and code.
pub open spec fn reg_match(
    m: Map<(Seq<char>, Purpose), RecordModel>,
    username: Seq<char>,
    email: Seq<char>,
    code: u32,
    now: u64,
) -> bool {
    let k = (email, Purpose::Register);
    m.contains_key(k) && m[k].username == username && m[k].code == code && live_at(m[k], now)
}

/// Whether the store holds a live login record for this email and code.
pub open spec fn login_match(
    m: Map<(Seq<char>, Purpose), RecordModel>,
    email: Seq<char>,
    code: u32,
    now: u64,
) -> bool {
    let k = (email, Purpose::Login);
    m.contains_key(k) && m[k].code == code && live_at(m[k], now)
}

/// Holds the pending verification records, at most one per
/// `(email, purpose)` pair. Viewed as a map from that pair to the record.
pub struct VerificationStore {
    records: Vec<PendingVerification>,
    model: Ghost<Map<(Seq<char>, Purpose), RecordModel>>,
}

impl View for VerificationStore {
    type V = Map<(Seq<char>, Purpose), RecordModel>;

    closed spec fn view(&self) -> Map<(Seq<char>, Purpose), RecordModel> {
        self.model@
    }
}

impl VerificationStore {
    /// The records carry pairwise distinct keys and agree with the map view.
    pub closed spec fn wf(&self) -> bool {
        &&& (forall|i: int, j: int|
            0 <= i < j < self.records@.len() ==> record_key(self.records@[i]) != record_key(
                self.records@[j],
            ))
        &&& (forall|i: int|
            0 <= i < self.records@.len() ==> self.model@.contains_pair(
                #[trigger] record_key(self.records@[i]),
                self.records@[i]@,
            ))
        &&& (forall|k: (Seq<char>, Purpose)| #[trigger]
            self.model@.contains_key(k) ==> exists|i: int|
                0 <= i < self.records@.len() && record_key(self.records@[i]) == k)
    }

    /// An empty store.
    pub fn new() -> (s: Self)
        ensures
            s.wf(),
            s@ == Map::<(Seq<char>, Purpose), RecordModel>::empty(),
    {
        VerificationStore { records: Vec::new(), model: Ghost(Map::empty()) }
    }

    /// The position of the record stored under `(email, purpose)`, if any.
    fn index_of(&self, email: &str, purpose: Purpose) -> (r: Option<usize>)
        ensures
            match r {
                Some(i) => i < self.records@.len() && record_key(self.records@[i as int]) == (
                    email@,
                    purpose,
                ),
                None => forall|i: int|
                    0 <= i < self.records@.len() ==> record_key(self.records@[i]) != (
                        email@,
                        purpose,
                    ),
            },
    {
        let len = self.records.len();
        let mut i: usize = 0;
        while i < len
            invariant
                0 <= i <= len,
                len == self.records@.len(),
                forall|j: int|
                    0 <= j < i ==> record_key(self.records@[j]) != (email@, purpose),
            decreases len - i,
        {
            let rec = &self.records[i];
            if rec.purpose == purpose && str_eq(rec.email.as_str(), email) {
                return Some(i);
            }
            i += 1;
        }
        None
    }

    /// Stores `rec`, first superseding any record with the same email and
    /// purpose, so the at-most-one-active invariant is kept.
    pub fn put(&mut self, rec: PendingVerification)
        requires
            old(self).wf(),
        ensures
            final(self).wf(),
            final(self)@ == old(self)@.insert((rec.email@, rec.purpose), rec@),
    {
        let ghost key = (rec.email@, rec.purpose);
        let ghost m0 = self.model@;
        let ghost recs0 = self.records@;
        let found = self.index_of(rec.email.as_str(), rec.purpose);
        self.model = Ghost(m0.insert(key, rec@));
        match found {
            Some(i) => {
                self.records[i] = rec;
                proof {
                    assert forall|k: (Seq<char>, Purpose)| #[trigger]
                        self.model@.contains_key(k) implies exists|i2: int|
                        0 <= i2 < self.records@.len() && record_key(self.records@[i2]) == k by {
                        if k == key {
                            assert(record_key(self.records@[i as int]) == k);
                        } else {
                            let i2 = choose|i2: int|
                                0 <= i2 < recs0.len() && record_key(recs0[i2]) == k;
                            assert(record_key(self.records@[i2]) == k);
                        }
                    }
                }
            },
            None => {
                self.records.push(rec);
                proof {
                    assert forall|k: (Seq<char>, Purpose)| #[trigger]
                        self.model@.contains_key(k) implies exists|i2: int|
                        0 <= i2 < self.records@.len() && record_key(self.records@[i2]) == k by {
                        if k == key {
                            assert(record_key(self.records@[recs0.len() as int]) == k);
                        } else {
                            let i2 = choose|i2: int|
                                0 <= i2 < recs0.len() && record_key(recs0[i2]) == k;
                            assert(record_key(self.records@[i2]) == k);
                        }
                    }
                }
            },
        }
    }

    /// Removes the record stored under `(email, purpose)`, if any. Used when
    /// a code is consumed, giving it single-use semantics.
    pub fn delete(&mut self, email: &str, purpose: Purpose)
        requires
            old(self).wf(),
        ensures
            final(self).wf(),
            final(self)@ == old(self)@.remove((email@, purpose)),
    {
        let ghost key = (email@, purpose);
        let ghost m0 = self.model@;
        let ghost recs0 = self.records@;
        match self.index_of(email, purpose) {
            Some(i) => {
                let _ = self.records.swap_remove(i);
                self.model = Ghost(m0.remove(key));
                proof {
                    assert forall|i2: int|
                        0 <= i2 < self.records@.len() implies self.model@.contains_pair(
                        #[trigger] record_key(self.records@[i2]),
                        self.records@[i2]@,
                    ) by {
                        if i2 == i && i < recs0.len() - 1 {
                            assert(self.records@[i2] == recs0[recs0.len() - 1]);
                        } else {
                            assert(self.records@[i2] == recs0[i2]);
                        }
                        assert(record_key(self.records@[i2]) != key);
                    }
                    assert forall|k: (Seq<char>, Purpose)| #[trigger]
                        self.model@.contains_key(k) implies exists|i2: int|
                        0 <= i2 < self.records@.len() && record_key(self.records@[i2]) == k by {
                        let i0 = choose|i0: int|
                            0 <= i0 < recs0.len() && record_key(recs0[i0]) == k;
                        if i0 == recs0.len() - 1 {
                            assert(record_key(self.records@[i as int]) == k);
                        } else {
                            assert(record_key(self.records@[i0]) == k);
                        }
                    }
                }
            },
            None => {
                proof {
                    if m0.contains_key(key) {
                        let i0 = choose|i0: int|
                            0 <= i0 < recs0.len() && record_key(recs0[i0]) == key;
                        assert(false);
                    }
                    assert(m0.remove(key) =~= m0);
                }
            },
        }
    }

    /// Whether a live registration record matches this username, email and
    /// code at time `now`.
    pub fn check_register(&self, username: &str, email: &str, code: u32, now: u64) -> (r: bool)
        requires
            self.wf(),
        ensures
            r == reg_match(self@, username@, email@, code, now),
    {
        match self.index_of(email, Purpose::Register) {
            Some(i) => {
                let rec = &self.records[i];
                let name_ok = str_eq(rec.username.as_str(), username);
                let code_ok = rec.code == code;
                let live = if now >= rec.created_at {
                    now - rec.created_at < TTL_MILLIS
                } else {
                    true
                };
                name_ok && code_ok && live
            },
            None => {
                proof {
                    if self.model@.contains_key((email@, Purpose::Register)) {
                        let i0 = choose|i0: int|
                            0 <= i0 < self.records@.len() && record_key(self.records@[i0]) == (
                                email@,
                                Purpose::Register,
                            );
                        assert(false);
                    }
                }
                false
            },
        }
    }

    /// Whether a live login record matches this email and code at time `now`.
    pub fn check_login(&self, email: &str, code: u32, now: u64) -> (r: bool)
        requires
            self.wf(),
        ensures
            r == login_match(self@, email@, code, now),
    {
        match self.index_of(email, Purpose::Login) {
            Some(i) => {
                let rec = &self.records[i];
                let code_ok = rec.code == code;
                let live = if now >= rec.created_at {
                    now - rec.created_at < TTL_MILLIS
                } else {
                    true
                };
                code_ok && live
            },
            None => {
                proof {
                    if self.model@.contains_key((email@, Purpose::Login)) {
                        let i0 = choose|i0: int|
                            0 <= i0 < self.records@.len() && record_key(self.records@[i0]) == (
                                email@,
                                Purpose::Login,
                            );
                        assert(false);
                    }
                }
                false
            },
        }
    }
}

} // verus!
