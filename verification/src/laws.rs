//! Laws of the verification flow, each proved from the transition functions
//! of [`crate::flow`]: a code is single-use, an expired record counts as
//! absent, and a repeated request supersedes the earlier code.

use vstd::prelude::*;
use crate::flow::{
    StateModel, reg_request_allowed, reg_request_next, reg_code_ok, insert_blocked,
    reg_verify_next,
};
use crate::store::{Purpose, RecordModel, reg_match, login_match, TTL_MILLIS};
use crate::directory::{has_username, has_id};

verus! {

/// A code issued by an accepted registration request verifies exactly once:
/// right after the request it matches (within the time-to-live), verifying
/// it creates the account, and after that the same code never matches
/// again, at any later submission time.
pub proof fn lemma_registration_code_single_use(
    s: StateModel,
    username: Seq<char>,
    email: Seq<char>,
    code: u32,
    now: u64,
    now2: u64,
    id: Seq<char>,
    now3: u64,
)
    requires
        reg_request_allowed(s, username, email),
        !has_id(s.users, id),
        (now2 as int) < now + TTL_MILLIS,
    ensures
        ({
            let s1 = reg_request_next(s, username, email, code, now);
            let s2 = reg_verify_next(s1, username, email, code, now2, id);
            &&& reg_code_ok(s1, username, email, code, now2)
            &&& !insert_blocked(s1, username, email, id)
            &&& has_username(s2.users, username)
            &&& !reg_code_ok(s2, username, email, code, now3)
        }),
{
    let s1 = reg_request_next(s, username, email, code, now);
    let s2 = reg_verify_next(s1, username, email, code, now2, id);
    let n = s1.users.len() as int;
    assert(s2.users[n].username == username);
    assert(has_username(s2.users, username));
    assert(!s2.store.contains_key((email, Purpose::Register)));
}

/// A pending record whose age has reached the time-to-live is treated as
/// absent: no submission matches it, for either purpose, whatever code is
/// offered.
pub proof fn lemma_expired_record_is_absent(
    m: Map<(Seq<char>, Purpose), RecordModel>,
    username: Seq<char>,
    email: Seq<char>,
    code: u32,
    now: u64,
)
    ensures
        m.contains_key((email, Purpose::Register)) && m[(email, Purpose::Register)].created_at
            + TTL_MILLIS <= now ==> !reg_match(m, username, email, code, now),
        m.contains_key((email, Purpose::Login)) && m[(email, Purpose::Login)].created_at
            + TTL_MILLIS <= now ==> !login_match(m, email, code, now),
{
}

/// A second registration request for the same email supersedes the first:
/// provided the drawn codes differ, the first code no longer verifies at
/// any time, while the second verifies within its own time-to-live.
pub proof fn lemma_second_request_invalidates_first(
    s: StateModel,
    email: Seq<char>,
    u1: Seq<char>,
    c1: u32,
    now1: u64,
    u2: Seq<char>,
    c2: u32,
    now2: u64,
    now3: u64,
    now4: u64,
)
    requires
        c1 != c2,
        reg_request_allowed(s, u1, email),
        reg_request_allowed(s, u2, email),
        (now4 as int) < now2 + TTL_MILLIS,
    ensures
        ({
            let s1 = reg_request_next(s, u1, email, c1, now1);
            let s2 = reg_request_next(s1, u2, email, c2, now2);
            &&& !reg_code_ok(s2, u1, email, c1, now3)
            &&& reg_code_ok(s2, u2, email, c2, now4)
        }),
{
    let s1 = reg_request_next(s, u1, email, c1, now1);
    assert(s1.users == s.users);
    assert(reg_request_allowed(s1, u2, email));
}

} // verus!
