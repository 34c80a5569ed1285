//! One-time passwords outside the main flows: a scoped store of short-lived
//! six-digit passwords per user, and time-based (authenticator-app) codes
//! drawn from totp_rs through trusted wrappers.

use vstd::prelude::*;
use crate::errors::AppError;
use crate::random::{random_u32, random_secret_bytes};
use crate::text::{str_eq, code_string, spec_code_digits};

verus! {

/// How long a one-time password stays valid, in milliseconds: five minutes.
pub const OTP_TTL_MILLIS: u64 = 300_000;

/// One stored one-time password. Timestamps are milliseconds since the
/// Unix epoch.
#[derive(Debug, Clone)]
pub struct OtpEntry {
    pub user_id: String,
    pub otp: String,
    pub expires_at: u64,
}

/// The mathematical content of one entry, without its key.
pub ghost struct OtpModel {
    pub otp: Seq<char>,
    pub expires_at: u64,
}

/// A scoped store of one-time passwords, at most one per user id. Viewed
/// as a map from the user id to the pending password.
pub struct OtpStore {
    entries: Vec<OtpEntry>,
    model: Ghost<Map<Seq<char>, OtpModel>>,
}

/// The identity an entry is stored under.
pub open spec fn otp_key(e: OtpEntry) -> Seq<char> {
    e.user_id@
}

/// The mathematical content of an entry.
pub open spec fn otp_model(e: OtpEntry) -> OtpModel {
    OtpModel { otp: e.otp@, expires_at: e.expires_at }
}

impl View for OtpStore {
    type V = Map<Seq<char>, OtpModel>;

    closed spec fn view(&self) -> Map<Seq<char>, OtpModel> {
        self.model@
    }
}

impl OtpStore {
    /// The entries carry pairwise distinct user ids and agree with the map
    /// view.
    pub closed spec fn wf(&self) -> bool {
        &&& (forall|i: int, j: int|
            0 <= i < j < self.entries@.len() ==> otp_key(self.entries@[i]) != otp_key(
                self.entries@[j],
            ))
        &&& (forall|i: int|
            0 <= i < self.entries@.len() ==> self.model@.contains_pair(
                #[trigger] otp_key(self.entries@[i]),
                otp_model(self.entries@[i]),
            ))
        &&& (forall|k: Seq<char>| #[trigger]
            self.model@.contains_key(k) ==> exists|i: int|
                0 <= i < self.entries@.len() && otp_key(self.entries@[i]) == k)
    }

    /// An empty store.
    pub fn new() -> (s: Self)
        ensures
            s.wf(),
            s@ == Map::<Seq<char>, OtpModel>::empty(),
    {
        OtpStore { entries: Vec::new(), model: Ghost(Map::empty()) }
    }

    /// The position of the entry for `user_id`, if any.
    fn index_of(&self, user_id: &str) -> (r: Option<usize>)
        ensures
            match r {
                Some(i) => i < self.entries@.len() && otp_key(self.entries@[i as int]) == user_id@,
                None => forall|i: int|
                    0 <= i < self.entries@.len() ==> otp_key(self.entries@[i]) != user_id@,
            },
    {
        let len = self.entries.len();
        let mut i: usize = 0;
        while i < len
            invariant
                0 <= i <= len,
                len == self.entries@.len(),
                forall|j: int| 0 <= j < i ==> otp_key(self.entries@[j]) != user_id@,
            decreases len - i,
        {
            if str_eq(self.entries[i].user_id.as_str(), user_id) {
                return Some(i);
            }
            i += 1;
        }
        None
    }

    /// Issues the one-time password computed from the given raw draw: the
    /// six digits of `raw` modulo one million, replacing any password the
    /// user already had, valid for five minutes from `now`.
    pub fn generate_otp_with(&mut self, user_id: &str, raw: u32, now: u64) -> (r: String)
        requires
            old(self).wf(),
            now + OTP_TTL_MILLIS <= u64::MAX,
        ensures
            final(self).wf(),
            r@ == spec_code_digits((raw % 1_000_000) as u32),
            final(self)@ == old(self)@.insert(
                user_id@,
                OtpModel { otp: r@, expires_at: (now + OTP_TTL_MILLIS) as u64 },
            ),
    {
        let otp = code_string(raw % 1_000_000);
        let entry = OtpEntry {
            user_id: String::from_str(user_id),
            otp: otp.clone(),
            expires_at: now + OTP_TTL_MILLIS,
        };
        let ghost key = user_id@;
        let ghost m0 = self.model@;
        let ghost entries0 = self.entries@;
        let found = self.index_of(user_id);
        self.model = Ghost(m0.insert(key, otp_model(entry)));
        match found {
            Some(i) => {
                self.entries[i] = entry;
                proof {
                    assert forall|k: Seq<char>| #[trigger]
                        self.model@.contains_key(k) implies exists|i2: int|
                        0 <= i2 < self.entries@.len() && otp_key(self.entries@[i2]) == k by {
                        if k == key {
                            assert(otp_key(self.entries@[i as int]) == k);
                        } else {
                            let i2 = choose|i2: int|
                                0 <= i2 < entries0.len() && otp_key(entries0[i2]) == k;
                            assert(otp_key(self.entries@[i2]) == k);
                        }
                    }
                }
            },
            None => {
                self.entries.push(entry);
                proof {
                    assert forall|k: Seq<char>| #[trigger]
                        self.model@.contains_key(k) implies exists|i2: int|
                        0 <= i2 < self.entries@.len() && otp_key(self.entries@[i2]) == k by {
                        if k == key {
                            assert(otp_key(self.entries@[entries0.len() as int]) == k);
                        } else {
                            let i2 = choose|i2: int|
                                0 <= i2 < entries0.len() && otp_key(entries0[i2]) == k;
                            assert(otp_key(self.entries@[i2]) == k);
                        }
                    }
                }
            },
        }
        otp
    }

    /// Issues a fresh random one-time password for the user: six digits,
    /// replacing any prior one, valid for five minutes from `now`.
    pub fn generate_otp(&mut self, user_id: &str, now: u64) -> (r: String)
        requires
            old(self).wf(),
            now + OTP_TTL_MILLIS <= u64::MAX,
        ensures
            final(self).wf(),
            r@.len() == 6,
            final(self)@ == old(self)@.insert(
                user_id@,
                OtpModel { otp: r@, expires_at: (now + OTP_TTL_MILLIS) as u64 },
            ),
    {
        let raw = random_u32();
        self.generate_otp_with(user_id, raw, now)
    }

    /// Checks a one-time password: true exactly when the stored password
    /// matches and has not expired at `now`, and then consumes it, so it
    /// cannot be replayed.
    pub fn verify_otp(&mut self, user_id: &str, otp: &str, now: u64) -> (r: bool)
        requires
            old(self).wf(),
        ensures
            final(self).wf(),
            r == (old(self)@.contains_key(user_id@) && old(self)@[user_id@].otp == otp@ && now < old(
                self,
            )@[user_id@].expires_at),
            r ==> final(self)@ == old(self)@.remove(user_id@),
            !r ==> final(self)@ == old(self)@,
    {
        let ghost key = user_id@;
        let ghost m0 = self.model@;
        let ghost entries0 = self.entries@;
        match self.index_of(user_id) {
            Some(i) => {
                let ok = {
                    let entry = &self.entries[i];
                    str_eq(entry.otp.as_str(), otp) && now < entry.expires_at
                };
                if ok {
                    let _ = self.entries.swap_remove(i);
                    self.model = Ghost(m0.remove(key));
                    proof {
                        assert forall|i2: int|
                            0 <= i2 < self.entries@.len() implies self.model@.contains_pair(
                            #[trigger] otp_key(self.entries@[i2]),
                            otp_model(self.entries@[i2]),
                        ) by {
                            if i2 == i && i < entries0.len() - 1 {
                                assert(self.entries@[i2] == entries0[entries0.len() - 1]);
                            } else {
                                assert(self.entries@[i2] == entries0[i2]);
                            }
                            assert(otp_key(self.entries@[i2]) != key);
                        }
                        assert forall|k: Seq<char>| #[trigger]
                            self.model@.contains_key(k) implies exists|i2: int|
                            0 <= i2 < self.entries@.len() && otp_key(self.entries@[i2]) == k by {
                            let i0 = choose|i0: int|
                                0 <= i0 < entries0.len() && otp_key(entries0[i0]) == k;
                            if i0 == entries0.len() - 1 {
                                assert(otp_key(self.entries@[i as int]) == k);
                            } else {
                                assert(otp_key(self.entries@[i0]) == k);
                            }
                        }
                    }
                    true
                } else {
                    false
                }
            },
            None => {
                proof {
                    if m0.contains_key(key) {
                        let i0 = choose|i0: int|
                            0 <= i0 < entries0.len() && otp_key(entries0[i0]) == key;
                        assert(false);
                    }
                }
                false
            },
        }
    }
}

/// The characters of the RFC 4648 base32 alphabet: `A`..=`Z` and `2`..=`7`.
pub open spec fn is_base32_char(c: char) -> bool {
    (65 <= c as u32 && c as u32 <= 90) || (50 <= c as u32 && c as u32 <= 55)
}

/// What base32::encode with the RFC 4648 alphabet and no padding yields: a
/// function of the bytes alone, five bits per character.
pub uninterp spec fn base32_of(bytes: Seq<u8>) -> Seq<char>;

/// What base32::decode with the RFC 4648 alphabet and no padding yields: a
/// function of the text alone, absent exactly on undecodable input.
pub uninterp spec fn base32_decode_of(s: Seq<char>) -> Option<Seq<u8>>;

/// Relies on base32::encode with the RFC 4648 alphabet, no padding: the
/// output holds one character per five bits of input, rounded up, drawn
/// from the RFC 4648 alphabet, and decodes back to the input bytes.
#[verifier::external_body]
fn base32_encode(bytes: &[u8]) -> (r: String)
    ensures
        r@ == base32_of(bytes@),
        r@.len() == (bytes@.len() * 8 + 4) / 5,
        forall|i: int| 0 <= i < r@.len() ==> is_base32_char(#[trigger] r@[i]),
        base32_decode_of(r@) == Some(bytes@),
{
    base32::encode(base32::Alphabet::Rfc4648 { padding: false }, bytes)
}

/// Relies on base32::decode with the RFC 4648 alphabet, no padding.
#[verifier::external_body]
fn base32_decode(s: &str) -> (r: Option<Vec<u8>>)
    ensures
        r is Some <==> base32_decode_of(s@) is Some,
        r matches Some(v) ==> base32_decode_of(s@) == Some(v@),
{
    base32::decode(base32::Alphabet::Rfc4648 { padding: false }, s)
}

#[verifier::external_type_specification]
#[verifier::external_body]
pub struct ExTotp(totp_rs::TOTP);

#[verifier::external_type_specification]
#[verifier::external_body]
pub struct ExTotpUrlError(totp_rs::TotpUrlError);

/// Relies on totp_rs::TOTP::new: six-digit SHA-1 codes over 30-second
/// steps with one step of skew, bound to the given account name.
#[verifier::external_body]
fn totp_new(secret: Vec<u8>, account: &str) -> (r: Result<totp_rs::TOTP, totp_rs::TotpUrlError>)
{
    totp_rs::TOTP::new(totp_rs::Algorithm::SHA1, 6, 1, 30, secret, None, account.to_string())
}

/// Relies on totp_rs::TOTP::get_url: the otpauth provisioning URI for the
/// account and secret.
#[verifier::external_body]
fn totp_url(totp: &totp_rs::TOTP) -> (r: String) {
    totp.get_url()
}

/// Relies on totp_rs::TOTP::check_current, which reads the system clock; a
/// clock that cannot be read counts as a mismatch.
#[verifier::external_body]
fn totp_check_current(totp: &totp_rs::TOTP, code: &str) -> (r: bool) {
    totp.check_current(code).unwrap_or(false)
}

/// A fresh shared secret for an authenticator app: 32 random bytes in
/// base32, 52 alphabet characters without padding, decodable again.
pub fn generate_totp_secret() -> (r: String)
    ensures
        r@.len() == 52,
        forall|i: int| 0 <= i < r@.len() ==> is_base32_char(#[trigger] r@[i]),
        base32_decode_of(r@) is Some,
{
    let bytes = random_secret_bytes();
    base32_encode(bytes.as_slice())
}

/// The provisioning URI an authenticator app enrolls with. Fails exactly
/// on a secret that does not decode as base32; a decoded secret the code
/// generator still refuses (one shorter than 128 bits) is an internal
/// error.
pub fn totp_provisioning_url(username: &str, secret: &str) -> (r: Result<String, AppError>)
    ensures
        base32_decode_of(secret@) is None ==> (r matches Err(AppError::InvalidInput(m)) && m@
            == "Failed to decode secret"@),
        r is Ok ==> base32_decode_of(secret@) is Some,
{
    let decoded = match base32_decode(secret) {
        Some(v) => v,
        None => {
            return Err(AppError::InvalidInput(String::from_str("Failed to decode secret")));
        },
    };
    match totp_new(decoded, username) {
        Ok(t) => Ok(totp_url(&t)),
        Err(_) => Err(AppError::InternalError),
    }
}

/// Checks a time-based code against a shared secret: false whenever the
/// secret does not decode as base32 or the code generator refuses it;
/// otherwise whatever the clock-dependent comparison yields.
pub fn verify_totp_code(secret: &str, code: &str) -> (r: bool)
    ensures
        base32_decode_of(secret@) is None ==> r == false,
{
    match base32_decode(secret) {
        Some(bytes) => match totp_new(bytes, "") {
            Ok(t) => totp_check_current(&t, code),
            Err(_) => false,
        },
        None => false,
    }
}

} // verus!
