//! Session tokens: signed, time-limited credentials bound to an account id,
//! drawn from jsonwebtoken through trusted wrappers.

use vstd::prelude::*;
use crate::errors::AppError;
use crate::ids::{is_object_id_hex, spec_is_object_id_hex};

verus! {

/// How long a session token stays valid, in seconds: twelve hours.
pub const SESSION_SECS: u64 = 43_200;

/// The token that HS256 signing yields for a subject, an expiry and a
/// secret: a function of those three alone.
pub uninterp spec fn jwt_token_of(sub: Seq<char>, exp: u64, secret: Seq<char>) -> Seq<char>;

#[verifier::external_type_specification]
#[verifier::external_body]
pub struct ExJwtError(jsonwebtoken::errors::Error);

/// Relies on jsonwebtoken::encode with the default HS256 header: the token
/// is a deterministic function of the claims and the secret. Encoding
/// cannot fail here: the key family matches the header's algorithm, the
/// claims are a plain JSON object of a string and an integer, and HMAC
/// signing returns unconditionally.
#[verifier::external_body]
fn jwt_encode(sub: &str, exp: u64, secret: &str) -> (r: Result<
    String,
    jsonwebtoken::errors::Error,
>)
    ensures
        r is Ok,
        r matches Ok(t) ==> t@ == jwt_token_of(sub@, exp, secret@),
{
    let mut claims = serde_json::Map::new();
    claims.insert("sub".to_string(), serde_json::Value::from(sub));
    claims.insert("exp".to_string(), serde_json::Value::from(exp));
    jsonwebtoken::encode(
        &jsonwebtoken::Header::default(),
        &serde_json::Value::Object(claims),
        &jsonwebtoken::EncodingKey::from_secret(secret.as_bytes()),
    )
}

/// Relies on jsonwebtoken::decode with HS256 validation, which reads the
/// clock to check expiry: on success the signature was checked against the
/// secret, and the string "sub" claim is handed back if there is one.
#[verifier::external_body]
fn jwt_decode_sub(token: &str, secret: &str) -> (r: Result<
    Option<String>,
    jsonwebtoken::errors::Error,
>)
{
    let data = jsonwebtoken::decode::<serde_json::Value>(
        token,
        &jsonwebtoken::DecodingKey::from_secret(secret.as_bytes()),
        &jsonwebtoken::Validation::new(jsonwebtoken::Algorithm::HS256),
    )?;
    Ok(data.claims.get("sub").and_then(serde_json::Value::as_str).map(String::from))
}

/// Mints the session token for an account id: the expiry is twelve hours
/// past `now_secs` and the token is exactly what HS256 signing yields for
/// it.
pub fn generate_jwt(user_id: &str, secret: &str, now_secs: u64) -> (r: Result<String, AppError>)
    requires
        now_secs + SESSION_SECS <= u64::MAX,
    ensures
        r matches Ok(t) && t@ == jwt_token_of(
            user_id@,
            (now_secs + SESSION_SECS) as u64,
            secret@,
        ),
{
    let exp = now_secs + SESSION_SECS;
    match jwt_encode(user_id, exp, secret) {
        Ok(t) => Ok(t),
        Err(_) => Err(AppError::TokenCreationError),
    }
}

/// Accepts a subject claim exactly when it is a well-formed account id.
pub fn object_id_from_sub(sub: String) -> (r: Result<String, AppError>)
    ensures
        r is Ok <==> spec_is_object_id_hex(sub@),
        r matches Ok(s) ==> s == sub,
        r is Err ==> r matches Err(AppError::InvalidToken),
{
    if is_object_id_hex(sub.as_str()) {
        Ok(sub)
    } else {
        Err(AppError::InvalidToken)
    }
}

/// Validates a session token: on success the returned subject is a
/// well-formed account id; a bad signature, a past expiry and a malformed
/// subject are one indistinguishable invalid-token failure.
pub fn verify_jwt(token: &str, secret: &str) -> (r: Result<String, AppError>)
    ensures
        r matches Ok(s) ==> spec_is_object_id_hex(s@),
        r is Err ==> r matches Err(AppError::InvalidToken),
{
    match jwt_decode_sub(token, secret) {
        Ok(Some(sub)) => object_id_from_sub(sub),
        Ok(None) => Err(AppError::InvalidToken),
        Err(_) => Err(AppError::InvalidToken),
    }
}

} // verus!
