//! Password hashing, drawn from bcrypt through trusted wrappers. The salt
//! is random, so nothing is claimed about the hash text itself; what is
//! claimed is the relation that ties a hash back to its password.

use vstd::prelude::*;
use crate::errors::AppError;

verus! {

/// Whether bcrypt::verify accepts `password` against `hashed`: a function
/// of the two arguments alone.
pub uninterp spec fn bcrypt_matches(password: Seq<char>, hashed: Seq<char>) -> bool;

/// Whether bcrypt::verify can parse `hashed` at all: well-formed hash text
/// with an in-range cost. Whether verification succeeds or errors is a
/// function of the hash text alone, never of the password.
pub uninterp spec fn bcrypt_hash_wellformed(hashed: Seq<char>) -> bool;

#[verifier::external_type_specification]
#[verifier::external_body]
pub struct ExBcryptError(bcrypt::BcryptError);

/// Relies on bcrypt::hash with the default cost: the salt is drawn at
/// random; a successful hash is well-formed hash text and verifies against
/// the password it was derived from.
#[verifier::external_body]
fn bcrypt_hash(password: &str) -> (r: Result<String, bcrypt::BcryptError>)
    ensures
        r matches Ok(h) ==> bcrypt_matches(password@, h@) && bcrypt_hash_wellformed(h@),
{
    bcrypt::hash(password, bcrypt::DEFAULT_COST)
}

/// Relies on bcrypt::verify: it errors exactly on hash text it cannot
/// parse, and otherwise whether the password matches is decided by the two
/// arguments alone.
#[verifier::external_body]
fn bcrypt_verify(password: &str, hashed: &str) -> (r: Result<bool, bcrypt::BcryptError>)
    ensures
        r is Ok <==> bcrypt_hash_wellformed(hashed@),
        r matches Ok(b) ==> b == bcrypt_matches(password@, hashed@),
{
    bcrypt::verify(password, hashed)
}

/// Hashes a password; the result, when there is one, is well-formed hash
/// text and verifies against the password it came from.
pub fn hash_password(password: &str) -> (r: Result<String, AppError>)
    ensures
        r matches Ok(h) ==> bcrypt_matches(password@, h@) && bcrypt_hash_wellformed(h@),
        r is Err ==> r matches Err(AppError::HashingError),
{
    match bcrypt_hash(password) {
        Ok(h) => Ok(h),
        Err(_) => Err(AppError::HashingError),
    }
}

/// Checks a password against a stored hash: an answer comes back exactly
/// when the hash text is well-formed, and a malformed hash is a hashing
/// error.
pub fn verify_password(password: &str, hashed: &str) -> (r: Result<bool, AppError>)
    ensures
        r is Ok <==> bcrypt_hash_wellformed(hashed@),
        r matches Ok(b) ==> b == bcrypt_matches(password@, hashed@),
        r is Err ==> r matches Err(AppError::HashingError),
{
    match bcrypt_verify(password, hashed) {
        Ok(b) => Ok(b),
        Err(_) => Err(AppError::HashingError),
    }
}

} // verus!
