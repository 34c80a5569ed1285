//! The request and response shapes of the HTTP surface, as plain data. The
//! transport layer converts between these and its wire format.

use vstd::prelude::*;

verus! {

/// What a registration request carries.
#[derive(Debug, Clone)]
pub struct RegisterData {
    pub username: String,
    pub email: String,
}

/// What a login request carries.
#[derive(Debug, Clone)]
pub struct LoginData {
    pub email: String,
}

/// What a registration verification carries.
#[derive(Debug, Clone)]
pub struct VerificationRegisterData {
    pub username: String,
    pub email: String,
    pub code: u32,
}

/// What a login verification carries.
#[derive(Debug, Clone)]
pub struct VerificationLoginData {
    pub email: String,
    pub code: u32,
}

/// What a username change carries.
#[derive(Debug, Clone)]
pub struct UsernameUpdate {
    pub username: String,
}

/// A session credential handed back on successful verification.
#[derive(Debug, Clone)]
pub struct AuthResponse {
    pub token: String,
}

/// The public shape of an account.
#[derive(Debug, Clone)]
pub struct UserResponse {
    pub username: String,
}

} // verus!
