//! Email-verification based authentication: registration and login flows
//! built on time-boxed, single-use numeric codes.
//!
//! The heart of the crate is a small state machine: a [`store::VerificationStore`]
//! holds at most one pending code per identity and purpose, and the
//! [`flow::AuthService`] drives registration and login challenges against a
//! [`directory::UserDirectory`] of accounts with unique usernames and emails.
//! Every state transition is specified and verified; randomness, hashing and
//! token signing are drawn from outside crates through narrow trusted wrappers.

pub mod directory;
pub mod errors;
pub mod flow;
pub mod hash;
pub mod ids;
pub mod jwt;
pub mod laws;
pub mod models;
pub mod otp;
mod random;
pub mod store;
pub mod text;
