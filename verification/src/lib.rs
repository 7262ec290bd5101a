//! Issuing and validating bearer session tokens.
//!
//! The crate verifies passwords against stored Argon2 hashes, mints and
//! decodes signed session tokens, decides whether an otherwise-valid token
//! has been revoked, and maps every internal failure to a stable,
//! client-safe error payload.

pub mod auth;
pub mod clock;
pub mod config;
pub mod decimal;
pub mod errors;
pub mod ids;
pub mod jwt;
pub mod options;
pub mod password;
pub mod revocation;
pub mod user;
pub mod validator;
pub mod version;
