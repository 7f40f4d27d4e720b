//! Signing in: credentials, two-factor authentication and the session cookies.
pub mod tokens;
pub mod auth;
