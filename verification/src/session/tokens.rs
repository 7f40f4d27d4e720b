//! The tokens of a signed-in session.
use vstd::prelude::*;

verus! {

/// The session cookies: the auth token and, once two-factor authentication passed,
/// its token.
#[derive(Debug, Clone, PartialEq, Eq)]
pub struct SessionTokens {
    pub auth: Option<String>,
    pub two_factor_auth: Option<String>,
}

} // verus!
