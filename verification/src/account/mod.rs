//! Account authentication, management and creation.

pub mod claims;
pub mod session;

use crate::account::claims::Claims;
use vstd::prelude::*;

verus! {

/// The cookie name for the access token.
pub const ACCESS_TOKEN_NAME: &'static str = "auth";

/// The cookie name for the refresh token.
pub const REFRESH_TOKEN_NAME: &'static str = "authr";

/// An extracted token.
#[derive(Clone, Debug)]
pub struct Token {
    /// The list of claims the user has.
    pub claims: Claims,
}

} // verus!
