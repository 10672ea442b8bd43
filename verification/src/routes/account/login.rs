//! Login page and post request.

use crate::crypto::{hash_password, hex_lower, sha256};
use crate::schema::user::PasswordLogin;
use vstd::prelude::*;
use vstd::utf8::*;

verus! {

/// The parameters of the login page.
#[derive(Debug)]
pub struct ShowLoginParams {
    pub redirect_to: Option<String>,
}

/// A submitted login.
#[derive(Debug)]
pub struct LoginForm {
    pub username: String,
    pub password: String,
    pub redirect_to: Option<String>,
}

/// Why a login is turned down.
#[derive(Clone, Copy, Debug, PartialEq, Eq, Structural)]
pub enum LoginError {
    /// No login is stored for the user.
    NoLoginFound,
    /// The password is not the stored one.
    IncorrectPassword,
}

/// Whether `password` is the password of a login: its hash with the
/// login's salt is the stored hash.
pub open spec fn password_matches(password: Seq<char>, login: PasswordLogin) -> bool {
    hex_lower(sha256(encode_utf8(password) + encode_utf8(login.salt@))) == login.password_hash@
}

/// Checks a submitted password against the login that is stored for the
/// user, if there is one.
pub fn check_login(form: &LoginForm, login: &Option<PasswordLogin>) -> (r: Result<(), LoginError>)
    ensures
        r == match *login {
            Some(stored) => if password_matches(form.password@, stored) {
                Ok(())
            } else {
                Err(LoginError::IncorrectPassword)
            },
            None => Err(LoginError::NoLoginFound),
        },
{
    match login {
        Some(stored) => {
            let hashed = hash_password(form.password.as_str(), stored.salt.as_str());
            if hashed == stored.password_hash {
                Ok(())
            } else {
                Err(LoginError::IncorrectPassword)
            }
        },
        None => Err(LoginError::NoLoginFound),
    }
}

} // verus!
