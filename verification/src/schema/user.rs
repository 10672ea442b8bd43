//! User records.

use vstd::prelude::*;

verus! {

/// A full user record.
#[derive(Clone, Debug)]
pub struct User {
    pub id: i32,
    pub username: String,
}

/// A full password login record.
#[derive(Clone, Debug)]
pub struct PasswordLogin {
    pub user_id: i32,
    pub password_hash: String,
    pub salt: String,
}

} // verus!
