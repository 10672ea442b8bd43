//! Session storage.

use vstd::prelude::*;

verus! {

/// The longest session hash that the database takes.
pub const MAX_HASH_LENGTH: usize = 64;

/// The user that a session belongs to.
#[derive(Debug)]
pub struct SessionUser {
    pub session_id: i32,
    pub id: i32,
    pub username: String,
}

} // verus!
