//! Session management.

use crate::crypto::{generate_salt, hash, hex_lower, sha256, HASH_LENGTH};
use crate::text::is_ascii_alphanumeric;
use vstd::prelude::*;
use vstd::utf8::*;

verus! {

/// The number of characters of a session key.
pub const SESSION_KEY_LENGTH: usize = 64;

/// The key of a session, which its owner keeps, and the hash of the key,
/// which is stored.
#[derive(Debug)]
pub struct SessionKey {
    pub key: String,
    pub hashed_key: String,
}

/// Generates the key of a new session.
pub fn generate_key() -> (r: SessionKey)
    ensures
        r.key@.len() == SESSION_KEY_LENGTH,
        forall|i: int| 0 <= i < r.key@.len() ==> is_ascii_alphanumeric(#[trigger] r.key@[i]),
        r.hashed_key@ == hex_lower(sha256(encode_utf8(r.key@))),
        r.hashed_key@.len() == HASH_LENGTH,
{
    let key = generate_salt(SESSION_KEY_LENGTH);
    let hashed_key = hash(key.as_str());
    SessionKey { key, hashed_key }
}

} // verus!
