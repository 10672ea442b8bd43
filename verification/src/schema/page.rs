//! Page information.
//!
//! The use of [`Slug`] in this module guarantees that no bad accesses can be
//! made.

use crate::crypto::{
    encode_lower, hex_lower, lemma_hex_lower_len, push_bytes, sha256, sha256_digest, HASH_LENGTH,
};
use crate::slug::Slug;
use vstd::bytes::{spec_u64_to_le_bytes, u64_to_le_bytes};
use vstd::prelude::*;
use vstd::utf8::*;

verus! {

/// A page as it is stored: its content, and the hash of its latest change.
#[derive(Debug)]
pub struct Page {
    pub slug: Slug,
    pub content: String,
    pub latest_change_hash: String,
}

/// The bytes that the hash of a change is taken over: the page's path, the
/// author, the time of insertion as eight little-endian bytes of seconds,
/// and the text of the change.
pub open spec fn change_bytes(
    path: Seq<char>,
    author: Seq<char>,
    inserted_at: i64,
    changes: Seq<char>,
) -> Seq<u8> {
    encode_utf8(path) + encode_utf8(author) + spec_u64_to_le_bytes(inserted_at as u64)
        + encode_utf8(changes)
}

/// The hash that names a change.
pub open spec fn change_hash_of(
    path: Seq<char>,
    author: Seq<char>,
    inserted_at: i64,
    changes: Seq<char>,
) -> Seq<char> {
    hex_lower(sha256(change_bytes(path, author, inserted_at, changes)))
}

/// Computes the hash that names a change: a digest over the page, the
/// author, the time of insertion and the text of the change.
pub fn change_hash(slug: &Slug, author: &str, inserted_at: i64, changes: &str) -> (r: String)
    ensures
        r@ == change_hash_of(slug@, author@, inserted_at, changes@),
        r@.len() == HASH_LENGTH,
{
    let mut data: Vec<u8> = Vec::new();
    push_bytes(&mut data, slug.as_str().as_bytes());
    push_bytes(&mut data, author.as_bytes());
    let stamp = u64_to_le_bytes(inserted_at as u64);
    push_bytes(&mut data, stamp.as_slice());
    push_bytes(&mut data, changes.as_bytes());
    let digest = sha256_digest(data.as_slice());
    proof {
        lemma_hex_lower_len(digest@);
    }
    encode_lower(digest.as_slice())
}

} // verus!
