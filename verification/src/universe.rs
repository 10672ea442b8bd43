//! Universes: the scopes under which a slug names one page.

use crate::slug::Slug;
use crate::text::{chars_of, find_char, index_of};
use vstd::prelude::*;

verus! {

/// The id of the universe that serves every host without one of its own.
pub const GLOBAL_UNIVERSE_ID: i32 = 0;

/// A in-database universe.
#[derive(Debug)]
pub struct Universe {
    /// The id of the universe.
    pub id: i32,
    /// The hostname to match when a request is made.
    ///
    /// This can be null for the default universe.
    pub host: Option<String>,
}

impl Universe {
    /// Creates a [`Locator`] for a [`Slug`] in the universe.
    pub fn locate<'a>(&self, path: &'a Slug) -> (r: Locator<'a>)
        ensures
            r.universe_id == self.id,
            r.path == path,
    {
        Locator { universe_id: self.id, path }
    }
}

/// A locator for pages in a universe.
#[derive(Clone, Copy, Debug)]
pub struct Locator<'a> {
    /// The universe id.
    pub universe_id: i32,
    /// The page slug.
    pub path: &'a Slug,
}

/// The universe that a request is served from.
#[derive(Debug)]
pub struct CurrentUniverse(pub Universe);

impl CurrentUniverse {
    /// The universe.
    pub fn universe(&self) -> (r: &Universe)
        ensures
            *r == self.0,
    {
        &self.0
    }
}

/// The host of a `Host` header: what stands before its first colon.
pub open spec fn host_name(header: Seq<char>) -> Seq<char> {
    match index_of(header, ':') {
        Some(i) => header.take(i),
        None => header,
    }
}

/// The host that a `Host` header names, without the port.
pub fn host_of(header: &str) -> (r: &str)
    ensures
        r@ == host_name(header@),
{
    let chars = chars_of(header);
    match find_char(&chars, ':') {
        Some(i) => {
            let r = header.substring_char(0, i);
            assert(header@.subrange(0, i as int) == header@.take(i as int));
            r
        },
        None => header,
    }
}

} // verus!
