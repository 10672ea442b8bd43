//! Universe schema.

use vstd::prelude::*;

verus! {

/// What a new universe is created with.
#[derive(Debug)]
pub struct CreateUniverse<'a> {
    pub host: Option<&'a str>,
}

} // verus!
