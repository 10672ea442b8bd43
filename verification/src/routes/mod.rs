//! What the web app's routes decide.

pub mod account;
pub mod page;

use vstd::prelude::*;

verus! {

/// Where a request goes that names no page, and where a form sends its
/// author once it is done unless it says otherwise.
pub const INDEX_PATH: &'static str = "/~/Index";

/// The place that a form sends its author to once it is done: the one it
/// names, or else the index.
pub fn redirect_target(redirect_to: Option<String>) -> (r: String)
    ensures
        r@ == match redirect_to {
            Some(path) => path@,
            None => INDEX_PATH@,
        },
{
    match redirect_to {
        Some(path) => path,
        None => INDEX_PATH.to_owned(),
    }
}

} // verus!
