//! Logout request.

use vstd::prelude::*;

verus! {

/// A submitted logout.
#[derive(Debug)]
pub struct LogoutForm {
    pub redirect_to: Option<String>,
}

} // verus!
