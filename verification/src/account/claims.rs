//! Account claims for token access.

use vstd::prelude::*;

verus! {

/// The seconds of one day: how long claims hold unless told otherwise.
pub const DEFAULT_EXPIRY_SECONDS: i64 = 86400;

/// The claims of an account: who it is, and until when the claims hold.
#[derive(Clone, Debug)]
pub struct Claims {
    sub: String,
    exp: usize,
}

impl Claims {
    /// The subject, as a mathematical value.
    pub closed spec fn spec_sub(&self) -> Seq<char> {
        self.sub@
    }

    /// The expiry time, as a mathematical value.
    pub closed spec fn spec_exp(&self) -> usize {
        self.exp
    }

    /// Creates a [`ClaimsBuilder`] for a subject.
    pub fn for_sub(sub: String) -> (r: ClaimsBuilder)
        ensures
            r.spec_sub() == sub@,
            r.spec_exp() == DEFAULT_EXPIRY_SECONDS,
    {
        ClaimsBuilder::new(sub)
    }

    /// Claims for a subject that hold until the second `exp` of Unix time.
    pub fn from_parts(sub: String, exp: usize) -> (r: Claims)
        ensures
            r.spec_sub() == sub@,
            r.spec_exp() == exp,
    {
        Claims { sub, exp }
    }

    /// The subject of the claim.
    pub fn sub(&self) -> (r: &str)
        ensures
            r@ == self.spec_sub(),
    {
        self.sub.as_str()
    }

    /// The expiry time of the claim, in seconds of Unix time.
    pub fn exp(&self) -> (r: usize)
        ensures
            r == self.spec_exp(),
    {
        self.exp
    }
}

/// Whether claims can expire at the second `at` of Unix time: it is not
/// before the beginning, and both a timestamp and a `usize` can hold it.
pub open spec fn expiry_in_range(at: int) -> bool {
    0 <= at <= i64::MAX && at <= usize::MAX
}

/// A builder for account claims.
#[derive(Debug)]
pub struct ClaimsBuilder {
    sub: String,
    exp: i64,
}

impl ClaimsBuilder {
    /// The subject, as a mathematical value.
    pub closed spec fn spec_sub(&self) -> Seq<char> {
        self.sub@
    }

    /// The seconds that the claims will hold for.
    pub closed spec fn spec_exp(&self) -> i64 {
        self.exp
    }

    /// Creates a new `ClaimsBuilder` for a username. The claims hold for one
    /// day.
    pub fn new(sub: String) -> (r: ClaimsBuilder)
        ensures
            r.spec_sub() == sub@,
            r.spec_exp() == DEFAULT_EXPIRY_SECONDS,
    {
        ClaimsBuilder { sub, exp: DEFAULT_EXPIRY_SECONDS }
    }

    /// Sets for how many seconds the claims hold. By default, this is one
    /// day.
    pub fn exp(self, seconds: i64) -> (r: ClaimsBuilder)
        ensures
            r.spec_sub() == self.spec_sub(),
            r.spec_exp() == seconds,
    {
        ClaimsBuilder { sub: self.sub, exp: seconds }
    }

    /// Builds the claims, which hold from the second `now` of Unix time on.
    ///
    /// Gives `None` where the expiry time is before the beginning of Unix
    /// time or beyond what a timestamp can hold.
    pub fn build(self, now: i64) -> (r: Option<Claims>)
        ensures
            r is Some <==> expiry_in_range(now + self.spec_exp()),
            r matches Some(claims) ==> claims.spec_sub() == self.spec_sub() && claims.spec_exp()
                == now + self.spec_exp(),
    {
        match now.checked_add(self.exp) {
            Some(at) => {
                if at < 0 {
                    None
                } else {
                    let at: u64 = at as u64;
                    if at > usize::MAX as u64 {
                        None
                    } else {
                        Some(Claims { sub: self.sub, exp: at as usize })
                    }
                }
            },
            None => None,
        }
    }
}

} // verus!
