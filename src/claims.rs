//! The decoded content of a bearer token.

use vstd::prelude::*;

verus! {

/// Decoded token claims: subject, issue time and expiry, in seconds since
/// the Unix epoch.
#[derive(Clone, Debug, PartialEq, Eq)]
pub struct Claims {
    pub sub: String,
    pub iat: u64,
    pub exp: u64,
}

/// Claims as mathematical values: subject, issue time, expiry.
pub type ClaimsView = (Seq<char>, u64, u64);

impl View for Claims {
    type V = ClaimsView;

    open spec fn view(&self) -> ClaimsView {
        (self.sub@, self.iat, self.exp)
    }
}

/// Lifetime of a token issued at login, in seconds (24 hours).
pub const TOKEN_LIFETIME: u64 = 86400;

/// Whether claims are well formed and in force at `now`: the expiry is
/// strictly after the issue time and `now` lies between the two.
pub open spec fn in_force(c: ClaimsView, now: u64) -> bool {
    c.1 < c.2 && c.1 <= now && now <= c.2
}

/// Whether the expiry of the claims lies before `now`.
pub open spec fn expired(c: ClaimsView, now: u64) -> bool {
    c.2 < now
}

impl Claims {
    /// Whether the claims are well formed and in force at `now`.
    pub fn is_in_force(&self, now: u64) -> (r: bool)
        ensures
            r == in_force(self@, now),
    {
        self.iat < self.exp && self.iat <= now && now <= self.exp
    }

    /// Claims for a session that starts at `now` and lasts `TOKEN_LIFETIME`.
    pub fn issue(sub: String, now: u64) -> (r: Claims)
        requires
            now + TOKEN_LIFETIME <= u64::MAX,
        ensures
            r.sub == sub,
            r.iat == now,
            r.exp == now + TOKEN_LIFETIME,
            in_force(r@, now),
    {
        Claims { sub, iat: now, exp: now + TOKEN_LIFETIME }
    }
}

} // verus!
