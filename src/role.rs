//! The closed set of access levels, with a total coercion from free text.

use vstd::prelude::*;
use crate::text::{lower_of, lowercase, str_equal};

verus! {

/// Access level attached to an identity.
#[derive(Clone, Copy, Debug, PartialEq, Eq, Structural)]
pub enum Role {
    User,
    Admin,
}

/// The role that a piece of free text stands for: `Admin` only when its
/// lower-case form is exactly `admin`, `User` for anything else.
pub open spec fn role_from_text(s: Seq<char>) -> Role {
    if lower_of(s) == "admin"@ {
        Role::Admin
    } else {
        Role::User
    }
}

/// The lower-case name of a role.
pub open spec fn role_name(r: Role) -> Seq<char> {
    match r {
        Role::User => "user"@,
        Role::Admin => "admin"@,
    }
}

impl Role {
    /// Coerces free text to a role; unrecognised text yields `User`.
    pub fn from_text(s: &str) -> (r: Role)
        ensures
            r == role_from_text(s@),
    {
        let lower = lowercase(s);
        if str_equal(lower.as_str(), "admin") {
            Role::Admin
        } else {
            Role::User
        }
    }

    /// The lower-case name of the role: `user` or `admin`.
    pub fn to_string(&self) -> (r: String)
        ensures
            r@ == role_name(*self),
    {
        match self {
            Role::User => String::from_str("user"),
            Role::Admin => String::from_str("admin"),
        }
    }
}

impl From<String> for Role {
    fn from(s: String) -> (r: Role) {
        Role::from_text(s.as_str())
    }
}

impl vstd::std_specs::convert::FromSpecImpl<String> for Role {
    open spec fn obeys_from_spec() -> bool {
        true
    }

    open spec fn from_spec(s: String) -> Role {
        role_from_text(s@)
    }
}

} // verus!
