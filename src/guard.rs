//! The authorization stage: role-gated access on an attached identity.

use vstd::prelude::*;
use crate::error::AuthError;
use crate::identity::{Identity, has_role};
use crate::role::Role;

verus! {

/// The outcome of authorizing an optional attached identity for `required`.
pub open spec fn authorize_outcome(identity: Option<Identity>, required: Role) -> Result<(), AuthError> {
    match identity {
        None => Err(AuthError::MissingIdentity),
        Some(i) => if i.role == required {
            Ok(())
        } else {
            Err(AuthError::Forbidden)
        },
    }
}

/// Permits the request when the attached identity's role is exactly
/// `required`; a different role is `Forbidden`; no identity attached (a
/// stage ordering fault) is `MissingIdentity`, shown as 401.
pub fn authorize(identity: Option<&Identity>, required: Role) -> (r: Result<(), AuthError>)
    ensures
        r == authorize_outcome(
            match identity {
                Some(i) => Some(*i),
                None => None,
            },
            required,
        ),
{
    match identity {
        None => Err(AuthError::MissingIdentity),
        Some(i) => if i.role == required {
            Ok(())
        } else {
            Err(AuthError::Forbidden)
        },
    }
}

/// Admin gate on the roles of a provider token: permitted exactly when one
/// of them is `Admin`, else `Forbidden` (403, "Admin access required").
pub fn admin_guard(roles: &Vec<Role>) -> (r: Result<(), AuthError>)
    ensures
        r is Ok <==> roles@.contains(Role::Admin),
        r is Err ==> r == Err::<(), AuthError>(AuthError::Forbidden),
{
    if has_role(roles, Role::Admin) {
        Ok(())
    } else {
        Err(AuthError::Forbidden)
    }
}

} // verus!
