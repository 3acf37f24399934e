//! The decisions that the business handlers take on the answers of the
//! store and of the identity provider.

use vstd::prelude::*;
use crate::identity::{parse_uuid, uuid_of, uuid_text, uuid_text_of};
use crate::models::UserResponse;

verus! {

/// A failed handler answer: status, message, and optional detail.
#[derive(Clone, Debug, PartialEq, Eq)]
pub struct ApiError {
    pub status: u16,
    pub error: String,
    pub details: Option<String>,
}

/// Whether a status is a success (2xx).
pub open spec fn is_success(status: u16) -> bool {
    200 <= status <= 299
}

/// An error without detail.
fn fail(status: u16, error: &str) -> (r: ApiError)
    ensures
        r.status == status,
        r.error@ == error@,
        r.details is None,
{
    ApiError { status, error: String::from_str(error), details: None }
}

/// The owner of a request's tasks: the subject as a UUID, or 400
/// "Invalid user ID format".
pub fn task_owner(subject: &str) -> (r: Result<u128, ApiError>)
    ensures
        match r {
            Ok(id) => uuid_of(subject@) == Some(id),
            Err(e) => uuid_of(subject@) is None && e.status == 400 && e.error@ == "Invalid user ID format"@
                && e.details is None,
        },
{
    match parse_uuid(subject) {
        Some(id) => Ok(id),
        None => Err(fail(400, "Invalid user ID format")),
    }
}

/// The answer to deleting a task, from the number of rows removed: 204, or
/// 404 "Task not found" when none was.
pub fn task_deletion(rows_affected: u64) -> (r: Result<u16, ApiError>)
    ensures
        rows_affected > 0 ==> r == Ok::<u16, ApiError>(204),
        rows_affected == 0 ==> (r matches Err(e) && e.status == 404 && e.error@ == "Task not found"@),
{
    if rows_affected == 0 {
        Err(fail(404, "Task not found"))
    } else {
        Ok(204)
    }
}

/// The answer to deleting a stored user, from the number of rows removed:
/// 404 "User not found" when none was.
pub fn account_deletion(rows_affected: u64) -> (r: Result<(), ApiError>)
    ensures
        r is Ok <==> rows_affected > 0,
        r matches Err(e) ==> e.status == 404 && e.error@ == "User not found"@,
{
    if rows_affected == 0 {
        Err(fail(404, "User not found"))
    } else {
        Ok(())
    }
}

/// The answer to a password check at login: 401 "Invalid email or
/// password" when it did not match.
pub fn password_check(matched: bool) -> (r: Result<(), ApiError>)
    ensures
        r is Ok <==> matched,
        r matches Err(e) ==> e.status == 401 && e.error@ == "Invalid email or password"@,
{
    if matched {
        Ok(())
    } else {
        Err(fail(401, "Invalid email or password"))
    }
}

/// The admin token from the provider's answer: its status must be a
/// success (else 500 "Invalid admin credentials") and it must carry an
/// access token (else 500 "No access token in response").
pub fn admin_token(status: u16, access_token: Option<String>) -> (r: Result<String, ApiError>)
    ensures
        !is_success(status) ==> (r matches Err(e) && e.status == 500 && e.error@ == "Invalid admin credentials"@),
        is_success(status) && access_token is None ==> (r matches Err(e) && e.status == 500
            && e.error@ == "No access token in response"@),
        is_success(status) && access_token is Some ==> r == Ok::<String, ApiError>(access_token->Some_0),
{
    if !(200 <= status && status <= 299) {
        return Err(fail(500, "Invalid admin credentials"));
    }
    match access_token {
        Some(t) => Ok(t),
        None => Err(fail(500, "No access token in response")),
    }
}

/// The provider's answer to listing users: a success, or 500 "Keycloak
/// API error".
pub fn directory_listing(status: u16) -> (r: Result<(), ApiError>)
    ensures
        r is Ok <==> is_success(status),
        r matches Err(e) ==> e.status == 500 && e.error@ == "Keycloak API error"@ && e.details is None,
{
    if 200 <= status && status <= 299 {
        Ok(())
    } else {
        Err(fail(500, "Keycloak API error"))
    }
}

/// The provider's answer to deleting a user: 404 "User not found in
/// Keycloak" for 404, 500 "Keycloak API error" with the answer's body for
/// any other failure.
pub fn directory_deletion(status: u16, body: String) -> (r: Result<(), ApiError>)
    ensures
        r is Ok <==> is_success(status),
        status == 404 ==> (r matches Err(e) && e.status == 404 && e.error@ == "User not found in Keycloak"@),
        status != 404 && !is_success(status) ==> (r matches Err(e) && e.status == 500
            && e.error@ == "Keycloak API error"@ && e.details == Some(body)),
{
    if status == 404 {
        Err(fail(404, "User not found in Keycloak"))
    } else if !(200 <= status && status <= 299) {
        Err(ApiError { status: 500, error: String::from_str("Keycloak API error"), details: Some(body) })
    } else {
        Ok(())
    }
}

/// The confirmation message of a user deletion.
pub fn user_deleted_message(id: u128) -> (r: String)
    ensures
        r@ == "User "@ + uuid_text_of(id) + " deleted successfully"@,
{
    let mut m = String::from_str("User ");
    let text = uuid_text(id);
    m.append(text.as_str());
    m.append(" deleted successfully");
    m
}

/// A user of the provider's directory as handlers return it, from the
/// fields of its record (`None` where absent or of another type): an
/// identifier that is not a UUID becomes the nil UUID, a missing name
/// `unknown`, a missing email empty, a missing creation time 0; the role is
/// the record's role value as written; provider users count as verified,
/// and the update time is the creation time.
pub fn user_from_directory(
    id: Option<&str>,
    role: String,
    username: Option<String>,
    email: Option<String>,
    created_ms: Option<i64>,
) -> (r: UserResponse)
    ensures
        r.id == match id {
            Some(s) => match uuid_of(s@) {
                Some(v) => v,
                None => 0,
            },
            None => match uuid_of(""@) {
                Some(v) => v,
                None => 0,
            },
        },
        r.name@ == match username {
            Some(n) => n@,
            None => "unknown"@,
        },
        r.email@ == match email {
            Some(e) => e@,
            None => Seq::<char>::empty(),
        },
        r.role == role,
        r.verified,
        r.created_at == Some(
            match created_ms {
                Some(t) => t,
                None => 0,
            },
        ),
        r.updated_at == r.created_at,
{
    let text = match id {
        Some(s) => s,
        None => "",
    };
    let uid = match parse_uuid(text) {
        Some(v) => v,
        None => 0,
    };
    let name = match username {
        Some(n) => n,
        None => String::from_str("unknown"),
    };
    let email = match email {
        Some(e) => e,
        None => String::new(),
    };
    let created = match created_ms {
        Some(t) => t,
        None => 0,
    };
    UserResponse {
        id: uid,
        name,
        email,
        role,
        verified: true,
        created_at: Some(created),
        updated_at: Some(created),
    }
}

} // verus!
