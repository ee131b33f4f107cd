//! Session checks that every My Files server function makes first.

use vstd::prelude::*;
use vstd::string::*;

use crate::error::{auth_error, MesonAppError};

verus! {

/// The detail of the error for a request without a signed-in user.
pub open spec fn auth_required_detail() -> Seq<char> {
    "Authentication required"@
}

/// The detail of the error for a session user id that is not a record id.
pub open spec fn invalid_session_user_detail() -> Seq<char> {
    "Invalid session user id"@
}

/// Whether `e` is the authentication error with detail `d`.
pub open spec fn is_auth_error_with(e: MesonAppError, d: Seq<char>) -> bool {
    e matches MesonAppError::Auth(m) && m@ == d
}

/// Requires a signed-in user: succeeds exactly when the session has a user id.
pub fn require_session(session_user_id: Option<&str>) -> (r: Result<(), MesonAppError>)
    ensures
        r is Ok <==> session_user_id is Some,
        r matches Err(e) ==> is_auth_error_with(e, auth_required_detail()),
{
    match session_user_id {
        Some(_) => Ok(()),
        None => {
            proof {
                reveal_strlit("Authentication required");
            }
            Err(auth_error("Authentication required"))
        },
    }
}

/// The session user's id, or the authentication error when there is none.
pub fn session_user_id(user_id: Option<&str>) -> (r: Result<String, MesonAppError>)
    ensures
        match r {
            Ok(id) => user_id matches Some(raw) && id@ == raw@,
            Err(e) => user_id is None && is_auth_error_with(e, auth_required_detail()),
        },
{
    match user_id {
        Some(raw) => Ok(String::from_str(raw)),
        None => {
            proof {
                reveal_strlit("Authentication required");
            }
            Err(auth_error("Authentication required"))
        },
    }
}

/// The session user's record id, given the result of parsing the raw id; an
/// id that does not parse is an authentication error.
pub fn session_record_id<T>(parsed: Option<T>) -> (r: Result<T, MesonAppError>)
    ensures
        match r {
            Ok(rid) => parsed == Some(rid),
            Err(e) => parsed is None && is_auth_error_with(e, invalid_session_user_detail()),
        },
{
    match parsed {
        Some(rid) => Ok(rid),
        None => {
            proof {
                reveal_strlit("Invalid session user id");
            }
            Err(auth_error("Invalid session user id"))
        },
    }
}

/// The authentication error for a session whose data view could not be
/// built, with the builder's description of the failure.
pub fn valence_build_error(failure: &str) -> (e: MesonAppError)
    ensures
        is_auth_error_with(e, "Failed to build Valence: "@ + failure@),
{
    let detail = String::from_str("Failed to build Valence: ").concat(failure);
    auth_error(detail.as_str())
}

} // verus!
