//! The failure kinds of a registration.

use vstd::prelude::*;
use crate::domain::user::{Fetched, UserResponse};
use crate::model::response::ErrorCode;

verus! {

/// The conflict that keeps a registration from going ahead: `REG001` where
/// the username is taken, otherwise `REG002` where the email address is
/// taken, and none where both are free.
pub open spec fn conflict_of(username_taken: bool, email_taken: bool) -> Option<ErrorCode> {
    if username_taken {
        Some(ErrorCode::REG001)
    } else if email_taken {
        Some(ErrorCode::REG002)
    } else {
        None
    }
}

/// Names the conflict of a registration, given whether the store already has
/// a user with the username and one with the email address asked for.
pub fn registration_conflict(username_taken: bool, email_taken: bool) -> (conflict: Option<ErrorCode>)
    ensures
        conflict == conflict_of(username_taken, email_taken),
{
    if username_taken {
        Some(ErrorCode::REG001)
    } else if email_taken {
        Some(ErrorCode::REG002)
    } else {
        None
    }
}

/// What the insertion of a user gives: the profile of the row that was
/// inserted, and `INTERNAL001` where the store gave no row back or failed.
pub open spec fn inserted_user(inserted: Fetched<UserResponse>) -> Result<UserResponse, ErrorCode> {
    match inserted {
        Fetched::Row(user) => Ok(user),
        Fetched::NoRow => Err(ErrorCode::INTERNAL001),
        Fetched::Failed => Err(ErrorCode::INTERNAL001),
    }
}

/// Classifies the outcome of the statement that inserts a user and returns
/// the new row. A row is the user that was created; anything else is
/// `INTERNAL001`, with nothing of the store's own error in it.
pub fn registered_user(inserted: Fetched<UserResponse>) -> (created: Result<UserResponse, ErrorCode>)
    ensures
        created == inserted_user(inserted),
{
    match inserted {
        Fetched::Row(user) => Ok(user),
        _ => Err(ErrorCode::INTERNAL001),
    }
}

} // verus!
