//! User records, and how the outcome of a query on them is classified.
//!
//! The credential store is a database that the caller talks to. The caller
//! runs the query and reports how it ended; what that means for the request
//! is decided here.

use vstd::prelude::*;
use vstd::arithmetic::power::pow;
use crate::model::response::ErrorCode;

verus! {

/// A user record as authentication reads it.
#[derive(Clone)]
pub struct AuthUser {
    /// The user's id, a UUID as a 128-bit number.
    pub id: u128,
    pub username: String,
    pub email: String,
    /// The encoded credential hash. It is read by password verification only
    /// and never leaves the backend.
    pub password: String,
    /// The role tag, such as `user` or `admin`.
    pub role: String,
}

/// A user record as a mathematical value.
pub struct AuthUserView {
    pub id: u128,
    pub username: Seq<char>,
    pub email: Seq<char>,
    pub password: Seq<char>,
    pub role: Seq<char>,
}

impl View for AuthUser {
    type V = AuthUserView;

    open spec fn view(&self) -> AuthUserView {
        AuthUserView {
            id: self.id,
            username: self.username@,
            email: self.email@,
            password: self.password@,
            role: self.role@,
        }
    }
}

/// A user's profile as it is shown to the user. It has no field for the
/// credential hash.
#[derive(Clone, Debug, PartialEq, Eq)]
pub struct UserResponse {
    /// The user's id, a UUID as a 128-bit number.
    pub id: u128,
    pub username: String,
    pub email: String,
    pub role: String,
    /// When the record was created, in microseconds since the epoch.
    pub created_at: i64,
}

/// A profile as a mathematical value.
pub struct UserResponseView {
    pub id: u128,
    pub username: Seq<char>,
    pub email: Seq<char>,
    pub role: Seq<char>,
    pub created_at: int,
}

impl View for UserResponse {
    type V = UserResponseView;

    open spec fn view(&self) -> UserResponseView {
        UserResponseView {
            id: self.id,
            username: self.username@,
            email: self.email@,
            role: self.role@,
            created_at: self.created_at as int,
        }
    }
}

/// How a query for at most one row ended.
pub enum Fetched<T> {
    /// The query gave this row.
    Row(T),
    /// The query ran and gave no row.
    NoRow,
    /// The query could not be run, or its row could not be read.
    Failed,
}

/// The sixteen lower-case hexadecimal digits.
pub open spec fn hex_digits() -> Seq<char> {
    seq!['0', '1', '2', '3', '4', '5', '6', '7', '8', '9', 'a', 'b', 'c', 'd', 'e', 'f']
}

/// The hexadecimal digit of `id` at `place`, where place 0 is the most
/// significant of the 32 digits.
pub open spec fn hex_digit_at(id: u128, place: int) -> char {
    hex_digits()[(id as int / pow(16, (31 - place) as nat)) % 16]
}

/// The number of hyphens before the position `at` of a hyphenated UUID.
pub open spec fn hyphens_before(at: int) -> int {
    if at < 8 {
        0
    } else if at < 13 {
        1
    } else if at < 18 {
        2
    } else if at < 23 {
        3
    } else {
        4
    }
}

/// The canonical text of a UUID: its 32 lower-case hexadecimal digits, most
/// significant first, in groups of 8, 4, 4, 4 and 12 with a hyphen between
/// two groups.
pub open spec fn uuid_text(id: u128) -> Seq<char> {
    Seq::new(
        36,
        |at: int|
            if at == 8 || at == 13 || at == 18 || at == 23 {
                '-'
            } else {
                hex_digit_at(id, at - hyphens_before(at))
            },
    )
}

/// `uuid::Uuid::from_u128`, then the UUID's `to_string`: the hyphenated
/// lower-case form.
#[verifier::external_body]
pub(crate) fn uuid_to_string(id: u128) -> (text: String)
    ensures
        text@ == uuid_text(id),
{
    uuid::Uuid::from_u128(id).to_string()
}

/// What a lookup by username or email address means for a login.
pub open spec fn identifier_lookup(fetched: Fetched<AuthUser>) -> Result<
    Option<AuthUser>,
    ErrorCode,
> {
    match fetched {
        Fetched::Row(user) => Ok(Some(user)),
        Fetched::NoRow => Ok(None),
        Fetched::Failed => Err(ErrorCode::INTERNAL001),
    }
}

/// What a lookup by id gives: the profile, `AUTH001` where no record has the
/// id, and `INTERNAL001` where the store failed.
pub open spec fn id_lookup(fetched: Fetched<UserResponse>) -> Result<UserResponse, ErrorCode> {
    match fetched {
        Fetched::Row(user) => Ok(user),
        Fetched::NoRow => Err(ErrorCode::AUTH001),
        Fetched::Failed => Err(ErrorCode::INTERNAL001),
    }
}

impl AuthUser {
    /// Classifies the outcome of the query that looks a user up by an
    /// identifier, which is matched without regard to case against the
    /// username and the email address.
    ///
    /// A row is the user; no row means that there is no such user, which is
    /// for the caller to report; a failure of the store is `INTERNAL001`,
    /// with nothing of the store's own error in it.
    pub fn find_by_identifier(fetched: Fetched<AuthUser>) -> (found: Result<
        Option<AuthUser>,
        ErrorCode,
    >)
        ensures
            found == identifier_lookup(fetched),
    {
        match fetched {
            Fetched::Row(user) => Ok(Some(user)),
            Fetched::NoRow => Ok(None),
            Fetched::Failed => Err(ErrorCode::INTERNAL001),
        }
    }

    /// Classifies the outcome of the statement that sets a user's last login
    /// to the current time: `saved` tells whether the store ran it. A failure
    /// of the store is `INTERNAL001`.
    pub fn update_last_login(saved: bool) -> (recorded: Result<(), ErrorCode>)
        ensures
            saved ==> recorded == Ok::<(), ErrorCode>(()),
            !saved ==> recorded == Err::<(), ErrorCode>(ErrorCode::INTERNAL001),
    {
        if saved {
            Ok(())
        } else {
            Err(ErrorCode::INTERNAL001)
        }
    }
}

impl UserResponse {
    /// Classifies the outcome of the query that looks a profile up by the
    /// user's id. A row is the profile. No row fails as not found, with
    /// `AUTH001`; a failure of the store is `INTERNAL001`, so that the two can
    /// be told apart.
    pub fn find_by_id(fetched: Fetched<UserResponse>) -> (found: Result<UserResponse, ErrorCode>)
        ensures
            found == id_lookup(fetched),
            fetched is NoRow ==> found == Err::<UserResponse, ErrorCode>(ErrorCode::AUTH001),
            fetched is Failed ==> found == Err::<UserResponse, ErrorCode>(ErrorCode::INTERNAL001),
    {
        match fetched {
            Fetched::Row(user) => Ok(user),
            Fetched::NoRow => Err(ErrorCode::AUTH001),
            Fetched::Failed => Err(ErrorCode::INTERNAL001),
        }
    }
}

} // verus!
