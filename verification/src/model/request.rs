//! The bodies of the requests that the services take.

use vstd::prelude::*;

verus! {

/// The body of a login request.
pub struct LoginRequest {
    /// A username or an email address.
    pub identifier: String,
    /// The plaintext password.
    pub password: String,
}

/// A login request as a mathematical value.
pub struct LoginRequestView {
    pub identifier: Seq<char>,
    pub password: Seq<char>,
}

impl View for LoginRequest {
    type V = LoginRequestView;

    open spec fn view(&self) -> LoginRequestView {
        LoginRequestView { identifier: self.identifier@, password: self.password@ }
    }
}

} // verus!
