//! The closed set of failures that the backend reports, and the answers that
//! the HTTP boundary sends.
//!
//! An answer is described here as a plain value: a status, the cookies to set
//! and what the body holds. Turning it into bytes on a socket is the server's
//! work.

use vstd::prelude::*;
use crate::domain::user::{UserResponse, UserResponseView};

verus! {

/// Every failure of the backend is exactly one of these kinds.
#[allow(non_camel_case_types)]
#[derive(Clone, Copy, Debug, PartialEq, Eq, Structural)]
pub enum ErrorCode {
    /// No user record matched: the identifier of a login, or the id of a
    /// lookup.
    AUTH001,
    /// The password did not match the stored credential hash.
    AUTH002,
    /// The token presented was tampered with, malformed or expired.
    AUTH003,
    /// A registration asked for a username that is taken.
    REG001,
    /// A registration asked for an email address that is taken.
    REG002,
    /// Any unexpected storage, cryptographic or serialization failure.
    INTERNAL001,
}

impl ErrorCode {
    /// The HTTP status that the kind is answered with.
    pub open spec fn spec_status(self) -> u16 {
        match self {
            ErrorCode::AUTH001 => 404,
            ErrorCode::AUTH002 => 400,
            ErrorCode::AUTH003 => 500,
            ErrorCode::REG001 => 409,
            ErrorCode::REG002 => 409,
            ErrorCode::INTERNAL001 => 500,
        }
    }

    /// The name of the kind, as it is shown to a client.
    pub open spec fn spec_kind(self) -> Seq<char> {
        match self {
            ErrorCode::AUTH001 => "user-not-found"@,
            ErrorCode::AUTH002 => "bad-credential"@,
            ErrorCode::AUTH003 => "invalid-refresh-token"@,
            ErrorCode::REG001 => "username-conflict"@,
            ErrorCode::REG002 => "email-conflict"@,
            ErrorCode::INTERNAL001 => "internal"@,
        }
    }

    /// The name of the kind, as it is shown to a client. It tells nothing of
    /// what went wrong inside the store or the cryptographic libraries.
    pub fn kind(self) -> (name: &'static str)
        ensures
            name@ == self.spec_kind(),
    {
        match self {
            ErrorCode::AUTH001 => "user-not-found",
            ErrorCode::AUTH002 => "bad-credential",
            ErrorCode::AUTH003 => "invalid-refresh-token",
            ErrorCode::REG001 => "username-conflict",
            ErrorCode::REG002 => "email-conflict",
            ErrorCode::INTERNAL001 => "internal",
        }
    }

    /// The HTTP status that the kind is answered with.
    #[verifier::when_used_as_spec(spec_status)]
    pub fn status(self) -> (code: u16)
        ensures
            code == self.spec_status(),
    {
        match self {
            ErrorCode::AUTH001 => 404,
            ErrorCode::AUTH002 => 400,
            ErrorCode::AUTH003 => 500,
            ErrorCode::REG001 => 409,
            ErrorCode::REG002 => 409,
            ErrorCode::INTERNAL001 => 500,
        }
    }
}

/// The `SameSite` attribute of a cookie.
#[derive(Clone, Copy, Debug, PartialEq, Eq, Structural)]
pub enum SameSite {
    Strict,
    Lax,
}

/// A cookie that an answer sets.
#[derive(Debug, PartialEq, Eq)]
pub struct Cookie {
    pub name: String,
    /// The value. An empty value clears the cookie.
    pub value: String,
    pub path: String,
    pub domain: String,
    pub http_only: bool,
    pub secure: bool,
    pub same_site: SameSite,
}

/// A cookie as a mathematical value.
pub struct CookieView {
    pub name: Seq<char>,
    pub value: Seq<char>,
    pub path: Seq<char>,
    pub domain: Seq<char>,
    pub http_only: bool,
    pub secure: bool,
    pub same_site: SameSite,
}

impl View for Cookie {
    type V = CookieView;

    open spec fn view(&self) -> CookieView {
        CookieView {
            name: self.name@,
            value: self.value@,
            path: self.path@,
            domain: self.domain@,
            http_only: self.http_only,
            secure: self.secure,
            same_site: self.same_site,
        }
    }
}

/// What the JSON body of an answer holds.
#[derive(Debug, PartialEq, Eq)]
pub enum Body {
    /// No body.
    Empty,
    /// An access token, under the key `token`.
    Token(String),
    /// A user's profile.
    User(UserResponse),
    /// The kind of a failure.
    Error(ErrorCode),
    /// A message, under the key `error`.
    Message(String),
}

/// A body as a mathematical value.
pub enum BodyView {
    Empty,
    Token(Seq<char>),
    User(UserResponseView),
    Error(ErrorCode),
    Message(Seq<char>),
}

impl View for Body {
    type V = BodyView;

    open spec fn view(&self) -> BodyView {
        match *self {
            Body::Empty => BodyView::Empty,
            Body::Token(token) => BodyView::Token(token@),
            Body::User(user) => BodyView::User(user@),
            Body::Error(code) => BodyView::Error(code),
            Body::Message(text) => BodyView::Message(text@),
        }
    }
}

/// An answer of the HTTP boundary.
#[derive(Debug, PartialEq, Eq)]
pub struct Reply {
    /// The HTTP status.
    pub status: u16,
    /// The cookies that the answer sets, in order.
    pub cookies: Vec<Cookie>,
    pub body: Body,
}

/// An answer as a mathematical value.
pub struct ReplyView {
    pub status: int,
    pub cookies: Seq<CookieView>,
    pub body: BodyView,
}

impl View for Reply {
    type V = ReplyView;

    open spec fn view(&self) -> ReplyView {
        ReplyView {
            status: self.status as int,
            cookies: self.cookies@.map_values(|cookie: Cookie| cookie@),
            body: self.body@,
        }
    }
}

/// The answer to a request that failed: the status of the kind, no cookie,
/// and the kind as the body.
pub open spec fn error_reply(code: ErrorCode) -> ReplyView {
    ReplyView {
        status: code.spec_status() as int,
        cookies: Seq::empty(),
        body: BodyView::Error(code),
    }
}

impl Reply {
    /// The answer to a request that failed with `code`. Nothing but the kind
    /// reaches the client.
    pub fn error(code: ErrorCode) -> (reply: Reply)
        ensures
            reply@ == error_reply(code),
    {
        let reply = Reply { status: code.status(), cookies: Vec::new(), body: Body::Error(code) };
        assert(reply@.cookies =~= Seq::empty());
        reply
    }
}

} // verus!
