//! The settings of token issuance and of the session cookies.

use vstd::prelude::*;

verus! {

/// How long tokens live and how the cookies that carry them are named. The
/// signing secret is not part of it: it is handed to the token codec.
#[derive(Clone, Debug)]
pub struct JwtSettings {
    /// The name of the cookie that carries the access token.
    pub cookie_name: String,
    /// The domain that the cookies are set for.
    pub cookie_domain: String,
    /// The lifetime of an access token, in minutes.
    pub max_age: i64,
    /// The lifetime of a refresh token, in days.
    pub refresh_max_age: i64,
}

/// The settings as a mathematical value.
pub struct JwtSettingsView {
    pub cookie_name: Seq<char>,
    pub cookie_domain: Seq<char>,
    pub max_age: int,
    pub refresh_max_age: int,
}

impl JwtSettingsView {
    /// The lifetime of an access token, in seconds.
    pub open spec fn access_lifetime(self) -> int {
        60 * self.max_age
    }

    /// The lifetime of a refresh token, in seconds.
    pub open spec fn refresh_lifetime(self) -> int {
        86_400 * self.refresh_max_age
    }

    /// A token expires after it is issued, and a refresh token lives strictly
    /// longer than an access token.
    pub open spec fn valid(self) -> bool {
        0 < self.access_lifetime() < self.refresh_lifetime()
    }
}

impl View for JwtSettings {
    type V = JwtSettingsView;

    open spec fn view(&self) -> JwtSettingsView {
        JwtSettingsView {
            cookie_name: self.cookie_name@,
            cookie_domain: self.cookie_domain@,
            max_age: self.max_age as int,
            refresh_max_age: self.refresh_max_age as int,
        }
    }
}

impl JwtSettings {
    /// The lifetime of an access token, in seconds.
    pub fn access_lifetime(&self) -> (seconds: i128)
        ensures
            seconds == self@.access_lifetime(),
    {
        60 * (self.max_age as i128)
    }

    /// The lifetime of a refresh token, in seconds.
    pub fn refresh_lifetime(&self) -> (seconds: i128)
        ensures
            seconds == self@.refresh_lifetime(),
    {
        86_400 * (self.refresh_max_age as i128)
    }

    /// Whether the two lifetimes are ones that tokens can be issued with.
    pub fn is_valid(&self) -> (valid: bool)
        ensures
            valid == self@.valid(),
    {
        let access: i128 = self.access_lifetime();
        let refresh: i128 = self.refresh_lifetime();
        0 < access && access < refresh
    }
}

} // verus!
