//! The answers of the `/auth` resource.
//!
//! Each handler takes what the server read from the request, or what a
//! service made of it, and gives the answer to send as a plain value.

use vstd::prelude::*;
use crate::config::{JwtSettings, JwtSettingsView};
use crate::domain::user::UserResponse;
use crate::model::response::{
    error_reply, Body, BodyView, Cookie, CookieView, ErrorCode, Reply, ReplyView, SameSite,
};
use crate::service::authentication::{
    refresh_access_token, refresh_access_token_at, refresh_spec,
};
use crate::service::token::{token_view, verified_claims, TokenCodec};

verus! {

/// A cookie of the session: for every path of the configured domain, hidden
/// from scripts, not limited to HTTPS, and `SameSite=Lax`.
pub open spec fn session_cookie(name: Seq<char>, value: Seq<char>, settings: JwtSettingsView) -> CookieView {
    CookieView {
        name,
        value,
        path: "/"@,
        domain: settings.cookie_domain,
        http_only: true,
        secure: false,
        same_site: SameSite::Lax,
    }
}

/// The answer that hands out an access token: status 200, the token in the
/// access cookie and in the body.
pub open spec fn access_token_reply(access_token: Seq<char>, settings: JwtSettingsView) -> ReplyView {
    ReplyView {
        status: 200,
        cookies: seq![session_cookie(settings.cookie_name, access_token, settings)],
        body: BodyView::Token(access_token),
    }
}

/// The answer to a login.
pub open spec fn login_reply(
    login_result: Result<(String, String), ErrorCode>,
    settings: JwtSettingsView,
) -> ReplyView {
    match login_result {
        Ok((access_token, refresh_token)) => ReplyView {
            status: 200,
            cookies: seq![
                session_cookie(settings.cookie_name, access_token@, settings),
                session_cookie("refresh_token"@, refresh_token@, settings),
            ],
            body: BodyView::Token(access_token@),
        },
        Err(code) => error_reply(code),
    }
}

/// The answer to a refresh request without a refresh cookie.
pub open spec fn missing_refresh_token_reply() -> ReplyView {
    ReplyView {
        status: 401,
        cookies: Seq::empty(),
        body: BodyView::Message("Refresh token not found"@),
    }
}

/// The answer to a refresh request, given what the refresh gave: nothing
/// where the request had no refresh cookie.
pub open spec fn refreshed_reply(
    refreshed: Option<Result<Seq<char>, ErrorCode>>,
    settings: JwtSettingsView,
) -> ReplyView {
    match refreshed {
        Some(Ok(access_token)) => access_token_reply(access_token, settings),
        Some(Err(code)) => error_reply(code),
        None => missing_refresh_token_reply(),
    }
}

/// What a refresh gave, with the token as a sequence of characters.
pub open spec fn refreshed_view(refreshed: Option<Result<String, ErrorCode>>) -> Option<
    Result<Seq<char>, ErrorCode>,
> {
    match refreshed {
        Some(outcome) => Some(token_view(outcome)),
        None => None,
    }
}

/// The answer to a refresh request at the time `now`.
pub open spec fn refresh_reply(
    cookie: Option<String>,
    settings: JwtSettingsView,
    secret: Seq<char>,
    now: int,
) -> ReplyView {
    match cookie {
        Some(refresh_token) => refreshed_reply(
            Some(refresh_spec(refresh_token@, settings, secret, now)),
            settings,
        ),
        None => refreshed_reply(None, settings),
    }
}

/// The answer to a logout: status 204, no body, and both cookies of the
/// session set to the empty value.
pub open spec fn logout_reply(settings: JwtSettingsView) -> ReplyView {
    ReplyView {
        status: 204,
        cookies: seq![
            session_cookie(settings.cookie_name, Seq::empty(), settings),
            session_cookie("refresh_token"@, Seq::empty(), settings),
        ],
        body: BodyView::Empty,
    }
}

/// The answer that shows a user, or the failure to get one.
pub open spec fn user_reply(found: Result<UserResponse, ErrorCode>) -> ReplyView {
    match found {
        Ok(user) => ReplyView { status: 200, cookies: Seq::empty(), body: BodyView::User(user@) },
        Err(code) => error_reply(code),
    }
}

/// The answer to a profile request: the profile, or the answer to
/// `INTERNAL001` for every failure to get it, whatever its kind.
pub open spec fn profile_reply(found: Result<UserResponse, ErrorCode>) -> ReplyView {
    match found {
        Ok(user) => ReplyView { status: 200, cookies: Seq::empty(), body: BodyView::User(user@) },
        Err(_) => error_reply(ErrorCode::INTERNAL001),
    }
}

/// Builds a cookie of the session.
fn build_session_cookie(name: String, value: String, settings: &JwtSettings) -> (cookie: Cookie)
    ensures
        cookie@ == session_cookie(name@, value@, settings@),
{
    Cookie {
        name,
        value,
        path: "/".to_owned(),
        domain: settings.cookie_domain.clone(),
        http_only: true,
        secure: false,
        same_site: SameSite::Lax,
    }
}

/// Builds the answer that hands out an access token.
fn build_access_token_reply(access_token: String, settings: &JwtSettings) -> (reply: Reply)
    ensures
        reply@ == access_token_reply(access_token@, settings@),
{
    let mut cookies: Vec<Cookie> = Vec::new();
    cookies.push(build_session_cookie(settings.cookie_name.clone(), access_token.clone(), settings));
    let reply = Reply { status: 200, cookies, body: Body::Token(access_token) };
    assert(reply@.cookies =~= access_token_reply(access_token@, settings@).cookies);
    reply
}

/// Builds the answer that shows a user, or the failure to get one.
fn build_user_reply(found: Result<UserResponse, ErrorCode>) -> (reply: Reply)
    ensures
        reply@ == user_reply(found),
{
    match found {
        Ok(user) => {
            let reply = Reply { status: 200, cookies: Vec::new(), body: Body::User(user) };
            assert(reply@.cookies =~= Seq::empty());
            reply
        },
        Err(code) => Reply::error(code),
    }
}

/// `POST /auth/register`: answers a registration.
///
/// Status 200 with the user that was created, whose profile has no field for
/// the password; otherwise the status of the failure: 409 for a username or
/// an email address that is taken, 500 for any other.
pub fn register_user_handler(response: Result<UserResponse, ErrorCode>) -> (reply: Reply)
    ensures
        reply@ == user_reply(response),
{
    build_user_reply(response)
}

/// `POST /auth/login`: answers a login.
///
/// Status 200 with the access token in the body and both tokens in cookies,
/// the access token under the configured name and the refresh token under
/// `refresh_token`; otherwise the status of the failure: 404 for an unknown
/// user, 400 for a wrong password, 500 for any other.
pub fn login_handler(login_result: Result<(String, String), ErrorCode>, settings: &JwtSettings) -> (reply: Reply)
    ensures
        reply@ == login_reply(login_result, settings@),
{
    match login_result {
        Ok((access_token, refresh_token)) => {
            let mut cookies: Vec<Cookie> = Vec::new();
            cookies.push(
                build_session_cookie(settings.cookie_name.clone(), access_token.clone(), settings),
            );
            cookies.push(build_session_cookie("refresh_token".to_owned(), refresh_token, settings));
            let reply = Reply { status: 200, cookies, body: Body::Token(access_token) };
            assert(reply@.cookies =~= login_reply(login_result, settings@).cookies);
            reply
        },
        Err(code) => Reply::error(code),
    }
}

/// Answers a refresh request, given what the refresh gave, or nothing where
/// the request had no refresh cookie.
///
/// Without the cookie the answer is status 401 with a message. A new access
/// token is answered with status 200, the token in the body and in the
/// access cookie; the refresh cookie is not set again. A failure is answered
/// with its status, 500 for a refresh token that is not valid.
pub fn answer_refresh(refreshed: Option<Result<String, ErrorCode>>, settings: &JwtSettings) -> (reply: Reply)
    ensures
        reply@ == refreshed_reply(refreshed_view(refreshed), settings@),
{
    match refreshed {
        Some(Ok(access_token)) => build_access_token_reply(access_token, settings),
        Some(Err(code)) => Reply::error(code),
        None => {
            let reply = Reply {
                status: 401,
                cookies: Vec::new(),
                body: Body::Message("Refresh token not found".to_owned()),
            };
            assert(reply@.cookies =~= Seq::empty());
            reply
        },
    }
}

/// `POST /auth/refresh` at the time `now`, in seconds since the epoch.
///
/// `cookie` is the value of the request's `refresh_token` cookie. With it the
/// token is refreshed at `now`; the answer is that of [`answer_refresh`].
pub fn refresh_token_handler_at(
    cookie: Option<String>,
    settings: &JwtSettings,
    codec: &TokenCodec<'_>,
    now: i64,
) -> (reply: Reply)
    ensures
        reply@ == refresh_reply(cookie, settings@, codec.secret(), now as int),
{
    let refreshed = match cookie {
        Some(refresh_token) => Some(
            refresh_access_token_at(refresh_token.as_str(), settings, codec, now),
        ),
        None => None,
    };
    answer_refresh(refreshed, settings)
}

/// `POST /auth/refresh` at the time that the clock shows: the answer is that
/// of [`refresh_token_handler_at`] for some time.
///
/// Whatever the clock shows, a request without the refresh cookie is answered
/// with status 401, and one whose token has a signature that is rejected or a
/// payload that is no claim set with the answer to `AUTH003`.
pub fn refresh_token_handler(
    cookie: Option<String>,
    settings: &JwtSettings,
    codec: &TokenCodec<'_>,
) -> (reply: Reply)
    ensures
        exists|now: int| reply@ == refresh_reply(cookie, settings@, codec.secret(), now),
        cookie is None ==> reply@ == missing_refresh_token_reply(),
        cookie matches Some(refresh_token) && verified_claims(refresh_token@, codec.secret())
            is None ==> reply@ == error_reply(ErrorCode::AUTH003),
{
    match cookie {
        Some(refresh_token) => {
            let ghost presented = refresh_token@;
            let refreshed = refresh_access_token(refresh_token, settings, codec);
            let ghost now = choose|now: int|
                token_view(refreshed) == refresh_spec(presented, settings@, codec.secret(), now);
            let reply = answer_refresh(Some(refreshed), settings);
            assert(reply@ == refresh_reply(cookie, settings@, codec.secret(), now));
            reply
        },
        None => {
            let reply = answer_refresh(None, settings);
            assert(reply@ == refresh_reply(cookie, settings@, codec.secret(), 0));
            reply
        },
    }
}

/// `POST /auth/logout`: answers a logout.
///
/// Status 204 without a body. Both cookies of the session are set to the
/// empty value, which has the client discard the tokens. Nothing else
/// happens: the backend keeps no record of a session, and a token that was
/// copied stays valid until it expires.
pub fn logout_handler(settings: &JwtSettings) -> (reply: Reply)
    ensures
        reply@ == logout_reply(settings@),
{
    let mut cookies: Vec<Cookie> = Vec::new();
    cookies.push(build_session_cookie(settings.cookie_name.clone(), String::new(), settings));
    cookies.push(build_session_cookie("refresh_token".to_owned(), String::new(), settings));
    let reply = Reply { status: 204, cookies, body: Body::Empty };
    assert(reply@.cookies =~= logout_reply(settings@).cookies);
    reply
}

/// `GET /auth/profile`: answers a profile request.
///
/// Status 200 with the profile of the user who is logged in. Every failure to
/// get it is answered as `INTERNAL001`, with status 500: that the record is
/// missing is not told apart from a failure of the store.
pub fn profile_handler(found: Result<UserResponse, ErrorCode>) -> (reply: Reply)
    ensures
        reply@ == profile_reply(found),
        found is Err ==> reply.status == 500,
{
    match found {
        Ok(user) => build_user_reply(Ok(user)),
        Err(_) => Reply::error(ErrorCode::INTERNAL001),
    }
}

/// A logout answers the same however often it is asked and whatever else the
/// backend holds: the answer is a function of the access cookie's name and
/// the cookies' domain alone. It always has status 204, no body, and exactly
/// the two cookies of the session, both with the empty value.
pub proof fn lemma_logout_is_stateless(first: JwtSettingsView, second: JwtSettingsView)
    requires
        first.cookie_name == second.cookie_name,
        first.cookie_domain == second.cookie_domain,
    ensures
        logout_reply(first) == logout_reply(second),
        logout_reply(first).status == 204,
        logout_reply(first).body == BodyView::Empty,
        logout_reply(first).cookies.len() == 2,
        logout_reply(first).cookies[0].name == first.cookie_name,
        logout_reply(first).cookies[1].name == "refresh_token"@,
        forall|i: int| 0 <= i < 2 ==> (#[trigger] logout_reply(first).cookies[i]).value.len() == 0,
{
}

} // verus!
