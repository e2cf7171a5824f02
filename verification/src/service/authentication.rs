//! Login and token refresh.
//!
//! A login alternates between the credential store and decisions. The caller
//! talks to the store; every decision is taken here:
//!
//! 1. the caller looks the identifier up and hands the outcome to
//!    [`login_user`], which checks the password and mints the two tokens;
//! 2. where that gives [`LoginStep::RecordLogin`], the caller has the store
//!    set the user's last login and hands the outcome to [`conclude_login`].
//!
//! A refresh needs no store: [`refresh_access_token`] validates the refresh
//! token and mints a new access token for the same subject and role.
//!
//! What a lookup, a password check, a signature check and the clock gave is
//! decided on by functions that take it as a plain value: [`resolve_user`],
//! [`session_claims`] and [`renewed_claims`].

use vstd::prelude::*;
use crate::config::{JwtSettings, JwtSettingsView};
use crate::domain::user::{uuid_text, uuid_to_string, AuthUser, AuthUserView};
use crate::model::request::LoginRequest;
use crate::model::response::ErrorCode;
use crate::service::clock::unix_now;
use crate::service::password::{password_matches, verify_password};
use crate::service::token::{
    claims_view, decode_spec, encode_spec, enforce_expiry, lemma_payload_round_trip,
    optional_claims_view, payload_of, token_view, unexpired, verified_claims, verified_payload,
    ClaimsView, TokenClaims, TokenCodec,
};

verus! {

/// What the caller of [`login_user`] does next.
pub enum LoginStep {
    /// The credentials were accepted and both tokens are minted. The caller
    /// has the store set the last login of `user_id` to the current time and
    /// goes on with [`conclude_login`].
    RecordLogin { user_id: u128, access_token: String, refresh_token: String },
    /// The login is refused with this kind. No token was issued, and the
    /// store is not to be touched.
    Reject(ErrorCode),
}

/// A login step as a mathematical value.
pub enum LoginStepView {
    RecordLogin { user_id: u128, access_token: Seq<char>, refresh_token: Seq<char> },
    Reject(ErrorCode),
}

impl View for LoginStep {
    type V = LoginStepView;

    open spec fn view(&self) -> LoginStepView {
        match *self {
            LoginStep::RecordLogin { user_id, access_token, refresh_token } => {
                LoginStepView::RecordLogin {
                    user_id,
                    access_token: access_token@,
                    refresh_token: refresh_token@,
                }
            },
            LoginStep::Reject(code) => LoginStepView::Reject(code),
        }
    }
}

/// How a login ended once its tokens were minted.
#[derive(Debug, PartialEq, Eq)]
pub struct LoginOutcome {
    pub access_token: String,
    pub refresh_token: String,
    /// The failure to record the login, for the caller to log. It does not
    /// take the tokens back.
    pub report: Option<ErrorCode>,
}

/// The claim set minted at the time `now` for `lifetime` seconds, both in
/// seconds: none before the epoch, none without a positive lifetime, and none
/// whose expiry does not fit a token.
pub open spec fn minted_claims(sub: Seq<char>, role: Seq<char>, now: int, lifetime: int) -> Option<
    ClaimsView,
> {
    if 0 <= now && 0 < lifetime && now + lifetime <= u64::MAX {
        Some(ClaimsView { sub, role, iat: now as nat, exp: (now + lifetime) as nat })
    } else {
        None
    }
}

/// The user that a lookup resolved an identifier to: a failed lookup is passed
/// on, and no user is `AUTH001`.
pub open spec fn resolved_user(found: Result<Option<AuthUser>, ErrorCode>) -> Result<
    AuthUser,
    ErrorCode,
> {
    match found {
        Ok(Some(user)) => Ok(user),
        Ok(None) => Err(ErrorCode::AUTH001),
        Err(code) => Err(code),
    }
}

/// The claim sets of the access token and of the refresh token that a login
/// at `now` gives `user`, once the password was checked: `AUTH002` for a
/// password that was not accepted, `INTERNAL001` where the settings are not
/// valid or a claim set cannot be minted.
pub open spec fn session_claims_spec(
    user: AuthUserView,
    password_accepted: bool,
    settings: JwtSettingsView,
    now: int,
) -> Result<(ClaimsView, ClaimsView), ErrorCode> {
    if !password_accepted {
        Err(ErrorCode::AUTH002)
    } else if !settings.valid() {
        Err(ErrorCode::INTERNAL001)
    } else {
        match (
            minted_claims(uuid_text(user.id), user.role, now, settings.access_lifetime()),
            minted_claims(uuid_text(user.id), user.role, now, settings.refresh_lifetime()),
        ) {
            (Some(access), Some(refresh)) => Ok((access, refresh)),
            _ => Err(ErrorCode::INTERNAL001),
        }
    }
}

/// The claim set of the access token that a refresh at `now` makes of the
/// claim set that the refresh token was found to carry: the same subject and
/// role, freshly stamped. `AUTH003` for a token that carries none or has
/// expired, `INTERNAL001` where the settings are not valid or the claim set
/// cannot be minted.
pub open spec fn renewed_claims_spec(
    verified: Option<ClaimsView>,
    settings: JwtSettingsView,
    now: int,
) -> Result<ClaimsView, ErrorCode> {
    match unexpired(verified, now) {
        Ok(presented) => if settings.valid() {
            match minted_claims(presented.sub, presented.role, now, settings.access_lifetime()) {
                Some(renewed) => Ok(renewed),
                None => Err(ErrorCode::INTERNAL001),
            }
        } else {
            Err(ErrorCode::INTERNAL001)
        },
        Err(code) => Err(code),
    }
}

/// What signing the two claim sets of a login gives: the step that records
/// the login, or `INTERNAL001` if a token cannot be signed.
pub open spec fn signed_session(
    user_id: u128,
    access: ClaimsView,
    refresh: ClaimsView,
    secret: Seq<char>,
) -> LoginStepView {
    match (encode_spec(access, secret), encode_spec(refresh, secret)) {
        (Ok(access_token), Ok(refresh_token)) => LoginStepView::RecordLogin {
            user_id,
            access_token,
            refresh_token,
        },
        _ => LoginStepView::Reject(ErrorCode::INTERNAL001),
    }
}

/// What a login decides at `now`, given the password presented and the
/// outcome of the lookup.
pub open spec fn login_spec(
    password: Seq<char>,
    found: Result<Option<AuthUser>, ErrorCode>,
    settings: JwtSettingsView,
    secret: Seq<char>,
    now: int,
) -> LoginStepView {
    match resolved_user(found) {
        Ok(user) => match session_claims_spec(
            user@,
            password_matches(password, user@.password),
            settings,
            now,
        ) {
            Ok((access, refresh)) => signed_session(user.id, access, refresh, secret),
            Err(code) => LoginStepView::Reject(code),
        },
        Err(code) => LoginStepView::Reject(code),
    }
}

/// What a refresh gives at `now`.
pub open spec fn refresh_spec(
    refresh_token: Seq<char>,
    settings: JwtSettingsView,
    secret: Seq<char>,
    now: int,
) -> Result<Seq<char>, ErrorCode> {
    match renewed_claims_spec(verified_claims(refresh_token, secret), settings, now) {
        Ok(renewed) => encode_spec(renewed, secret),
        Err(code) => Err(code),
    }
}

/// Whether a claim set can be minted at `now` for `lifetime` seconds: the
/// settings are valid, `now` is not before the epoch, and the expiry fits a
/// token.
pub open spec fn can_mint(settings: JwtSettingsView, now: int, lifetime: int) -> bool {
    settings.valid() && 0 <= now && now + lifetime <= u64::MAX
}

/// The lookup that found `user`.
pub open spec fn found_user(user: AuthUser) -> Result<Option<AuthUser>, ErrorCode> {
    Ok(Some(user))
}

/// The two claim sets of a login as mathematical values.
pub open spec fn session_claims_view(
    outcome: Result<(TokenClaims, TokenClaims), ErrorCode>,
) -> Result<(ClaimsView, ClaimsView), ErrorCode> {
    match outcome {
        Ok((access, refresh)) => Ok((access@, refresh@)),
        Err(code) => Err(code),
    }
}

/// Mints a claim set at `now` for `lifetime` seconds.
fn mint_claims(sub: String, role: String, now: i64, lifetime: i128) -> (claims: Option<TokenClaims>)
    requires
        -0x1_0000_0000_0000_0000_0000 < lifetime < 0x1_0000_0000_0000_0000_0000,
    ensures
        optional_claims_view(claims) == minted_claims(sub@, role@, now as int, lifetime as int),
{
    if now < 0 || lifetime <= 0 {
        return None;
    }
    let exp: i128 = now as i128 + lifetime;
    if exp > u64::MAX as i128 {
        return None;
    }
    Some(TokenClaims { sub, role, iat: now as u64, exp: exp as u64 })
}

/// Resolves the outcome of a lookup to the user who logs in: a failed lookup
/// is passed on, and no user is `AUTH001`.
pub fn resolve_user(found: Result<Option<AuthUser>, ErrorCode>) -> (user: Result<AuthUser, ErrorCode>)
    ensures
        user == resolved_user(found),
{
    match found {
        Ok(Some(user)) => Ok(user),
        Ok(None) => Err(ErrorCode::AUTH001),
        Err(code) => Err(code),
    }
}

/// Mints the claim sets of a login at the time `now`, in seconds since the
/// epoch, for a user whose password was checked.
///
/// A password that was not accepted is `AUTH002`. Otherwise both claim sets
/// carry the user's id as subject and the user's role and are issued at
/// `now`; that of the access token expires `max_age` minutes later and that
/// of the refresh token `refresh_max_age` days later. Settings that are not
/// valid, a time before the epoch and an expiry out of range are
/// `INTERNAL001`.
pub fn session_claims(
    user: &AuthUser,
    password_accepted: bool,
    settings: &JwtSettings,
    now: i64,
) -> (claims: Result<(TokenClaims, TokenClaims), ErrorCode>)
    ensures
        session_claims_view(claims) == session_claims_spec(
            user@,
            password_accepted,
            settings@,
            now as int,
        ),
{
    if !password_accepted {
        return Err(ErrorCode::AUTH002);
    }
    if !settings.is_valid() {
        return Err(ErrorCode::INTERNAL001);
    }
    let access = mint_claims(
        uuid_to_string(user.id),
        user.role.clone(),
        now,
        settings.access_lifetime(),
    );
    let refresh = mint_claims(
        uuid_to_string(user.id),
        user.role.clone(),
        now,
        settings.refresh_lifetime(),
    );
    match (access, refresh) {
        (Some(access), Some(refresh)) => Ok((access, refresh)),
        _ => Err(ErrorCode::INTERNAL001),
    }
}

/// Mints the claim set of a new access token at the time `now`, in seconds
/// since the epoch, from the claim set that a refresh token was found to
/// carry.
///
/// A token that carries none, and one whose expiry `now` exceeds, is
/// `AUTH003`. Otherwise the new claim set has the subject and the role of the
/// one presented, is issued at `now` and expires `max_age` minutes later.
/// Settings that are not valid, a time before the epoch and an expiry out of
/// range are `INTERNAL001`.
pub fn renewed_claims(verified: Option<TokenClaims>, settings: &JwtSettings, now: i64) -> (claims:
    Result<TokenClaims, ErrorCode>)
    ensures
        claims_view(claims) == renewed_claims_spec(
            optional_claims_view(verified),
            settings@,
            now as int,
        ),
{
    let presented = match enforce_expiry(verified, now) {
        Ok(presented) => presented,
        Err(code) => {
            return Err(code);
        },
    };
    if !settings.is_valid() {
        return Err(ErrorCode::INTERNAL001);
    }
    match mint_claims(presented.sub, presented.role, now, settings.access_lifetime()) {
        Some(renewed) => Ok(renewed),
        None => Err(ErrorCode::INTERNAL001),
    }
}

/// Decides a login at the time `now`, in seconds since the epoch.
///
/// `found` is the outcome of looking the request's identifier up. A failed
/// lookup is passed on; no user is `AUTH001`; a password that the user's
/// credential hash does not accept is `AUTH002`. Otherwise an access token
/// and a refresh token are minted, both for the user's id as subject and the
/// user's role, both issued at `now`, the first expiring `max_age` minutes and
/// the second `refresh_max_age` days later. Settings that are not valid, a
/// time before the epoch, an expiry out of range and a failure to sign are
/// `INTERNAL001`.
pub fn login_user_at(
    data: &LoginRequest,
    settings: &JwtSettings,
    codec: &TokenCodec<'_>,
    found: Result<Option<AuthUser>, ErrorCode>,
    now: i64,
) -> (step: LoginStep)
    ensures
        step@ == login_spec(data.password@, found, settings@, codec.secret(), now as int),
{
    let user = match resolve_user(found) {
        Ok(user) => user,
        Err(code) => {
            return LoginStep::Reject(code);
        },
    };
    let password_accepted = verify_password(data.password.as_str(), user.password.as_str());
    let (access, refresh) = match session_claims(&user, password_accepted, settings, now) {
        Ok(claims) => claims,
        Err(code) => {
            return LoginStep::Reject(code);
        },
    };
    match (codec.encode(&access), codec.encode(&refresh)) {
        (Ok(access_token), Ok(refresh_token)) => LoginStep::RecordLogin {
            user_id: user.id,
            access_token,
            refresh_token,
        },
        _ => LoginStep::Reject(ErrorCode::INTERNAL001),
    }
}

/// Decides a login at the time that the clock shows: the step is that of
/// [`login_user_at`] for some time.
///
/// Whatever the clock shows, a failed lookup, an unknown identifier and a
/// wrong password are refused with their kind, and the store is asked to
/// record a login only for the user that was found, after the password was
/// accepted.
pub fn login_user(
    data: &LoginRequest,
    settings: &JwtSettings,
    codec: &TokenCodec<'_>,
    found: Result<Option<AuthUser>, ErrorCode>,
) -> (step: LoginStep)
    ensures
        exists|now: int|
            step@ == login_spec(data.password@, found, settings@, codec.secret(), now),
        found matches Err(code) ==> step@ == LoginStepView::Reject(code),
        found matches Ok(None) ==> step@ == LoginStepView::Reject(ErrorCode::AUTH001),
        found matches Ok(Some(user)) && !password_matches(data.password@, user.password@) ==> step@
            == LoginStepView::Reject(ErrorCode::AUTH002),
        step matches LoginStep::RecordLogin { user_id, .. } ==> found matches Ok(Some(user))
            && user.id == user_id && password_matches(data.password@, user.password@),
{
    let now: i64 = unix_now();
    login_user_at(data, settings, codec, found, now)
}

/// Ends a login whose tokens are minted. `recorded` is the outcome of setting
/// the user's last login. The login has succeeded either way: a failure to
/// record it is reported beside the tokens and does not take them back.
pub fn conclude_login(
    access_token: String,
    refresh_token: String,
    recorded: Result<(), ErrorCode>,
) -> (outcome: LoginOutcome)
    ensures
        outcome.access_token == access_token,
        outcome.refresh_token == refresh_token,
        recorded is Ok ==> outcome.report is None,
        recorded matches Err(code) ==> outcome.report == Some(code),
{
    let report = match recorded {
        Ok(_) => None,
        Err(code) => Some(code),
    };
    LoginOutcome { access_token, refresh_token, report }
}

/// Refreshes an access token at the time `now`, in seconds since the epoch.
///
/// The refresh token is refused with `AUTH003` if its signature does not
/// match, if it is malformed, or if `now` exceeds its expiry. Otherwise a new
/// access token is minted for the subject and the role of the refresh token,
/// issued at `now` and expiring `max_age` minutes later. The refresh token is
/// not renewed. Settings that are not valid, a time before the epoch, an
/// expiry out of range and a failure to sign are `INTERNAL001`.
pub fn refresh_access_token_at(
    refresh_token: &str,
    settings: &JwtSettings,
    codec: &TokenCodec<'_>,
    now: i64,
) -> (access_token: Result<String, ErrorCode>)
    ensures
        token_view(access_token) == refresh_spec(
            refresh_token@,
            settings@,
            codec.secret(),
            now as int,
        ),
{
    match renewed_claims(codec.authenticate(refresh_token), settings, now) {
        Ok(renewed) => codec.encode(&renewed),
        Err(code) => Err(code),
    }
}

/// Refreshes an access token at the time that the clock shows: the outcome is
/// that of [`refresh_access_token_at`] for some time.
///
/// Whatever the clock shows, a token whose signature is rejected or whose
/// payload is no claim set is refused with `AUTH003`.
pub fn refresh_access_token(
    refresh_token: String,
    settings: &JwtSettings,
    codec: &TokenCodec<'_>,
) -> (access_token: Result<String, ErrorCode>)
    ensures
        exists|now: int|
            token_view(access_token) == refresh_spec(
                refresh_token@,
                settings@,
                codec.secret(),
                now,
            ),
        verified_claims(refresh_token@, codec.secret()) is None ==> access_token == Err::<
            String,
            ErrorCode,
        >(ErrorCode::AUTH003),
{
    let now: i64 = unix_now();
    refresh_access_token_at(refresh_token.as_str(), settings, codec, now)
}

/// The two tokens of one login are issued at the same second for the same
/// subject and role, each expires after it was issued, and the refresh token
/// outlives the access token.
pub proof fn lemma_login_claims(user: AuthUserView, settings: JwtSettingsView, now: int)
    requires
        session_claims_spec(user, true, settings, now) is Ok,
    ensures
        ({
            let (access, refresh) = session_claims_spec(user, true, settings, now).unwrap();
            &&& access.sub == uuid_text(user.id) && refresh.sub == access.sub
            &&& access.role == user.role && refresh.role == access.role
            &&& access.iat == now && refresh.iat == now
            &&& access.exp == now + 60 * settings.max_age
            &&& refresh.exp == now + 86_400 * settings.refresh_max_age
            &&& access.well_formed() && refresh.well_formed()
            &&& access.exp < refresh.exp
        }),
{
}

/// A login that fails issues nothing: without a user that the lookup found
/// and a password that the user's credential hash accepts, the step is a
/// refusal with the kind of the failure, at every time, under every secret
/// and with all settings. A step that records a login names the user that
/// was found.
pub proof fn lemma_failed_login_issues_nothing(
    password: Seq<char>,
    found: Result<Option<AuthUser>, ErrorCode>,
    settings: JwtSettingsView,
    secret: Seq<char>,
    now: int,
)
    ensures
        found matches Err(code) ==> login_spec(password, found, settings, secret, now)
            == LoginStepView::Reject(code),
        found matches Ok(None) ==> login_spec(password, found, settings, secret, now)
            == LoginStepView::Reject(ErrorCode::AUTH001),
        found matches Ok(Some(user)) && !password_matches(password, user@.password) ==> login_spec(
            password,
            found,
            settings,
            secret,
            now,
        ) == LoginStepView::Reject(ErrorCode::AUTH002),
        login_spec(password, found, settings, secret, now) matches LoginStepView::RecordLogin {
            user_id,
            ..
        } ==> found matches Ok(Some(user)) && user.id == user_id && password_matches(
            password,
            user@.password,
        ),
{
}

/// The access token minted from the refresh token of a login carries the
/// subject and the role of that login's access token, whenever the refresh
/// is made. It expires strictly later than that access token was issued
/// exactly when the refresh is made less than an access lifetime before the
/// login by the clock, so in particular whenever the clock has not gone back.
pub proof fn lemma_refresh_after_login(
    user: AuthUserView,
    settings: JwtSettingsView,
    login_time: int,
    refresh_time: int,
)
    requires
        session_claims_spec(user, true, settings, login_time) is Ok,
        renewed_claims_spec(
            Some(session_claims_spec(user, true, settings, login_time).unwrap().1),
            settings,
            refresh_time,
        ) is Ok,
    ensures
        ({
            let (access, refresh) = session_claims_spec(user, true, settings, login_time).unwrap();
            let renewed = renewed_claims_spec(Some(refresh), settings, refresh_time).unwrap();
            &&& renewed.sub == access.sub
            &&& renewed.role == access.role
            &&& renewed.iat == refresh_time
            &&& renewed.exp == refresh_time + settings.access_lifetime()
            &&& renewed.well_formed()
            &&& refresh_time <= refresh.exp
            &&& renewed.exp > access.iat <==> refresh_time + settings.access_lifetime()
                > login_time
            &&& login_time <= refresh_time ==> renewed.exp > access.iat
        }),
{
}

/// A refresh token is good up to its own expiry and no longer: a refresh
/// succeeds only at a time that does not exceed the expiry of the token
/// presented, and one that is refused for the token at one time is refused
/// at every later time.
pub proof fn lemma_refresh_token_expires(
    verified: Option<ClaimsView>,
    settings: JwtSettingsView,
    earlier: int,
    later: int,
)
    requires
        earlier <= later,
    ensures
        renewed_claims_spec(verified, settings, later) is Ok ==> verified is Some && later
            <= verified.unwrap().exp,
        renewed_claims_spec(verified, settings, earlier) == Err::<ClaimsView, ErrorCode>(
            ErrorCode::AUTH003,
        ) ==> renewed_claims_spec(verified, settings, later) == Err::<ClaimsView, ErrorCode>(
            ErrorCode::AUTH003,
        ),
{
}

/// A password that the credential hash of the user accepts is never refused
/// as a wrong password. Where a claim set with the refresh lifetime can be
/// minted, the login is the signing of two claim sets, both for the canonical
/// text of the user's id and the user's role and both issued at `now`; where
/// both are signed it is the step that records the login of that user with
/// the two tokens.
pub proof fn lemma_accepted_password_logs_in(
    password: Seq<char>,
    user: AuthUser,
    settings: JwtSettingsView,
    secret: Seq<char>,
    now: int,
)
    ensures
        password_matches(password, user@.password) ==> login_spec(
            password,
            found_user(user),
            settings,
            secret,
            now,
        ) != LoginStepView::Reject(ErrorCode::AUTH002),
        password_matches(password, user@.password) && can_mint(
            settings,
            now,
            settings.refresh_lifetime(),
        ) ==> ({
            let access = ClaimsView {
                sub: uuid_text(user.id),
                role: user@.role,
                iat: now as nat,
                exp: (now + settings.access_lifetime()) as nat,
            };
            let refresh = ClaimsView {
                sub: uuid_text(user.id),
                role: user@.role,
                iat: now as nat,
                exp: (now + settings.refresh_lifetime()) as nat,
            };
            let step = login_spec(password, found_user(user), settings, secret, now);
            &&& step == signed_session(user.id, access, refresh, secret)
            &&& encode_spec(access, secret) is Ok && encode_spec(refresh, secret) is Ok ==> step
                == (LoginStepView::RecordLogin {
                user_id: user.id,
                access_token: encode_spec(access, secret).unwrap(),
                refresh_token: encode_spec(refresh, secret).unwrap(),
            })
        }),
{
}

/// The tokens of a login that succeeded are the signed forms of the two
/// claim sets of that login: the access token of one for the canonical text
/// of the user's id and the user's role, the refresh token of one with the
/// same subject and role. The user whose login is to be recorded is the one
/// that the lookup found, and the password was accepted.
pub proof fn lemma_login_tokens(
    password: Seq<char>,
    user: AuthUser,
    settings: JwtSettingsView,
    secret: Seq<char>,
    now: int,
)
    ensures
        login_spec(password, found_user(user), settings, secret, now)
            matches LoginStepView::RecordLogin { user_id, access_token, refresh_token } ==> ({
            let claims = session_claims_spec(user@, true, settings, now);
            &&& user_id == user.id
            &&& password_matches(password, user@.password)
            &&& can_mint(settings, now, settings.refresh_lifetime())
            &&& claims is Ok
            &&& encode_spec(claims.unwrap().0, secret) == Ok::<Seq<char>, ErrorCode>(access_token)
            &&& encode_spec(claims.unwrap().1, secret) == Ok::<Seq<char>, ErrorCode>(refresh_token)
            &&& claims.unwrap().0.sub == uuid_text(user.id)
            &&& claims.unwrap().0.role == user@.role
            &&& claims.unwrap().1.sub == claims.unwrap().0.sub
            &&& claims.unwrap().1.role == claims.unwrap().0.role
        }),
{
}

/// A refresh with a token that carries a claim set which has not expired
/// gives the signed form of a claim set with the same subject and role,
/// issued at `now` and expiring an access lifetime later, wherever such a
/// claim set can be minted. If the token that it gives is read back to the
/// JSON object that was signed, which is for the signing library to see to,
/// it decodes at `now` to that claim set, equal on subject, role and expiry.
pub proof fn lemma_refresh_of_valid_token(
    refresh_token: Seq<char>,
    presented: ClaimsView,
    settings: JwtSettingsView,
    secret: Seq<char>,
    now: int,
    access_token: Seq<char>,
)
    ensures
        verified_claims(refresh_token, secret) == Some(presented) && now <= presented.exp
            && can_mint(settings, now, settings.access_lifetime()) ==> ({
            let renewed = ClaimsView {
                sub: presented.sub,
                role: presented.role,
                iat: now as nat,
                exp: (now + settings.access_lifetime()) as nat,
            };
            &&& refresh_spec(refresh_token, settings, secret, now) == encode_spec(renewed, secret)
            &&& now < renewed.exp
            &&& verified_payload(access_token, secret) == Some(payload_of(renewed)) ==> decode_spec(
                access_token,
                secret,
                now,
            ) == Ok::<ClaimsView, ErrorCode>(renewed)
        }),
{
    let renewed = ClaimsView {
        sub: presented.sub,
        role: presented.role,
        iat: now as nat,
        exp: (now + settings.access_lifetime()) as nat,
    };
    lemma_payload_round_trip(renewed);
}

/// Refreshing with the refresh token of a login, at a time from the login to
/// the expiry of that token, gives the signed form of a claim set with the
/// subject and the role of the login, issued at the time of the refresh and
/// expiring an access lifetime later, which is strictly later than the
/// login's access token was issued. This holds if the refresh token is read
/// back to the JSON object that was signed, which is for the signing library
/// to see to, and if the new expiry fits a token.
pub proof fn lemma_refresh_of_login_token(
    password: Seq<char>,
    user: AuthUser,
    settings: JwtSettingsView,
    secret: Seq<char>,
    login_time: int,
    refresh_time: int,
)
    ensures
        login_spec(password, found_user(user), settings, secret, login_time)
            matches LoginStepView::RecordLogin { refresh_token, .. } ==> ({
            let (access, refresh) = session_claims_spec(user@, true, settings, login_time).unwrap();
            let renewed = ClaimsView {
                sub: uuid_text(user.id),
                role: user@.role,
                iat: refresh_time as nat,
                exp: (refresh_time + settings.access_lifetime()) as nat,
            };
            verified_payload(refresh_token, secret) == Some(payload_of(refresh)) && login_time
                <= refresh_time <= refresh.exp && refresh_time + settings.access_lifetime()
                <= u64::MAX ==> {
                &&& refresh_spec(refresh_token, settings, secret, refresh_time) == encode_spec(
                    renewed,
                    secret,
                )
                &&& renewed.sub == access.sub && renewed.role == access.role
                &&& access.iat == login_time
                &&& renewed.exp > access.iat
            }
        }),
{
    let found = found_user(user);
    if login_spec(password, found, settings, secret, login_time) is RecordLogin {
        let (access, refresh) = session_claims_spec(user@, true, settings, login_time).unwrap();
        lemma_payload_round_trip(refresh);
    }
}

} // verus!
