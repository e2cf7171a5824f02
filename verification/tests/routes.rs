use backend::config::JwtSettings;
use backend::domain::user::{Fetched, UserResponse};
use backend::model::response::{Body, Cookie, ErrorCode, Reply, SameSite};
use backend::route::auth::{
    answer_refresh, login_handler, logout_handler, profile_handler, refresh_token_handler,
    refresh_token_handler_at, register_user_handler,
};
use backend::service::token::{TokenClaims, TokenCodec};

const SECRET: &str = "a signing secret";

fn settings() -> JwtSettings {
    JwtSettings {
        cookie_name: "token".to_string(),
        cookie_domain: "example.com".to_string(),
        max_age: 15,
        refresh_max_age: 7,
    }
}

fn cookie(name: &str, value: &str) -> Cookie {
    Cookie {
        name: name.to_string(),
        value: value.to_string(),
        path: "/".to_string(),
        domain: "example.com".to_string(),
        http_only: true,
        secure: false,
        same_site: SameSite::Lax,
    }
}

fn profile() -> UserResponse {
    UserResponse {
        id: 0x67e55044_10b1_426f_9247_bb680e5fe0c8,
        username: "alice".to_string(),
        email: "alice@example.com".to_string(),
        role: "user".to_string(),
        created_at: 1_700_000_000_000_000,
    }
}

fn failure(status: u16, code: ErrorCode) -> Reply {
    Reply { status, cookies: vec![], body: Body::Error(code) }
}

#[test]
fn every_kind_has_its_status() {
    assert_eq!(ErrorCode::AUTH001.status(), 404);
    assert_eq!(ErrorCode::AUTH002.status(), 400);
    assert_eq!(ErrorCode::AUTH003.status(), 500);
    assert_eq!(ErrorCode::REG001.status(), 409);
    assert_eq!(ErrorCode::REG002.status(), 409);
    assert_eq!(ErrorCode::INTERNAL001.status(), 500);
}

#[test]
fn the_answer_to_a_failure_holds_the_kind_only() {
    assert_eq!(Reply::error(ErrorCode::AUTH001), failure(404, ErrorCode::AUTH001));
    assert_eq!(Reply::error(ErrorCode::REG002), failure(409, ErrorCode::REG002));
}

#[test]
fn login_sets_both_cookies() {
    let reply = login_handler(Ok(("access".to_string(), "refresh".to_string())), &settings());
    assert_eq!(
        reply,
        Reply {
            status: 200,
            cookies: vec![cookie("token", "access"), cookie("refresh_token", "refresh")],
            body: Body::Token("access".to_string()),
        }
    );
}

#[test]
fn login_failures_have_their_status() {
    assert_eq!(login_handler(Err(ErrorCode::AUTH001), &settings()), failure(404, ErrorCode::AUTH001));
    assert_eq!(login_handler(Err(ErrorCode::AUTH002), &settings()), failure(400, ErrorCode::AUTH002));
    assert_eq!(
        login_handler(Err(ErrorCode::INTERNAL001), &settings()),
        failure(500, ErrorCode::INTERNAL001)
    );
}

#[test]
fn refresh_without_the_cookie_is_unauthorized() {
    let codec = TokenCodec::new(SECRET);
    let expected = Reply {
        status: 401,
        cookies: vec![],
        body: Body::Message("Refresh token not found".to_string()),
    };
    assert_eq!(refresh_token_handler(None, &settings(), &codec), expected);
    assert_eq!(refresh_token_handler_at(None, &settings(), &codec, 0), expected);
}

#[test]
fn refresh_answers_with_the_new_access_token() {
    let codec = TokenCodec::new(SECRET);
    let presented = codec
        .encode(&TokenClaims { sub: "alice".to_string(), role: "user".to_string(), iat: 100, exp: 1_000 })
        .unwrap();
    let expected_token = codec
        .encode(&TokenClaims { sub: "alice".to_string(), role: "user".to_string(), iat: 500, exp: 1_400 })
        .unwrap();
    let reply = refresh_token_handler_at(Some(presented), &settings(), &codec, 500);
    assert_eq!(
        reply,
        Reply {
            status: 200,
            cookies: vec![cookie("token", &expected_token)],
            body: Body::Token(expected_token),
        }
    );
}

#[test]
fn refresh_by_the_clock_answers_with_a_token_for_the_same_subject() {
    let codec = TokenCodec::new(SECRET);
    let presented = codec
        .encode(&TokenClaims {
            sub: "alice".to_string(),
            role: "user".to_string(),
            iat: 100,
            exp: u64::MAX,
        })
        .unwrap();
    let reply = refresh_token_handler(Some(presented), &settings(), &codec);
    assert_eq!(reply.status, 200);
    let token = match reply.body {
        Body::Token(token) => token,
        other => panic!("no token in {:?}", other),
    };
    assert_eq!(reply.cookies, vec![cookie("token", &token)]);
    let renewed = codec.decode(&token).unwrap();
    assert_eq!((renewed.sub.as_str(), renewed.role.as_str()), ("alice", "user"));
    assert_eq!(renewed.exp, renewed.iat + 900);
}

#[test]
fn refresh_with_a_token_that_is_not_valid_is_a_server_error() {
    let codec = TokenCodec::new(SECRET);
    let expired = codec
        .encode(&TokenClaims { sub: "alice".to_string(), role: "user".to_string(), iat: 100, exp: 1_000 })
        .unwrap();
    let expected = failure(500, ErrorCode::AUTH003);
    assert_eq!(refresh_token_handler_at(Some(expired.clone()), &settings(), &codec, 1_001), expected);
    assert_eq!(refresh_token_handler(Some(expired), &settings(), &codec), expected);
    assert_eq!(refresh_token_handler(Some("garbage".to_string()), &settings(), &codec), expected);
    assert_eq!(refresh_token_handler(Some(String::new()), &settings(), &codec), expected);
}

#[test]
fn logout_clears_both_cookies() {
    assert_eq!(
        logout_handler(&settings()),
        Reply {
            status: 204,
            cookies: vec![cookie("token", ""), cookie("refresh_token", "")],
            body: Body::Empty,
        }
    );
}

#[test]
fn logout_twice_answers_the_same() {
    let s = settings();
    let first = logout_handler(&s);
    let second = logout_handler(&s);
    assert_eq!(first, second);
    assert_eq!(s.cookie_name, "token");
    assert_eq!(s.max_age, 15);
}

#[test]
fn logout_depends_on_the_cookie_settings_only() {
    let mut other = settings();
    other.max_age = 1;
    other.refresh_max_age = 1_000;
    assert_eq!(logout_handler(&settings()), logout_handler(&other));
    other.cookie_domain = "example.org".to_string();
    assert_ne!(logout_handler(&settings()), logout_handler(&other));
}

#[test]
fn profile_shows_the_user() {
    assert_eq!(
        profile_handler(Ok(profile())),
        Reply { status: 200, cookies: vec![], body: Body::User(profile()) }
    );
}

#[test]
fn profile_that_could_not_be_had_is_a_server_error() {
    assert_eq!(profile_handler(Err(ErrorCode::INTERNAL001)), failure(500, ErrorCode::INTERNAL001));
}

#[test]
fn profile_that_is_not_found_is_a_server_error_too() {
    let found = UserResponse::find_by_id(Fetched::NoRow);
    assert_eq!(found, Err(ErrorCode::AUTH001));
    assert_eq!(profile_handler(found), failure(500, ErrorCode::INTERNAL001));
    for code in [ErrorCode::AUTH002, ErrorCode::AUTH003, ErrorCode::REG001, ErrorCode::REG002] {
        assert_eq!(profile_handler(Err(code)), failure(500, ErrorCode::INTERNAL001));
    }
}

#[test]
fn registration_shows_the_created_user() {
    assert_eq!(
        register_user_handler(Ok(profile())),
        Reply { status: 200, cookies: vec![], body: Body::User(profile()) }
    );
}

#[test]
fn registration_conflicts_have_status_409() {
    assert_eq!(register_user_handler(Err(ErrorCode::REG001)), failure(409, ErrorCode::REG001));
    assert_eq!(register_user_handler(Err(ErrorCode::REG002)), failure(409, ErrorCode::REG002));
    assert_eq!(
        register_user_handler(Err(ErrorCode::INTERNAL001)),
        failure(500, ErrorCode::INTERNAL001)
    );
}

#[test]
fn every_kind_has_its_name() {
    assert_eq!(ErrorCode::AUTH001.kind(), "user-not-found");
    assert_eq!(ErrorCode::AUTH002.kind(), "bad-credential");
    assert_eq!(ErrorCode::AUTH003.kind(), "invalid-refresh-token");
    assert_eq!(ErrorCode::REG001.kind(), "username-conflict");
    assert_eq!(ErrorCode::REG002.kind(), "email-conflict");
    assert_eq!(ErrorCode::INTERNAL001.kind(), "internal");
}

#[test]
fn the_answer_to_a_refresh_follows_what_the_refresh_gave() {
    assert_eq!(
        answer_refresh(Some(Ok("fresh".to_string())), &settings()),
        Reply {
            status: 200,
            cookies: vec![cookie("token", "fresh")],
            body: Body::Token("fresh".to_string()),
        }
    );
    assert_eq!(
        answer_refresh(Some(Err(ErrorCode::AUTH003)), &settings()),
        failure(500, ErrorCode::AUTH003)
    );
    assert_eq!(
        answer_refresh(Some(Err(ErrorCode::INTERNAL001)), &settings()),
        failure(500, ErrorCode::INTERNAL001)
    );
    assert_eq!(
        answer_refresh(None, &settings()),
        Reply {
            status: 401,
            cookies: vec![],
            body: Body::Message("Refresh token not found".to_string()),
        }
    );
}

#[test]
fn the_cookies_are_set_for_the_configured_name_and_domain() {
    let s = JwtSettings {
        cookie_name: "session".to_string(),
        cookie_domain: "auth.example.org".to_string(),
        max_age: 15,
        refresh_max_age: 7,
    };
    let reply = login_handler(Ok(("a".to_string(), "r".to_string())), &s);
    let names: Vec<&str> = reply.cookies.iter().map(|c| c.name.as_str()).collect();
    assert_eq!(names, vec!["session", "refresh_token"]);
    for c in &reply.cookies {
        assert_eq!(c.domain, "auth.example.org");
        assert_eq!(c.path, "/");
        assert!(c.http_only);
        assert!(!c.secure);
        assert_eq!(c.same_site, SameSite::Lax);
    }
}
