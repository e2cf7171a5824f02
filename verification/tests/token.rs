use backend::model::response::ErrorCode;
use backend::service::token::{enforce_expiry, TokenClaims, TokenCodec};
use jsonwebtoken::{Algorithm, EncodingKey, Header};
use serde_json::{Number, Value};
use std::time::{SystemTime, UNIX_EPOCH};

const SECRET: &str = "secret";

fn unix_time() -> u64 {
    SystemTime::now().duration_since(UNIX_EPOCH).unwrap().as_secs()
}

fn claims(sub: &str, role: &str, iat: u64, exp: u64) -> TokenClaims {
    TokenClaims { sub: sub.to_string(), role: role.to_string(), iat, exp }
}

/// A token that `jsonwebtoken` signs over `payload`, under the default header.
fn sign(payload: &serde_json::Map<String, Value>, secret: &str) -> String {
    jsonwebtoken::encode(&Header::default(), payload, &EncodingKey::from_secret(secret.as_bytes()))
        .unwrap()
}

fn payload(sub: Value, role: Value, iat: Value, exp: Value) -> serde_json::Map<String, Value> {
    let mut object = serde_json::Map::new();
    object.insert("sub".to_string(), sub);
    object.insert("role".to_string(), role);
    object.insert("iat".to_string(), iat);
    object.insert("exp".to_string(), exp);
    object
}

fn text(s: &str) -> Value {
    Value::String(s.to_string())
}

fn number(n: u64) -> Value {
    Value::Number(Number::from(n))
}

#[test]
fn encode_gives_the_hs256_token_of_the_claim_object() {
    let codec = TokenCodec::new(SECRET);
    let token = codec
        .encode(&claims("a1a2a3a4-b1b2-c1c2-d1d2-d3d4d5d6d7d8", "user", 1_700_000_000, 1_700_000_900))
        .unwrap();
    assert_eq!(
        token,
        "eyJ0eXAiOiJKV1QiLCJhbGciOiJIUzI1NiJ9.\
         eyJleHAiOjE3MDAwMDA5MDAsImlhdCI6MTcwMDAwMDAwMCwicm9sZSI6InVzZXIiLCJzdWIiOiJhMWEyYTNhNC1iMWIyLWMxYzItZDFkMi1kM2Q0ZDVkNmQ3ZDgifQ.\
         I2W8EmzeBBa6VzBDHtNfovzJP6t2CFkt2WgNfQmuG-E"
    );
}

#[test]
fn encode_is_deterministic() {
    let codec = TokenCodec::new(SECRET);
    let value = claims("alice", "admin", 10, 20);
    assert_eq!(codec.encode(&value), codec.encode(&value.clone()));
}

#[test]
fn encode_depends_on_every_claim_and_on_the_secret() {
    let codec = TokenCodec::new(SECRET);
    let base = codec.encode(&claims("alice", "user", 10, 20)).unwrap();
    assert_ne!(base, codec.encode(&claims("alicf", "user", 10, 20)).unwrap());
    assert_ne!(base, codec.encode(&claims("alice", "admin", 10, 20)).unwrap());
    assert_ne!(base, codec.encode(&claims("alice", "user", 11, 20)).unwrap());
    assert_ne!(base, codec.encode(&claims("alice", "user", 10, 21)).unwrap());
    assert_ne!(base, TokenCodec::new("secres").encode(&claims("alice", "user", 10, 20)).unwrap());
}

#[test]
fn round_trip_returns_the_claims() {
    let codec = TokenCodec::new(SECRET);
    let value = claims("a1a2a3a4-b1b2-c1c2-d1d2-d3d4d5d6d7d8", "admin", 1_700_000_000, 1_700_003_600);
    let token = codec.encode(&value).unwrap();
    let decoded = codec.decode_at(&token, 1_700_000_001).unwrap();
    assert_eq!(decoded.sub, value.sub);
    assert_eq!(decoded.role, value.role);
    assert_eq!(decoded.exp, value.exp);
    assert_eq!(decoded, value);
}

#[test]
fn round_trip_keeps_text_that_json_escapes() {
    let codec = TokenCodec::new("a \"quoted\" secret\n");
    let value = claims("sub \"with\" \\ and \u{1F600} and \n", "rôle\t", 0, u64::MAX);
    let token = codec.encode(&value).unwrap();
    assert_eq!(codec.decode_at(&token, 5), Ok(value));
}

#[test]
fn round_trip_with_the_extreme_times() {
    let codec = TokenCodec::new("");
    for value in [
        claims("", "", 0, 0),
        claims("x", "y", u64::MAX, u64::MAX),
        claims("x", "y", u64::MAX, 0),
        claims("x", "y", 0, i64::MAX as u64),
    ] {
        let token = codec.encode(&value).unwrap();
        assert_eq!(codec.decode_at(&token, 0), Ok(value.clone()));
        assert_eq!(codec.decode_at(&token, i64::MIN), Ok(value));
    }
}

#[test]
fn a_token_that_expires_in_an_hour_decodes() {
    let codec = TokenCodec::new(SECRET);
    let now = unix_time();
    let value = claims("alice", "user", now, now + 3600);
    let token = codec.encode(&value).unwrap();
    assert_eq!(codec.decode(&token), Ok(value));
}

#[test]
fn a_token_that_expired_a_second_ago_is_refused() {
    let codec = TokenCodec::new(SECRET);
    let now = unix_time();
    let token = codec.encode(&claims("alice", "user", now - 3600, now - 1)).unwrap();
    assert_eq!(codec.decode(&token), Err(ErrorCode::AUTH003));
}

#[test]
fn expiry_is_compared_to_the_second() {
    let codec = TokenCodec::new(SECRET);
    let value = claims("alice", "user", 1_000, 2_000);
    let token = codec.encode(&value).unwrap();
    assert_eq!(codec.decode_at(&token, 1_999), Ok(value.clone()));
    assert_eq!(codec.decode_at(&token, 2_000), Ok(value.clone()));
    assert_eq!(codec.decode_at(&token, 2_001), Err(ErrorCode::AUTH003));
    assert_eq!(codec.decode_at(&token, 2_060), Err(ErrorCode::AUTH003));
    assert_eq!(codec.decode_at(&token, i64::MAX), Err(ErrorCode::AUTH003));
    assert_eq!(codec.decode_at(&token, 0), Ok(value.clone()));
    assert_eq!(codec.decode_at(&token, -1), Ok(value));
}

#[test]
fn a_token_is_not_refused_for_being_issued_in_the_future() {
    let codec = TokenCodec::new(SECRET);
    let value = claims("alice", "user", 5_000, 6_000);
    let token = codec.encode(&value).unwrap();
    assert_eq!(codec.decode_at(&token, 10), Ok(value));
}

#[test]
fn a_token_under_another_secret_is_refused() {
    let token = TokenCodec::new("other").encode(&claims("alice", "user", 10, 20)).unwrap();
    assert_eq!(TokenCodec::new(SECRET).decode_at(&token, 15), Err(ErrorCode::AUTH003));
}

#[test]
fn a_tampered_token_is_refused() {
    let codec = TokenCodec::new(SECRET);
    let token = codec.encode(&claims("alice", "user", 10, 20)).unwrap();
    let parts: Vec<&str> = token.split('.').collect();
    assert_eq!(parts.len(), 3);
    let forged_payload = sign(&payload(text("alice"), text("admin"), number(10), number(20)), "x");
    let forged_payload = forged_payload.split('.').nth(1).unwrap().to_string();
    let forged = format!("{}.{}.{}", parts[0], forged_payload, parts[2]);
    assert_eq!(codec.decode_at(&forged, 15), Err(ErrorCode::AUTH003));
    let mut flipped = token.clone();
    let last = flipped.pop().unwrap();
    flipped.push(if last == 'A' { 'B' } else { 'A' });
    assert_eq!(codec.decode_at(&flipped, 15), Err(ErrorCode::AUTH003));
    let unsigned = format!("{}.{}.", parts[0], parts[1]);
    assert_eq!(codec.decode_at(&unsigned, 15), Err(ErrorCode::AUTH003));
}

#[test]
fn text_that_is_no_token_is_refused() {
    let codec = TokenCodec::new(SECRET);
    for token in ["", ".", "..", "...", "abc", "a.b", "a.b.c", "a.b.c.d", "\u{0}", "e30.e30.e30"] {
        assert_eq!(codec.decode_at(token, 0), Err(ErrorCode::AUTH003), "accepted {:?}", token);
        assert_eq!(codec.decode(token), Err(ErrorCode::AUTH003), "accepted {:?}", token);
    }
}

#[test]
fn a_token_signed_with_another_algorithm_is_refused() {
    let token = jsonwebtoken::encode(
        &Header::new(Algorithm::HS512),
        &payload(text("alice"), text("user"), number(10), number(20)),
        &EncodingKey::from_secret(SECRET.as_bytes()),
    )
    .unwrap();
    assert_eq!(TokenCodec::new(SECRET).decode_at(&token, 15), Err(ErrorCode::AUTH003));
}

#[test]
fn a_payload_that_lacks_a_claim_is_refused() {
    let codec = TokenCodec::new(SECRET);
    for missing in ["sub", "role", "iat", "exp"] {
        let mut object = payload(text("alice"), text("user"), number(10), number(20));
        object.remove(missing);
        let token = sign(&object, SECRET);
        assert_eq!(codec.decode_at(&token, 15), Err(ErrorCode::AUTH003), "without {}", missing);
    }
    assert_eq!(codec.decode_at(&sign(&serde_json::Map::new(), SECRET), 15), Err(ErrorCode::AUTH003));
}

#[test]
fn a_claim_of_the_wrong_type_is_refused() {
    let codec = TokenCodec::new(SECRET);
    let wrong = [
        payload(number(7), text("user"), number(10), number(20)),
        payload(Value::Null, text("user"), number(10), number(20)),
        payload(text("alice"), Value::Bool(true), number(10), number(20)),
        payload(text("alice"), Value::Array(vec![text("user")]), number(10), number(20)),
        payload(text("alice"), text("user"), text("10"), number(20)),
        payload(text("alice"), text("user"), Value::Number(Number::from(-10i64)), number(20)),
        payload(text("alice"), text("user"), Value::Number(Number::from_f64(10.5).unwrap()), number(20)),
        payload(text("alice"), text("user"), number(10), text("20")),
        payload(text("alice"), text("user"), number(10), Value::Number(Number::from_f64(20.0).unwrap())),
        payload(text("alice"), text("user"), number(10), Value::Number(Number::from(-20i64))),
        payload(text("alice"), text("user"), number(10), Value::Null),
    ];
    for object in wrong {
        let token = sign(&object, SECRET);
        assert_eq!(
            codec.decode_at(&token, 15),
            Err(ErrorCode::AUTH003),
            "accepted {:?}",
            Value::Object(object)
        );
    }
}

#[test]
fn further_members_of_the_payload_are_ignored() {
    let codec = TokenCodec::new(SECRET);
    let mut object = payload(text("alice"), text("user"), number(10), number(20));
    object.insert("jti".to_string(), text("7"));
    object.insert("nbf".to_string(), number(1_000_000));
    object.insert("extra".to_string(), Value::Array(vec![Value::Null]));
    let token = sign(&object, SECRET);
    assert_eq!(codec.decode_at(&token, 15), Ok(claims("alice", "user", 10, 20)));
}

#[test]
fn decode_reads_a_token_that_was_made_elsewhere() {
    // Signed over {"sub":"alice","role":"user","iat":10,"exp":20} in this
    // order of the keys, which is not the one that encode writes.
    let token = "eyJhbGciOiJIUzI1NiIsInR5cCI6IkpXVCJ9.\
                 eyJzdWIiOiJhbGljZSIsInJvbGUiOiJ1c2VyIiwiaWF0IjoxMCwiZXhwIjoyMH0.\
                 t8rEydEhbxqRrpYzET-4GoatsI2tC7JjKahRP3yWZe4";
    let codec = TokenCodec::new(SECRET);
    assert_eq!(codec.decode_at(token, 20), Ok(claims("alice", "user", 10, 20)));
    assert_eq!(codec.decode_at(token, 21), Err(ErrorCode::AUTH003));
}

#[test]
fn the_payload_of_a_claim_set_has_its_four_members() {
    let object = claims("alice", "user", 10, 20).to_payload();
    assert_eq!(object, payload(text("alice"), text("user"), number(10), number(20)));
    assert_eq!(
        serde_json::to_string(&object).unwrap(),
        r#"{"exp":20,"iat":10,"role":"user","sub":"alice"}"#
    );
}

#[test]
fn a_claim_set_is_read_back_from_its_payload() {
    for value in [claims("alice", "user", 10, 20), claims("", "", 0, 0), claims("ü", "\"", u64::MAX, 1)] {
        assert_eq!(TokenClaims::from_payload(&value.to_payload()), Some(value));
    }
}

#[test]
fn a_payload_with_a_claim_of_another_type_holds_no_claim_set() {
    assert_eq!(TokenClaims::from_payload(&serde_json::Map::new()), None);
    assert_eq!(
        TokenClaims::from_payload(&payload(text("alice"), text("user"), number(10), text("20"))),
        None
    );
    assert_eq!(
        TokenClaims::from_payload(&payload(text("alice"), number(1), number(10), number(20))),
        None
    );
    assert_eq!(
        TokenClaims::from_payload(&payload(
            text("alice"),
            text("user"),
            Value::Number(Number::from(-1i64)),
            number(20)
        )),
        None
    );
    assert_eq!(
        TokenClaims::from_payload(&payload(
            text("alice"),
            text("user"),
            number(10),
            Value::Number(Number::from_f64(20.0).unwrap())
        )),
        None
    );
    let mut without_sub = payload(text("alice"), text("user"), number(10), number(20));
    without_sub.remove("sub");
    assert_eq!(TokenClaims::from_payload(&without_sub), None);
}

#[test]
fn a_claim_set_expires_after_its_last_second() {
    let value = claims("alice", "user", 10, 20);
    assert!(!value.expired_at(i64::MIN));
    assert!(!value.expired_at(-1));
    assert!(!value.expired_at(0));
    assert!(!value.expired_at(19));
    assert!(!value.expired_at(20));
    assert!(value.expired_at(21));
    assert!(value.expired_at(i64::MAX));
    assert!(!claims("alice", "user", 10, u64::MAX).expired_at(i64::MAX));
    assert!(!claims("alice", "user", 10, i64::MAX as u64).expired_at(i64::MAX));
    assert!(claims("alice", "user", 10, i64::MAX as u64 - 1).expired_at(i64::MAX));
    assert!(claims("alice", "user", 0, 0).expired_at(1));
    assert!(!claims("alice", "user", 0, 0).expired_at(0));
}

#[test]
fn the_expiry_is_enforced_without_leeway() {
    let value = claims("alice", "user", 10, 20);
    assert_eq!(enforce_expiry(Some(value.clone()), 20), Ok(value.clone()));
    assert_eq!(enforce_expiry(Some(value.clone()), 21), Err(ErrorCode::AUTH003));
    assert_eq!(enforce_expiry(Some(value), 80), Err(ErrorCode::AUTH003));
    assert_eq!(enforce_expiry(None, 0), Err(ErrorCode::AUTH003));
}

#[test]
fn an_expired_token_is_still_authentic() {
    let codec = TokenCodec::new(SECRET);
    let value = claims("alice", "user", 10, 20);
    let token = codec.encode(&value).unwrap();
    assert_eq!(codec.authenticate(&token), Some(value));
    assert_eq!(codec.authenticate("garbage"), None);
    assert_eq!(TokenCodec::new("other").authenticate(&token), None);
}
