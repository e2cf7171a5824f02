//! Signed session tokens: the claim set, its JSON payload, and the codec.
//!
//! A token is a JSON Web Token signed with HMAC-SHA256 under one shared
//! secret. Signing and signature checking are done by `jsonwebtoken`; what a
//! claim set looks like as a JSON object, which payloads are claim sets, and
//! when a claim set has expired are decided here.

use vstd::prelude::*;
use serde_json::Value;
use crate::model::response::ErrorCode;
use crate::service::clock::unix_now;

verus! {

/// `serde_json::Value`, one JSON value.
#[verifier::external_type_specification]
#[verifier::external_body]
pub struct ExJsonValue(serde_json::Value);

/// `serde_json::Map`, the members of one JSON object.
#[verifier::external_type_specification]
#[verifier::external_body]
#[verifier::reject_recursive_types(K)]
#[verifier::reject_recursive_types(V)]
pub struct ExJsonMap<K, V>(serde_json::Map<K, V>);

/// `jsonwebtoken::errors::Error`, the failure of an encode or a decode.
#[verifier::external_type_specification]
#[verifier::external_body]
pub struct ExJwtError(jsonwebtoken::errors::Error);

/// What one member of a JSON object holds, as far as a claim set needs it.
pub enum Member {
    /// A JSON string.
    Text(Seq<char>),
    /// A JSON number that is an integer from 0 to `u64::MAX`.
    Number(nat),
    /// Any other JSON value.
    Other,
}

/// The payload of a token: the members of its JSON object, by key.
pub type Payload = Map<Seq<char>, Member>;

/// The members of a JSON object, by key.
pub uninterp spec fn members(object: serde_json::Map<String, Value>) -> Payload;

/// The token that `jsonwebtoken` makes of a payload under a secret, if it
/// makes one.
pub uninterp spec fn signed_token(payload: Payload, secret: Seq<char>) -> Option<Seq<char>>;

/// The payload that `jsonwebtoken` reads from a token whose signature it
/// accepts under a secret. `None` for every token that it rejects. The expiry
/// claim is not looked at.
pub uninterp spec fn verified_payload(token: Seq<char>, secret: Seq<char>) -> Option<Payload>;

/// The member `key`, where the payload has one that is a string or an
/// unsigned integer.
pub open spec fn plain_at(payload: Payload, key: Seq<char>) -> Option<Member> {
    if payload.contains_key(key) && !(payload[key] is Other) {
        Some(payload[key])
    } else {
        None
    }
}

/// The text of the member `key`, where the payload has one that is a string.
pub open spec fn text_at(payload: Payload, key: Seq<char>) -> Option<Seq<char>> {
    match plain_at(payload, key) {
        Some(Member::Text(text)) => Some(text),
        _ => None,
    }
}

/// The number of the member `key`, where the payload has one that is an
/// unsigned integer.
pub open spec fn number_at(payload: Payload, key: Seq<char>) -> Option<nat> {
    match plain_at(payload, key) {
        Some(Member::Number(number)) => Some(number),
        _ => None,
    }
}

/// Every member is a string or an unsigned integer.
pub open spec fn is_flat(payload: Payload) -> bool {
    forall|key: Seq<char>| #[trigger]
        payload.contains_key(key) ==> !(payload[key] is Other)
}

/// A value that a claim holds.
enum Field {
    Text(String),
    Number(u64),
}

impl View for Field {
    type V = Member;

    closed spec fn view(&self) -> Member {
        match *self {
            Field::Text(text) => Member::Text(text@),
            Field::Number(number) => Member::Number(number as nat),
        }
    }
}

/// `serde_json::Map::new`: an object without members.
#[verifier::external_body]
fn payload_new() -> (object: serde_json::Map<String, Value>)
    ensures
        members(object) == Payload::empty(),
{
    serde_json::Map::new()
}

/// `serde_json::Map::insert` with the JSON string or the JSON number that is
/// made of the field: the member `key` becomes that value, whatever it held
/// before, and no other member changes.
#[verifier::external_body]
fn payload_put(object: &mut serde_json::Map<String, Value>, key: &str, field: Field)
    ensures
        members(*final(object)) == members(*old(object)).insert(key@, field@),
{
    let value = match field {
        Field::Text(text) => Value::String(text),
        Field::Number(number) => Value::from(number),
    };
    object.insert(key.to_owned(), value);
}

/// `serde_json::Map::get`: the member `key` if the object has it and it is a
/// JSON string or an integer from 0 to `u64::MAX`, which `Number::as_u64`
/// tells. `None` if the object has no such member or it is of another kind,
/// such as a negative number or one written with a fraction or an exponent.
#[verifier::external_body]
fn payload_get(object: &serde_json::Map<String, Value>, key: &str) -> (field: Option<Field>)
    ensures
        field is Some <==> plain_at(members(*object), key@) is Some,
        field is Some ==> plain_at(members(*object), key@) == Some(field.unwrap()@),
{
    match object.get(key) {
        Some(Value::String(text)) => Some(Field::Text(text.clone())),
        Some(Value::Number(number)) => number.as_u64().map(Field::Number),
        _ => None,
    }
}

/// `jsonwebtoken::encode` with the default header (algorithm HS256) and the
/// HMAC key that `EncodingKey::from_secret` makes of the secret's bytes. The
/// token is a function of the object's members and the secret: the object is
/// written with its keys in ascending order, and asked to hold strings and
/// unsigned integers only.
#[verifier::external_body]
fn jwt_encode(object: &serde_json::Map<String, Value>, secret: &str) -> (token: Result<String, jsonwebtoken::errors::Error>)
    requires
        is_flat(members(*object)),
    ensures
        token is Ok ==> signed_token(members(*object), secret@) == Some(token.unwrap()@),
        token is Err ==> signed_token(members(*object), secret@) is None,
{
    let key = jsonwebtoken::EncodingKey::from_secret(secret.as_bytes());
    jsonwebtoken::encode(&jsonwebtoken::Header::default(), object, &key)
}

/// `jsonwebtoken::decode` into a JSON object, with the HMAC key that
/// `DecodingKey::from_secret` makes of the secret's bytes and the default
/// validation (algorithm HS256, an `exp` claim required, no `aud` claim
/// accepted) except that the expiry is not compared with the clock. With that
/// the outcome is a function of the token and the secret. It is `Ok` only for
/// a token of three dot-separated parts whose signature matches and whose
/// payload is a JSON object.
#[verifier::external_body]
fn jwt_decode(token: &str, secret: &str) -> (object: Result<serde_json::Map<String, Value>, jsonwebtoken::errors::Error>)
    ensures
        object is Ok ==> verified_payload(token@, secret@) == Some(members(object.unwrap())),
        object is Err ==> verified_payload(token@, secret@) is None,
{
    let key = jsonwebtoken::DecodingKey::from_secret(secret.as_bytes());
    let mut validation = jsonwebtoken::Validation::default();
    validation.validate_exp = false;
    jsonwebtoken::decode::<serde_json::Map<String, Value>>(token, &key, &validation).map(
        |data| data.claims,
    )
}

/// The claim set that a token carries.
#[derive(Clone, Debug, PartialEq, Eq)]
pub struct TokenClaims {
    /// The subject: the user's id, as text.
    pub sub: String,
    /// The user's role.
    pub role: String,
    /// When the token was issued, in seconds since the epoch.
    pub iat: u64,
    /// When the token expires, in seconds since the epoch.
    pub exp: u64,
}

/// A claim set as a mathematical value.
pub struct ClaimsView {
    pub sub: Seq<char>,
    pub role: Seq<char>,
    pub iat: nat,
    pub exp: nat,
}

impl View for TokenClaims {
    type V = ClaimsView;

    open spec fn view(&self) -> ClaimsView {
        ClaimsView { sub: self.sub@, role: self.role@, iat: self.iat as nat, exp: self.exp as nat }
    }
}

impl ClaimsView {
    /// The token expires after it was issued. Every claim set that this
    /// library mints is well formed.
    pub open spec fn well_formed(self) -> bool {
        self.iat < self.exp
    }

    /// The current time exceeds the expiry.
    pub open spec fn expired_at(self, now: int) -> bool {
        now > self.exp
    }
}

/// The JSON object of a claim set: `{sub, role, iat, exp}`.
pub open spec fn payload_of(claims: ClaimsView) -> Payload {
    Payload::empty()
        .insert("sub"@, Member::Text(claims.sub))
        .insert("role"@, Member::Text(claims.role))
        .insert("iat"@, Member::Number(claims.iat))
        .insert("exp"@, Member::Number(claims.exp))
}

/// The claim set of a payload: its `sub` and `role` strings and its `iat` and
/// `exp` integers. A payload that lacks one of them, or holds it with another
/// type, is malformed. Further members are ignored.
pub open spec fn claims_of(payload: Payload) -> Option<ClaimsView> {
    match (
        text_at(payload, "sub"@),
        text_at(payload, "role"@),
        number_at(payload, "iat"@),
        number_at(payload, "exp"@),
    ) {
        (Some(sub), Some(role), Some(iat), Some(exp)) => Some(ClaimsView { sub, role, iat, exp }),
        _ => None,
    }
}

/// The claim set that a token carries under a secret: its signature is
/// accepted and its payload is a claim set.
pub open spec fn verified_claims(token: Seq<char>, secret: Seq<char>) -> Option<ClaimsView> {
    match verified_payload(token, secret) {
        Some(payload) => claims_of(payload),
        None => None,
    }
}

/// What encoding a claim set under a secret gives.
pub open spec fn encode_spec(claims: ClaimsView, secret: Seq<char>) -> Result<
    Seq<char>,
    ErrorCode,
> {
    match signed_token(payload_of(claims), secret) {
        Some(token) => Ok(token),
        None => Err(ErrorCode::INTERNAL001),
    }
}

/// What becomes at the time `now` of the claim set that a token was found to
/// carry: it stands up to its expiry and is refused from the next second
/// on. A token that carries none is refused. Every refusal is `AUTH003`.
pub open spec fn unexpired(verified: Option<ClaimsView>, now: int) -> Result<
    ClaimsView,
    ErrorCode,
> {
    match verified {
        Some(claims) => if claims.expired_at(now) {
            Err(ErrorCode::AUTH003)
        } else {
            Ok(claims)
        },
        None => Err(ErrorCode::AUTH003),
    }
}

/// What decoding a token under a secret gives at the time `now`: its claim
/// set, unless the signature is rejected, the payload is malformed, or the
/// expiry has passed.
pub open spec fn decode_spec(token: Seq<char>, secret: Seq<char>, now: int) -> Result<
    ClaimsView,
    ErrorCode,
> {
    unexpired(verified_claims(token, secret), now)
}

/// The outcome of an encode, with the token as a sequence of characters.
pub open spec fn token_view(outcome: Result<String, ErrorCode>) -> Result<Seq<char>, ErrorCode> {
    match outcome {
        Ok(token) => Ok(token@),
        Err(code) => Err(code),
    }
}

/// A claim set that may be missing, as a mathematical value.
pub open spec fn optional_claims_view(claims: Option<TokenClaims>) -> Option<ClaimsView> {
    match claims {
        Some(claims) => Some(claims@),
        None => None,
    }
}

/// The outcome of a decode, with the claim set as a mathematical value.
pub open spec fn claims_view(outcome: Result<TokenClaims, ErrorCode>) -> Result<
    ClaimsView,
    ErrorCode,
> {
    match outcome {
        Ok(claims) => Ok(claims@),
        Err(code) => Err(code),
    }
}

/// The four keys of a claim set are pairwise different.
pub proof fn lemma_claim_keys_differ()
    ensures
        "sub"@ != "role"@,
        "sub"@ != "iat"@,
        "sub"@ != "exp"@,
        "role"@ != "iat"@,
        "role"@ != "exp"@,
        "iat"@ != "exp"@,
{
    reveal_strlit("sub");
    reveal_strlit("role");
    reveal_strlit("iat");
    reveal_strlit("exp");
    assert("sub"@[0] == 's');
    assert("role"@[0] == 'r');
    assert("iat"@[0] == 'i');
    assert("exp"@[0] == 'e');
}

/// Reading a claim set back from the JSON object that was built from it gives
/// the same claim set, and that object holds nothing but strings and unsigned
/// integers.
pub proof fn lemma_payload_round_trip(claims: ClaimsView)
    ensures
        claims_of(payload_of(claims)) == Some(claims),
        is_flat(payload_of(claims)),
{
    lemma_claim_keys_differ();
}

/// A token whose verified payload is the JSON object of a claim set decodes
/// to that claim set, equal on subject, role, issue time and expiry, at every
/// time up to its expiry; from the next second on it is refused.
pub proof fn lemma_decode_returns_claims(claims: ClaimsView, token: Seq<char>, secret: Seq<char>, now: int)
    ensures
        verified_payload(token, secret) == Some(payload_of(claims)) ==> decode_spec(token, secret, now) == (
            if now <= claims.exp {
                Ok::<ClaimsView, ErrorCode>(claims)
            } else {
                Err::<ClaimsView, ErrorCode>(ErrorCode::AUTH003)
            }
        ),
{
    lemma_payload_round_trip(claims);
}

/// The expiry is enforced when a token is decoded, to the second and without
/// leeway: a token is accepted exactly at the times that do not exceed the
/// expiry of the claim set it carries, so one that is refused at some time is
/// refused at every later time, and one that is accepted was acceptable at
/// every earlier time.
pub proof fn lemma_expiry_is_enforced(token: Seq<char>, secret: Seq<char>, now: int, later: int)
    requires
        now <= later,
    ensures
        decode_spec(token, secret, now) is Ok <==> verified_claims(token, secret) is Some && now
            <= verified_claims(token, secret).unwrap().exp,
        decode_spec(token, secret, now) is Ok ==> decode_spec(token, secret, now)
            == Ok::<ClaimsView, ErrorCode>(verified_claims(token, secret).unwrap()),
        decode_spec(token, secret, now) is Err ==> decode_spec(token, secret, now)
            == Err::<ClaimsView, ErrorCode>(ErrorCode::AUTH003),
        decode_spec(token, secret, now) is Err ==> decode_spec(token, secret, later) is Err,
        decode_spec(token, secret, later) is Ok ==> decode_spec(token, secret, now) is Ok,
{
}


/// Reads the member `key` as a string.
fn payload_text(object: &serde_json::Map<String, Value>, key: &str) -> (text: Option<String>)
    ensures
        text is Some <==> text_at(members(*object), key@) is Some,
        text is Some ==> text_at(members(*object), key@) == Some(text.unwrap()@),
{
    match payload_get(object, key) {
        Some(Field::Text(text)) => Some(text),
        _ => None,
    }
}

/// Reads the member `key` as an unsigned integer.
fn payload_number(object: &serde_json::Map<String, Value>, key: &str) -> (number: Option<u64>)
    ensures
        number is Some <==> number_at(members(*object), key@) is Some,
        number is Some ==> number_at(members(*object), key@) == Some(number.unwrap() as nat),
{
    match payload_get(object, key) {
        Some(Field::Number(number)) => Some(number),
        _ => None,
    }
}

impl TokenClaims {
    /// The JSON object of the claim set: the strings `sub` and `role` and the
    /// integers `iat` and `exp`.
    pub fn to_payload(&self) -> (object: serde_json::Map<String, Value>)
        ensures
            members(object) == payload_of(self@),
    {
        let mut object = payload_new();
        payload_put(&mut object, "sub", Field::Text(self.sub.clone()));
        payload_put(&mut object, "role", Field::Text(self.role.clone()));
        payload_put(&mut object, "iat", Field::Number(self.iat));
        payload_put(&mut object, "exp", Field::Number(self.exp));
        object
    }

    /// Reads a claim set out of a JSON object: its `sub` and `role`, which
    /// must be strings, and its `iat` and `exp`, which must be integers from
    /// 0 to `u64::MAX`. `None` if one of the four is missing or of another
    /// type. Further members are ignored.
    pub fn from_payload(object: &serde_json::Map<String, Value>) -> (claims: Option<TokenClaims>)
        ensures
            optional_claims_view(claims) == claims_of(members(*object)),
    {
        let sub = payload_text(object, "sub");
        let role = payload_text(object, "role");
        let iat = payload_number(object, "iat");
        let exp = payload_number(object, "exp");
        match (sub, role, iat, exp) {
            (Some(sub), Some(role), Some(iat), Some(exp)) => Some(
                TokenClaims { sub, role, iat, exp },
            ),
            _ => None,
        }
    }

    /// Whether the time `now`, in seconds since the epoch, exceeds the expiry.
    pub fn expired_at(&self, now: i64) -> (expired: bool)
        ensures
            expired == self@.expired_at(now as int),
    {
        now >= 0 && now as u64 > self.exp
    }
}

/// Enforces the expiry at the time `now`, in seconds since the epoch, on the
/// claim set that a token was found to carry.
///
/// The claim set is handed back while `now` does not exceed its expiry. From
/// the next second on it is refused, as is a token that carries none, both
/// with `AUTH003`. No leeway is given.
pub fn enforce_expiry(verified: Option<TokenClaims>, now: i64) -> (claims: Result<TokenClaims, ErrorCode>)
    ensures
        claims_view(claims) == unexpired(optional_claims_view(verified), now as int),
        claims matches Ok(current) ==> verified == Some(current),
{
    match verified {
        Some(claims) => {
            if claims.expired_at(now) {
                Err(ErrorCode::AUTH003)
            } else {
                Ok(claims)
            }
        },
        None => Err(ErrorCode::AUTH003),
    }
}

/// Encodes and decodes tokens under one signing secret, which it is given
/// when it is made and never changes.
pub struct TokenCodec<'a> {
    secret: &'a str,
}

impl<'a> TokenCodec<'a> {
    /// The signing secret.
    pub closed spec fn secret(&self) -> Seq<char> {
        self.secret@
    }

    /// A codec that signs and checks with `secret`.
    pub fn new(secret: &'a str) -> (codec: Self)
        ensures
            codec.secret() == secret@,
    {
        TokenCodec { secret }
    }

    /// Serializes the claim set and signs it. The token is a function of the
    /// claim set and the secret. `INTERNAL001` if the signing library fails.
    pub fn encode(&self, claims: &TokenClaims) -> (token: Result<String, ErrorCode>)
        ensures
            token_view(token) == encode_spec(claims@, self.secret()),
    {
        let object = claims.to_payload();
        proof {
            lemma_payload_round_trip(claims@);
        }
        match jwt_encode(&object, self.secret) {
            Ok(token) => Ok(token),
            Err(_) => Err(ErrorCode::INTERNAL001),
        }
    }

    /// Checks the signature of `token` and reads its claim set, without
    /// regard to its expiry. `None` if the signature does not match or the
    /// token is malformed.
    pub fn authenticate(&self, token: &str) -> (claims: Option<TokenClaims>)
        ensures
            optional_claims_view(claims) == verified_claims(token@, self.secret()),
    {
        match jwt_decode(token, self.secret) {
            Ok(object) => TokenClaims::from_payload(&object),
            Err(_) => None,
        }
    }

    /// Checks the signature of `token`, reads its claim set and compares its
    /// expiry with `now`, in seconds since the epoch. The token is refused
    /// with `AUTH003` if its signature does not match, if it is malformed, or
    /// if `now` exceeds its expiry, with nothing to tell the three apart.
    pub fn decode_at(&self, token: &str, now: i64) -> (claims: Result<TokenClaims, ErrorCode>)
        ensures
            claims_view(claims) == decode_spec(token@, self.secret(), now as int),
    {
        enforce_expiry(self.authenticate(token), now)
    }

    /// Decodes `token` at the time that the clock shows: the outcome is that
    /// of `decode_at` for some time. A token that is refused is refused with
    /// `AUTH003`; one that is accepted carries the claim set returned.
    pub fn decode(&self, token: &str) -> (claims: Result<TokenClaims, ErrorCode>)
        ensures
            exists|now: int| claims_view(claims) == decode_spec(token@, self.secret(), now),
            claims is Ok ==> verified_claims(token@, self.secret()) == Some(claims.unwrap()@),
            claims is Err ==> claims == Err::<TokenClaims, ErrorCode>(ErrorCode::AUTH003),
            verified_claims(token@, self.secret()) is None ==> claims is Err,
    {
        let now: i64 = unix_now();
        self.decode_at(token, now)
    }
}

} // verus!
