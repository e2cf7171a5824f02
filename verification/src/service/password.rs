//! Checking a plaintext password against a stored credential hash.
//!
//! A credential hash is a PHC string: it names the Argon2 variant, the
//! version, the memory, time and parallelism costs and the salt, and holds
//! the digest. Parsing and hashing are done by `argon2`; that a hash which
//! does not parse is a mismatch and no crash is decided here.

use vstd::prelude::*;
use argon2::PasswordVerifier;

verus! {

/// `argon2::password_hash::Error`, the failure of a parse or a verification.
#[verifier::external_type_specification]
#[verifier::external_body]
pub struct ExPasswordHashError(argon2::password_hash::Error);

/// Whether an encoded hash parses as a PHC string.
pub uninterp spec fn phc_parses(encoded_hash: Seq<char>) -> bool;

/// Whether Argon2 accepts a plaintext for an encoded hash that parses: the
/// digest computed over the plaintext with the variant, the version, the cost
/// parameters and the salt that the hash names equals the digest that the
/// hash holds.
pub uninterp spec fn argon2_accepts(plaintext: Seq<char>, encoded_hash: Seq<char>) -> bool;

/// Whether `plaintext` is the password that `encoded_hash` was made of: the
/// hash parses, and the digest recomputed over the plaintext matches.
pub open spec fn password_matches(plaintext: Seq<char>, encoded_hash: Seq<char>) -> bool {
    phc_parses(encoded_hash) && argon2_accepts(plaintext, encoded_hash)
}

/// `argon2::PasswordHash::new`: whether the encoded hash parses as a PHC
/// string. The parser returns an error for what it cannot read and does not
/// panic.
#[verifier::external_body]
fn hash_parses(encoded_hash: &str) -> (parses: bool)
    ensures
        parses == phc_parses(encoded_hash@),
{
    argon2::PasswordHash::new(encoded_hash).is_ok()
}

/// `Argon2::default().verify_password` on the plaintext's bytes and the
/// encoded hash, parsed by `argon2::PasswordHash::new`. `Ok` exactly when the
/// digest recomputed with the parameters that the hash names matches the one
/// it holds; the two are compared in constant time. Parameters that Argon2
/// does not support give an error.
#[verifier::external_body]
fn argon2_verify(plaintext: &str, encoded_hash: &str) -> (verdict: Result<(), argon2::password_hash::Error>)
    requires
        phc_parses(encoded_hash@),
    ensures
        verdict is Ok <==> argon2_accepts(plaintext@, encoded_hash@),
{
    let parsed = argon2::PasswordHash::new(encoded_hash)?;
    argon2::Argon2::default().verify_password(plaintext.as_bytes(), &parsed)
}

/// Whether `plaintext` is the password that `encoded_hash` was made of.
///
/// `true` only when the hash parses and the recomputed digest matches the
/// stored one. A malformed or unparseable hash gives `false`, as does every
/// other failure of the hashing library: nothing here panics.
pub fn verify_password(plaintext: &str, encoded_hash: &str) -> (matches: bool)
    ensures
        matches == password_matches(plaintext@, encoded_hash@),
        !phc_parses(encoded_hash@) ==> !matches,
{
    if !hash_parses(encoded_hash) {
        return false;
    }
    match argon2_verify(plaintext, encoded_hash) {
        Ok(_) => true,
        Err(_) => false,
    }
}

} // verus!
