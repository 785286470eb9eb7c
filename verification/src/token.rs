//! The token codec: issuing signed bearer tokens and verifying them.
//!
//! A token is the signed serialisation of its claims under the HS256
//! algorithm of the `jwt` crate. Issuing and verifying take the same shared
//! secret; a token is valid exactly when its signature is, and its lifetime
//! claim is never read as a deadline.

use vstd::prelude::*;
use std::collections::{BTreeMap, HashMap};
use hmac::{Hmac, Mac};
use jwt::{SignWithKey, VerifyWithKey};
use sha2::Sha256;
use crate::claims::{ascending, claims_for, entries_map, generate_claims, names_of, Claims};
use crate::models::User;

verus! {

#[verifier::external_type_specification]
#[verifier::external_body]
pub struct ExJwtError(jwt::Error);

/// The token that `sign_with_key` returns for a mapping of claims under the
/// HS256 key made of `key`.
pub uninterp spec fn jwt_signed(key: Seq<u8>, claims: Map<Seq<char>, Seq<char>>) -> Seq<char>;

/// Whether `verify_with_key` accepts `token` under the HS256 key made of `key`.
pub uninterp spec fn jwt_accepts(key: Seq<u8>, token: Seq<char>) -> bool;

/// A bearer token as it is handed to the client.
#[derive(Clone, Debug, PartialEq, Eq)]
pub struct Token {
    pub access_token: String,
}

/// No token could be issued.
#[derive(Clone, Copy, Debug, PartialEq, Eq)]
pub struct GenerateTokenError;

/// The verifying key could not be made from the secret. The HS256 key takes
/// a secret of every length, so `verify_token` has no input that gives it.
#[derive(Clone, Copy, Debug, PartialEq, Eq)]
pub struct VerifyTokenError;

/// Makes the HS256 key with `Hmac::new_from_slice`, hands the pairs over as
/// a map and signs it with `sign_with_key`. The pairs come ascending by name,
/// each name once, so the map holds them as they are. Claimed of the call:
/// it succeeds, since the key takes a secret of every length, a map of
/// strings always serialises and the signer does not fail; the token depends
/// on the secret and the mapping alone, so the contract names it; the token
/// is not empty, being three segments joined by dots; and `verify_with_key`
/// accepts it under the same secret.
#[verifier::external_body]
fn jwt_sign(key: &[u8], claims: &Vec<(String, String)>) -> (res: Result<String, jwt::Error>)
    requires
        ascending(names_of(claims@)),
    ensures
        res is Ok,
        res matches Ok(token) ==> token@ == jwt_signed(key@, entries_map(claims@)),
        res matches Ok(token) ==> token@.len() > 0,
        res matches Ok(token) ==> jwt_accepts(key@, token@),
{
    let key: Hmac<Sha256> = Hmac::new_from_slice(key)?;
    let claims: BTreeMap<&str, &str> = claims.iter().map(|e| (e.0.as_str(), e.1.as_str())).collect();
    claims.sign_with_key(&key)
}

/// Makes the HS256 key with `Hmac::new_from_slice` and checks the token with
/// `verify_with_key`, reading its claims as a mapping of strings. Whether the
/// token is accepted depends on the secret and the token alone, so the
/// contract names it.
#[verifier::external_body]
fn jwt_verify(key: &[u8], token: &str) -> (res: Result<HashMap<String, String>, jwt::Error>)
    ensures
        res is Ok == jwt_accepts(key@, token@),
{
    let key: Hmac<Sha256> = Hmac::new_from_slice(key)?;
    token.verify_with_key(&key)
}

/// `token` is a token of the user `id` under the secret `key`: what signing
/// the claims of that user gives at some time of issue, not empty, and
/// accepted by `verify_token`.
pub open spec fn token_of(key: Seq<u8>, id: int, token: Seq<char>) -> bool {
    &&& exists|now: u64| #[trigger] jwt_signed(key, claims_for(id, now as nat)) == token
    &&& token.len() > 0
    &&& verification(key, token) == Ok::<bool, VerifyTokenError>(true)
}

/// Signs `claims` with the shared secret `key`. Signing succeeds on every
/// secret and every set of claims; the token verifies under the same secret.
pub fn sign_claims(key: &[u8], claims: &Claims) -> (res: Result<Token, GenerateTokenError>)
    ensures
        res matches Ok(token) && token.access_token@ == jwt_signed(key@, claims@)
            && token.access_token@.len() > 0 && verification(key@, token.access_token@) == Ok::<
            bool,
            VerifyTokenError,
        >(true),
{
    match jwt_sign(key, claims.entries()) {
        Ok(access_token) => Ok(Token { access_token }),
        Err(_) => Err(GenerateTokenError),
    }
}

/// Issues a token to `user` at the present time. It fails where the clock
/// gives no time of issue; a token that is issued is a token of `user`.
pub fn generate_token(user: User, key: &[u8]) -> (res: Result<Token, GenerateTokenError>)
    ensures
        res matches Ok(token) ==> token_of(key@, user.id as int, token.access_token@),
{
    let claims = match generate_claims(user) {
        Ok(claims) => claims,
        Err(_) => {
            return Err(GenerateTokenError);
        },
    };
    sign_claims(key, &claims)
}

/// What `verify_token` returns for a secret and a token.
pub open spec fn verification(key: Seq<u8>, token: Seq<char>) -> Result<bool, VerifyTokenError> {
    Ok(jwt_accepts(key, token))
}

/// Tells whether `token` carries a valid signature under the shared secret
/// `key`. A malformed token, a wrong signature and any error of the verifier
/// all give `Ok(false)`. The answer depends on the secret and the token
/// alone: no expiry is enforced and nothing is remembered between calls.
pub fn verify_token(key: &[u8], token: &str) -> (res: Result<bool, VerifyTokenError>)
    ensures
        res == verification(key@, token@),
{
    match jwt_verify(key, token) {
        Ok(_) => Ok(true),
        Err(_) => Ok(false),
    }
}

/// Verification is repeatable: two calls of `verify_token` on the same secret
/// and token return the same result.
pub proof fn lemma_verification_repeatable(
    key: Seq<u8>,
    token: Seq<char>,
    first: Result<bool, VerifyTokenError>,
    second: Result<bool, VerifyTokenError>,
)
    requires
        first == verification(key, token),
        second == verification(key, token),
    ensures
        first == second,
{
}

} // verus!
