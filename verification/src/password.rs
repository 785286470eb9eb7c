//! Password hashing and fail-closed password verification.

use vstd::prelude::*;
use vstd::string::*;
use crate::decimal::digit_char;

verus! {

#[verifier::external_type_specification]
#[verifier::external_body]
pub struct ExBcryptError(bcrypt::BcryptError);

/// What `bcrypt::verify` returns for a password and a stored hash: `Some` of
/// its answer, or `None` where it reports an error.
pub uninterp spec fn bcrypt_verified(password: Seq<char>, hash: Seq<char>) -> Option<bool>;

/// The work factor of every hash this library produces.
pub const HASH_COST: u32 = 10;

/// A password matches a stored hash when the hasher accepts it. An error of
/// the hasher counts as no match.
pub open spec fn password_matches(password: Seq<char>, hash: Seq<char>) -> bool {
    bcrypt_verified(password, hash) == Some(true)
}

/// How a hash made at the work factor `cost` begins: the version of the
/// scheme, then the cost in two digits.
pub open spec fn hash_prefix(cost: nat) -> Seq<char> {
    "$2b$"@ + seq![digit_char(cost / 10), digit_char(cost % 10), '$']
}

/// `hash` is a hash of `password` as this library makes it: one that matches
/// the password and carries the work factor `HASH_COST`.
pub open spec fn hash_of(password: Seq<char>, hash: Seq<char>) -> bool {
    &&& password_matches(password, hash)
    &&& hash.len() >= 7
    &&& hash.subrange(0, 7) == "$2b$10$"@
}

/// The password could not be hashed.
#[derive(Clone, Copy, Debug, PartialEq, Eq)]
pub struct HashError;

/// Calls `bcrypt::verify`. Its answer depends on the password and the hash
/// alone, so the contract names it; nothing is claimed of its value.
#[verifier::external_body]
fn bcrypt_verify(password: &str, hash: &str) -> (res: Result<bool, bcrypt::BcryptError>)
    ensures
        match res {
            Ok(b) => bcrypt_verified(password@, hash@) == Some(b),
            Err(_) => bcrypt_verified(password@, hash@) is None,
        },
{
    bcrypt::verify(password, hash)
}

/// Calls `bcrypt::hash`, which salts the hash at random. Claimed of it: a
/// hash that it returns is one that `bcrypt::verify` accepts for the same
/// password, and it begins with the version `2b` and the cost, which the
/// crate writes in two digits between `$` signs.
#[verifier::external_body]
fn bcrypt_hash(password: &str, cost: u32) -> (res: Result<String, bcrypt::BcryptError>)
    ensures
        res matches Ok(h) ==> bcrypt_verified(password@, h@) == Some(true),
        res matches Ok(h) ==> h@.len() >= 7 && h@.subrange(0, 7) == hash_prefix(cost as nat),
{
    bcrypt::hash(password, cost)
}

/// Hashes a plaintext password with a fresh salt at the fixed work factor.
/// Whether hashing succeeds is up to the hasher's source of randomness; a
/// hash that is returned matches the password it was made from and carries
/// the work factor `HASH_COST`.
pub fn hash_password(password: &str) -> (res: Result<String, HashError>)
    ensures
        res matches Ok(h) ==> hash_of(password@, h@),
{
    match bcrypt_hash(password, HASH_COST) {
        Ok(h) => {
            proof {
                reveal_strlit("$2b$");
                reveal_strlit("$2b$10$");
                assert(hash_prefix(HASH_COST as nat) =~= "$2b$10$"@);
            }
            Ok(h)
        },
        Err(_) => Err(HashError),
    }
}

/// Tells whether `password` matches the stored `hash`. A malformed hash or
/// any other error of the hasher is reported as no match.
pub fn verify_password(password: &str, hash: &str) -> (ok: bool)
    ensures
        ok == password_matches(password@, hash@),
{
    match bcrypt_verify(password, hash) {
        Ok(b) => b,
        Err(_) => false,
    }
}

} // verus!
