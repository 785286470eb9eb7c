//! The user records that the credential store keeps.

use vstd::prelude::*;

verus! {

/// A stored user. The store assigns `id`; `password` holds the password hash.
#[derive(Clone, Debug, PartialEq, Eq)]
pub struct User {
    pub id: i32,
    pub firstname: String,
    pub lastname: String,
    pub email: String,
    pub password: String,
}

/// The record handed to the store when a user registers. `password` is the
/// password hash, never the plaintext.
#[derive(Clone, Copy, Debug, PartialEq, Eq)]
pub struct NewUser<'a> {
    pub firstname: &'a str,
    pub lastname: &'a str,
    pub email: &'a str,
    pub password: &'a str,
}

} // verus!
