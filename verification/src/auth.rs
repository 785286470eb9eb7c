//! The two protocols of the authentication handler: login and registration.
//!
//! The credential store is not reached from here. Login takes what the
//! store's lookup by email returned; registration is driven by events, and
//! says between them what the caller has to ask of the store.

use vstd::prelude::*;
use crate::failure::Failure;
use crate::models::{NewUser, User};
use crate::password::{hash_of, hash_password, password_matches, verify_password, HashError};
use crate::token::{generate_token, token_of, GenerateTokenError, Token};

verus! {

/// The credentials presented at login.
#[derive(Clone, Debug, PartialEq, Eq)]
pub struct LoginRequest {
    pub email: String,
    pub password: String,
}

/// The data of a user who registers, with the plaintext password.
#[derive(Clone, Debug, PartialEq, Eq)]
pub struct RegisterRequest {
    pub firstname: String,
    pub lastname: String,
    pub email: String,
    pub password: String,
}

/// Why the store did not create a user.
#[derive(Clone, Copy, Debug, PartialEq, Eq, Structural)]
pub enum StoreError {
    /// A user with the same email exists.
    Duplicate,
    /// Any other failure of the store.
    Other,
}

/// What happened in a registration.
#[derive(Debug)]
pub enum RegisterEvent<'a> {
    /// The request arrived.
    Requested(&'a RegisterRequest),
    /// The store answered the request to create the user.
    Stored(Result<User, StoreError>),
}

/// What the caller does next in a registration.
#[derive(Debug, PartialEq, Eq)]
pub enum RegisterAction {
    /// Ask the store to create the user, with this password hash.
    Create { password_hash: String },
    /// Answer the client.
    Reply(Result<Token, Failure>),
}

/// The first two steps of login: the user that the lookup found, where the
/// password matches the stored hash, and the one refusal otherwise.
pub open spec fn credentials_checked(found: Option<User>, password: Seq<char>) -> Result<
    User,
    Failure,
> {
    match found {
        Some(user) => if password_matches(password, user.password@) {
            Ok(user)
        } else {
            Err(Failure::InvalidCredentials)
        },
        None => Err(Failure::InvalidCredentials),
    }
}

/// Checks the password presented against the user that the lookup by email
/// found. An unknown email and a wrong password give the same refusal.
pub fn check_credentials(found: Option<User>, password: &str) -> (res: Result<User, Failure>)
    ensures
        res == credentials_checked(found, password@),
{
    match found {
        Some(user) => if verify_password(password, user.password.as_str()) {
            Ok(user)
        } else {
            Err(Failure::InvalidCredentials)
        },
        None => Err(Failure::InvalidCredentials),
    }
}

/// The reply to the client once a token was asked for: the token, or
/// `refusal` where none could be issued.
pub fn token_reply(issued: Result<Token, GenerateTokenError>, refusal: Failure) -> (res: Result<
    Token,
    Failure,
>)
    ensures
        res == match issued {
            Ok(token) => Ok::<Token, Failure>(token),
            Err(_) => Err::<Token, Failure>(refusal),
        },
{
    match issued {
        Ok(token) => Ok(token),
        Err(_) => Err(refusal),
    }
}

/// What `login` may return for the outcome `found` of the lookup by email,
/// the password presented and the shared secret: the one refusal wherever the
/// credentials are not accepted, and otherwise a token issued to the user
/// found, or the same refusal where none could be issued.
pub open spec fn login_allows(
    found: Option<User>,
    password: Seq<char>,
    key: Seq<u8>,
    res: Result<Token, Failure>,
) -> bool {
    match res {
        Ok(token) => {
            &&& credentials_checked(found, password) matches Ok(user)
            &&& token_of(key, user.id as int, token.access_token@)
        },
        Err(failure) => failure == Failure::InvalidCredentials,
    }
}

/// Logs a user in: `found` is what the store's lookup of `request.email`
/// returned. An unknown email, a wrong password and a token that could not be
/// issued are all refused alike.
pub fn login(request: &LoginRequest, found: Option<User>, key: &[u8]) -> (res: Result<
    Token,
    Failure,
>)
    ensures
        login_allows(found, request.password@, key@, res),
{
    match check_credentials(found, request.password.as_str()) {
        Ok(user) => token_reply(generate_token(user, key), Failure::InvalidCredentials),
        Err(failure) => Err(failure),
    }
}

/// Login with a wrong password for a stored user and login with an email
/// that the store does not know are refused with the same failure, hence the
/// same kind and the same message.
pub proof fn lemma_login_refusals_alike(
    user: User,
    password: Seq<char>,
    key: Seq<u8>,
    wrong_password: Result<Token, Failure>,
    unknown_email: Result<Token, Failure>,
)
    requires
        !password_matches(password, user.password@),
        login_allows(Some(user), password, key, wrong_password),
        login_allows(None, password, key, unknown_email),
    ensures
        wrong_password == unknown_email,
        wrong_password matches Err(failure) && failure == Failure::InvalidCredentials,
{
}

impl RegisterRequest {
    /// The record to hand to the store, with the password hash in place of
    /// the plaintext.
    pub fn new_user<'a>(&'a self, password_hash: &'a str) -> (record: NewUser<'a>)
        ensures
            record.firstname@ == self.firstname@,
            record.lastname@ == self.lastname@,
            record.email@ == self.email@,
            record.password@ == password_hash@,
    {
        NewUser {
            firstname: self.firstname.as_str(),
            lastname: self.lastname.as_str(),
            email: self.email.as_str(),
            password: password_hash,
        }
    }
}

/// What `register` may do on an event. On a request: ask the store to create
/// the user with a hash of the password at the fixed work factor, or reply
/// that the user could not be created. On a failure of the store, whatever its cause: reply
/// that the user exists, with no token. On a created user: reply with a token
/// issued to that user, or that none could be generated.
pub open spec fn register_allows(event: RegisterEvent, key: Seq<u8>, action: RegisterAction) -> bool {
    match event {
        RegisterEvent::Requested(request) => match action {
            RegisterAction::Create { password_hash } => hash_of(request.password@, password_hash@),
            RegisterAction::Reply(reply) => reply == Err::<Token, Failure>(Failure::UserNotCreated),
        },
        RegisterEvent::Stored(Err(_)) => action == RegisterAction::Reply(
            Err(Failure::UserExists),
        ),
        RegisterEvent::Stored(Ok(user)) => match action {
            RegisterAction::Create { .. } => false,
            RegisterAction::Reply(Ok(token)) => token_of(key, user.id as int, token.access_token@),
            RegisterAction::Reply(Err(failure)) => failure == Failure::TokenNotGenerated,
        },
    }
}

/// What follows the hashing of a new user's password: the request to the
/// store, with the hash, or the reply that the user could not be created.
pub fn after_hashing(hashed: Result<String, HashError>) -> (action: RegisterAction)
    ensures
        action == match hashed {
            Ok(password_hash) => (RegisterAction::Create { password_hash }),
            Err(_) => RegisterAction::Reply(Err(Failure::UserNotCreated)),
        },
{
    match hashed {
        Ok(password_hash) => RegisterAction::Create { password_hash },
        Err(_) => RegisterAction::Reply(Err(Failure::UserNotCreated)),
    }
}

/// One step of a registration. The caller starts with
/// `RegisterEvent::Requested`, performs each `RegisterAction::Create` on the
/// store and hands the store's answer back as `RegisterEvent::Stored`, until
/// it is told to reply.
pub fn register(event: RegisterEvent, key: &[u8]) -> (action: RegisterAction)
    ensures
        register_allows(event, key@, action),
{
    match event {
        RegisterEvent::Requested(request) => after_hashing(
            hash_password(request.password.as_str()),
        ),
        RegisterEvent::Stored(Err(_)) => RegisterAction::Reply(Err(Failure::UserExists)),
        RegisterEvent::Stored(Ok(user)) => RegisterAction::Reply(
            token_reply(generate_token(user, key), Failure::TokenNotGenerated),
        ),
    }
}

} // verus!
