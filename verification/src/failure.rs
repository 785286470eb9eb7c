//! The failures that cross the handler boundary, and the coarse kinds and
//! fixed messages that callers see of them.

use vstd::prelude::*;

verus! {

/// The kind of error that a caller is told.
#[derive(Clone, Copy, Debug, PartialEq, Eq, Structural)]
pub enum ErrorKind {
    /// Bad credentials, or a missing or invalid token.
    Unauthenticated,
    /// The user is registered already.
    AlreadyExists,
    /// The hashing or signing subsystem failed.
    Unknown,
}

/// Why a request was turned down.
#[derive(Clone, Copy, Debug, PartialEq, Eq, Structural)]
pub enum Failure {
    /// Login with an unknown email, a wrong password, or no token to give.
    InvalidCredentials,
    /// The password of a new user could not be hashed.
    UserNotCreated,
    /// The store did not create the user.
    UserExists,
    /// No token could be issued to a new user.
    TokenNotGenerated,
    /// The call carried no access token in text form.
    NoAccessToken,
    /// The access token did not verify.
    InvalidToken,
}

impl Failure {
    /// The kind under which this failure is reported.
    pub open spec fn kind_of(self) -> ErrorKind {
        match self {
            Failure::InvalidCredentials => ErrorKind::Unauthenticated,
            Failure::UserNotCreated => ErrorKind::Unknown,
            Failure::UserExists => ErrorKind::AlreadyExists,
            Failure::TokenNotGenerated => ErrorKind::Unknown,
            Failure::NoAccessToken => ErrorKind::Unauthenticated,
            Failure::InvalidToken => ErrorKind::Unauthenticated,
        }
    }

    /// The fixed message with which this failure is reported.
    pub open spec fn message_of(self) -> Seq<char> {
        match self {
            Failure::InvalidCredentials => "Invalid email or password"@,
            Failure::UserNotCreated => "Error while creating the user"@,
            Failure::UserExists => "User already exists in the database"@,
            Failure::TokenNotGenerated => "Cannot generate a token for the User"@,
            Failure::NoAccessToken => "No access token specified"@,
            Failure::InvalidToken => "Invalid token"@,
        }
    }

    /// The kind under which this failure is reported.
    pub fn kind(&self) -> (kind: ErrorKind)
        ensures
            kind == self.kind_of(),
    {
        match self {
            Failure::InvalidCredentials => ErrorKind::Unauthenticated,
            Failure::UserNotCreated => ErrorKind::Unknown,
            Failure::UserExists => ErrorKind::AlreadyExists,
            Failure::TokenNotGenerated => ErrorKind::Unknown,
            Failure::NoAccessToken => ErrorKind::Unauthenticated,
            Failure::InvalidToken => ErrorKind::Unauthenticated,
        }
    }

    /// The fixed message with which this failure is reported.
    pub fn message(&self) -> (message: &'static str)
        ensures
            message@ == self.message_of(),
    {
        match self {
            Failure::InvalidCredentials => "Invalid email or password",
            Failure::UserNotCreated => "Error while creating the user",
            Failure::UserExists => "User already exists in the database",
            Failure::TokenNotGenerated => "Cannot generate a token for the User",
            Failure::NoAccessToken => "No access token specified",
            Failure::InvalidToken => "Invalid token",
        }
    }
}

} // verus!
