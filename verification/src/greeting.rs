//! The protected operation: a greeting that is given only to the bearer of a
//! valid token. The token is checked anew on every call.

use vstd::prelude::*;
use vstd::string::*;
use crate::failure::Failure;
use crate::token::{jwt_accepts, verify_token};

verus! {

/// The metadata key under which a call carries its access token.
pub const AUTHORIZATION_KEY: &'static str = "x-authorization";

/// What the call's metadata hold under `AUTHORIZATION_KEY`.
#[derive(Clone, Copy, Debug, PartialEq, Eq)]
pub enum AccessToken<'a> {
    /// No value under the key.
    Missing,
    /// A value that is not text.
    NotText,
    /// The token as text.
    Text(&'a str),
}

/// The message to be answered.
#[derive(Clone, Debug, PartialEq, Eq)]
pub struct GreetRequest {
    pub message: String,
}

/// The answer to a message.
#[derive(Clone, Debug, PartialEq, Eq)]
pub struct GreetResponse {
    pub message: String,
}

/// The answer to `message`: the message, a space and the fixed suffix.
pub open spec fn greeting(message: Seq<char>) -> Seq<char> {
    message + " Pong!"@
}

/// What `greet` answers: no token in text form is refused as none specified,
/// a token that does not verify as invalid, and the bearer of a valid token
/// gets the greeting.
pub open spec fn greet_reply(header: AccessToken, message: Seq<char>, key: Seq<u8>) -> Result<
    Seq<char>,
    Failure,
> {
    match header {
        AccessToken::Missing => Err(Failure::NoAccessToken),
        AccessToken::NotText => Err(Failure::NoAccessToken),
        AccessToken::Text(token) => if jwt_accepts(key, token@) {
            Ok(greeting(message))
        } else {
            Err(Failure::InvalidToken)
        },
    }
}

/// Answers `request` if the call carries a token that verifies under the
/// shared secret `key`.
pub fn greet(header: AccessToken, request: &GreetRequest, key: &[u8]) -> (res: Result<
    GreetResponse,
    Failure,
>)
    ensures
        match res {
            Ok(response) => greet_reply(header, request.message@, key@) == Ok::<
                Seq<char>,
                Failure,
            >(response.message@),
            Err(failure) => greet_reply(header, request.message@, key@) == Err::<
                Seq<char>,
                Failure,
            >(failure),
        },
{
    let token = match header {
        AccessToken::Text(token) => token,
        _ => {
            return Err(Failure::NoAccessToken);
        },
    };
    match verify_token(key, token) {
        Ok(true) => {},
        _ => {
            return Err(Failure::InvalidToken);
        },
    }
    let mut message = request.message.clone();
    message.append(" ");
    message.append("Pong!");
    proof {
        reveal_strlit(" ");
        reveal_strlit("Pong!");
        reveal_strlit(" Pong!");
        assert(message@ =~= greeting(request.message@));
    }
    Ok(GreetResponse { message })
}

} // verus!
