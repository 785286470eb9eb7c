//! Authentication core: password credentials, signed bearer tokens, and a
//! protected operation that is bound to a valid token.

pub mod auth;
pub mod claims;
pub mod decimal;
pub mod failure;
pub mod greeting;
pub mod models;
pub mod password;
pub mod token;
