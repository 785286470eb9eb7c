use auth_core::auth::{
    after_hashing, check_credentials, login, register, token_reply, LoginRequest, RegisterAction,
    RegisterEvent, RegisterRequest, StoreError,
};
use auth_core::failure::{ErrorKind, Failure};
use auth_core::models::{NewUser, User};
use auth_core::password::{hash_password, verify_password, HashError};
use auth_core::token::{verify_token, GenerateTokenError, Token};

const KEY: &[u8] = b"app-key";

fn stored(id: i32, email: &str, password: &str) -> User {
    User {
        id,
        firstname: String::from("Ada"),
        lastname: String::from("Lovelace"),
        email: String::from(email),
        password: hash_password(password).unwrap(),
    }
}

fn credentials(email: &str, password: &str) -> LoginRequest {
    LoginRequest { email: String::from(email), password: String::from(password) }
}

fn registration(email: &str, password: &str) -> RegisterRequest {
    RegisterRequest {
        firstname: String::from("Ada"),
        lastname: String::from("Lovelace"),
        email: String::from(email),
        password: String::from(password),
    }
}

/// A store in memory: creates a user unless the email is taken.
fn create(users: &mut Vec<User>, record: NewUser) -> Result<User, StoreError> {
    if users.iter().any(|u| u.email == record.email) {
        return Err(StoreError::Duplicate);
    }
    let user = User {
        id: users.len() as i32 + 1,
        firstname: String::from(record.firstname),
        lastname: String::from(record.lastname),
        email: String::from(record.email),
        password: String::from(record.password),
    };
    users.push(user.clone());
    Ok(user)
}

fn find_by_email(users: &[User], email: &str) -> Option<User> {
    users.iter().find(|u| u.email == email).cloned()
}

/// Runs a registration against the store in memory.
fn run_register(users: &mut Vec<User>, request: &RegisterRequest) -> Result<Token, Failure> {
    let mut event = RegisterEvent::Requested(request);
    loop {
        match register(event, KEY) {
            RegisterAction::Create { password_hash } => {
                let record = request.new_user(&password_hash);
                event = RegisterEvent::Stored(create(users, record));
            }
            RegisterAction::Reply(reply) => return reply,
        }
    }
}

#[test]
fn login_with_correct_credentials_gives_a_valid_token() {
    let user = stored(1, "ada@example.org", "hunter2");
    let token = login(&credentials("ada@example.org", "hunter2"), Some(user), KEY).unwrap();
    assert_eq!(verify_token(KEY, &token.access_token), Ok(true));
}

#[test]
fn login_with_unknown_email_is_refused() {
    let reply = login(&credentials("nobody@example.org", "hunter2"), None, KEY);
    assert_eq!(reply, Err(Failure::InvalidCredentials));
}

#[test]
fn login_with_wrong_password_is_refused() {
    let user = stored(1, "ada@example.org", "hunter2");
    let reply = login(&credentials("ada@example.org", "hunter3"), Some(user), KEY);
    assert_eq!(reply, Err(Failure::InvalidCredentials));
}

#[test]
fn login_refusals_are_indistinguishable() {
    let user = stored(1, "ada@example.org", "hunter2");
    let wrong_password =
        login(&credentials("ada@example.org", "wrong"), Some(user), KEY).unwrap_err();
    let unknown_email = login(&credentials("nobody@example.org", "wrong"), None, KEY).unwrap_err();
    assert_eq!(wrong_password, unknown_email);
    assert_eq!(wrong_password.kind(), unknown_email.kind());
    assert_eq!(wrong_password.message(), unknown_email.message());
    assert_eq!(wrong_password.kind(), ErrorKind::Unauthenticated);
    assert_eq!(wrong_password.message(), "Invalid email or password");
}

#[test]
fn login_with_malformed_stored_hash_is_refused() {
    let mut user = stored(1, "ada@example.org", "hunter2");
    user.password = String::from("hunter2");
    let reply = login(&credentials("ada@example.org", "hunter2"), Some(user), KEY);
    assert_eq!(reply, Err(Failure::InvalidCredentials));
}

#[test]
fn check_credentials_returns_the_user_found() {
    let user = stored(9, "ada@example.org", "hunter2");
    assert_eq!(check_credentials(Some(user.clone()), "hunter2"), Ok(user.clone()));
    assert_eq!(check_credentials(Some(user), "hunter"), Err(Failure::InvalidCredentials));
    assert_eq!(check_credentials(None, "hunter2"), Err(Failure::InvalidCredentials));
}

#[test]
fn token_reply_keeps_the_token_or_gives_the_refusal() {
    let token = Token { access_token: String::from("t") };
    assert_eq!(token_reply(Ok(token.clone()), Failure::InvalidCredentials), Ok(token));
    assert_eq!(
        token_reply(Err(GenerateTokenError), Failure::InvalidCredentials),
        Err(Failure::InvalidCredentials)
    );
    assert_eq!(
        token_reply(Err(GenerateTokenError), Failure::TokenNotGenerated),
        Err(Failure::TokenNotGenerated)
    );
}

#[test]
fn after_hashing_asks_the_store_or_replies() {
    assert_eq!(
        after_hashing(Ok(String::from("hash"))),
        RegisterAction::Create { password_hash: String::from("hash") }
    );
    assert_eq!(
        after_hashing(Err(HashError)),
        RegisterAction::Reply(Err(Failure::UserNotCreated))
    );
    assert_eq!(Failure::UserNotCreated.kind(), ErrorKind::Unknown);
}

#[test]
fn register_request_asks_the_store_with_a_hash() {
    let request = registration("ada@example.org", "hunter2");
    match register(RegisterEvent::Requested(&request), KEY) {
        RegisterAction::Create { password_hash } => {
            assert_ne!(password_hash, "hunter2");
            assert!(verify_password("hunter2", &password_hash));
        }
        RegisterAction::Reply(reply) => panic!("replied {:?}", reply),
    }
}

#[test]
fn new_user_carries_the_hash_not_the_plaintext() {
    let request = registration("ada@example.org", "hunter2");
    let record = request.new_user("the-hash");
    assert_eq!(
        record,
        NewUser {
            firstname: "Ada",
            lastname: "Lovelace",
            email: "ada@example.org",
            password: "the-hash",
        }
    );
}

#[test]
fn register_replies_with_a_token_for_the_created_user() {
    let user = stored(5, "ada@example.org", "hunter2");
    match register(RegisterEvent::Stored(Ok(user)), KEY) {
        RegisterAction::Reply(Ok(token)) => {
            assert_eq!(verify_token(KEY, &token.access_token), Ok(true));
        }
        other => panic!("did {:?}", other),
    }
}

#[test]
fn register_maps_every_store_failure_to_already_exists() {
    for error in [StoreError::Duplicate, StoreError::Other] {
        let action = register(RegisterEvent::Stored(Err(error)), KEY);
        assert_eq!(action, RegisterAction::Reply(Err(Failure::UserExists)));
    }
    assert_eq!(Failure::UserExists.kind(), ErrorKind::AlreadyExists);
}

#[test]
fn registering_the_same_email_twice() {
    let mut users = Vec::new();
    let request = registration("ada@example.org", "hunter2");
    let first = run_register(&mut users, &request);
    let token = first.unwrap();
    assert_eq!(verify_token(KEY, &token.access_token), Ok(true));
    let second = run_register(&mut users, &request);
    assert_eq!(second, Err(Failure::UserExists));
    assert_eq!(second.unwrap_err().kind(), ErrorKind::AlreadyExists);
    assert_eq!(users.len(), 1);
}

#[test]
fn registered_user_can_log_in() {
    let mut users = Vec::new();
    run_register(&mut users, &registration("ada@example.org", "hunter2")).unwrap();
    let found = find_by_email(&users, "ada@example.org");
    let token = login(&credentials("ada@example.org", "hunter2"), found, KEY).unwrap();
    assert_eq!(verify_token(KEY, &token.access_token), Ok(true));
    let found = find_by_email(&users, "ada@example.org");
    assert_eq!(
        login(&credentials("ada@example.org", "hunter3"), found, KEY),
        Err(Failure::InvalidCredentials)
    );
    let found = find_by_email(&users, "eve@example.org");
    assert_eq!(
        login(&credentials("eve@example.org", "hunter2"), found, KEY),
        Err(Failure::InvalidCredentials)
    );
}
