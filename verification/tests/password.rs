use auth_core::password::{hash_password, verify_password, HashError, HASH_COST};

#[test]
fn work_factor_is_ten() {
    assert_eq!(HASH_COST, 10);
}

#[test]
fn hash_matches_its_password() {
    let hash = hash_password("hunter2").unwrap();
    assert!(verify_password("hunter2", &hash));
}

#[test]
fn hash_is_not_the_plaintext() {
    let hash = hash_password("hunter2").unwrap();
    assert_ne!(hash, "hunter2");
    assert!(hash.starts_with("$2b$10$"));
    assert_eq!(hash.len(), 60);
}

#[test]
fn hash_is_salted() {
    let first = hash_password("hunter2").unwrap();
    let second = hash_password("hunter2").unwrap();
    assert_ne!(first, second);
    assert!(verify_password("hunter2", &first));
    assert!(verify_password("hunter2", &second));
}

#[test]
fn wrong_password_does_not_match() {
    let hash = hash_password("hunter2").unwrap();
    assert!(!verify_password("hunter3", &hash));
    assert!(!verify_password("", &hash));
}

#[test]
fn known_hash_is_verified() {
    let hash = "$2a$04$UuTkLRZZ6QofpDOlMz32MuuxEHA43WOemOYHPz6.SjsVsyO1tDU96";
    assert!(verify_password("password", hash));
    assert!(!verify_password("Password", hash));
}

#[test]
fn malformed_hash_is_no_match() {
    assert!(!verify_password("password", ""));
    assert!(!verify_password("password", "password"));
    assert!(!verify_password("password", "$2a$04$tjARW6ZON3PhrAIRW2LG/u9a."));
    assert!(!verify_password("password", "$9z$04$UuTkLRZZ6QofpDOlMz32MuuxEHA43WOemOYHPz6.SjsVsyO1tDU96"));
    assert!(!verify_password("password", "$2a$xx$UuTkLRZZ6QofpDOlMz32MuuxEHA43WOemOYHPz6.SjsVsyO1tDU96"));
}

#[test]
fn empty_password_can_be_hashed() {
    let hash = hash_password("").unwrap();
    assert!(verify_password("", &hash));
    assert!(!verify_password("x", &hash));
}

#[test]
fn hash_error_is_a_plain_value() {
    assert_eq!(HashError, HashError);
}
