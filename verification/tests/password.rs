use mudzidzi::auth::{check_login, registration_password_hash, UserRecord};
use mudzidzi::error::ErrorKind;
use mudzidzi::password::{hash_password, verify_password};

#[test]
fn a_password_verifies_against_its_own_hash() {
    let h = hash_password("correct horse").unwrap();
    assert!(h.starts_with("$argon2id$"));
    assert!(verify_password("correct horse", &h));
    assert!(!verify_password("wrong horse", &h));
}

#[test]
fn hashes_are_salted() {
    let a = hash_password("secret1").unwrap();
    let b = hash_password("secret1").unwrap();
    assert_ne!(a, b);
    assert!(verify_password("secret1", &a) && verify_password("secret1", &b));
}

#[test]
fn a_malformed_hash_never_verifies() {
    assert!(!verify_password("secret1", ""));
    assert!(!verify_password("secret1", "not-a-phc-string"));
}

fn user(hash: &str) -> UserRecord {
    UserRecord {
        id: 7,
        email: "t@x.y".to_string(),
        password_hash: hash.to_string(),
        full_name: "Tariro".to_string(),
        role: "student".to_string(),
    }
}

#[test]
fn login_needs_an_account_and_the_right_password() {
    let h = registration_password_hash("secret1").unwrap();
    let ok = check_login(Some(user(&h)), "secret1").unwrap();
    assert_eq!(ok.id, 7);
    let e = check_login(Some(user(&h)), "secret2").unwrap_err();
    assert_eq!(e.kind(), ErrorKind::Unauthorized);
    assert_eq!(e.message(), "Incorrect email or password.");
    let e = check_login(None, "secret1").unwrap_err();
    assert_eq!(e.message(), "Incorrect email or password.");
}

#[test]
fn hashes_use_argon2id_with_the_default_parameters() {
    let h = hash_password("secret1").unwrap();
    assert!(h.starts_with("$argon2id$v=19$m=19456,t=2,p=1$"));
    let h = registration_password_hash("secret1").unwrap();
    assert!(h.starts_with("$argon2id$v=19$m=19456,t=2,p=1$"));
}
