use mudzidzi::auth::{LoginRequest, RegisterRequest};
use mudzidzi::error::{AppError, ErrorKind};
use mudzidzi::validation::{validate_email, validate_login, validate_register};

fn register(full_name: &str, email: &str, password: &str, role: &str) -> RegisterRequest {
    RegisterRequest {
        full_name: full_name.to_string(),
        email: email.to_string(),
        password: password.to_string(),
        role: role.to_string(),
    }
}

fn validation_message(r: Result<(), AppError>) -> String {
    let e = r.unwrap_err();
    assert_eq!(e.kind(), ErrorKind::Validation);
    e.message().to_string()
}

#[test]
fn valid_registration_passes() {
    assert!(validate_register(&register("Tariro Moyo", "tariro@example.com", "secret1", "student")).is_ok());
    assert!(validate_register(&register("Mr Dube", "dube@school.zw", "123456", "teacher")).is_ok());
}

#[test]
fn blank_full_name_is_rejected() {
    let r = validate_register(&register(" \t\u{3000} ", "a@b.c", "secret1", "student"));
    assert_eq!(validation_message(r), "Full name is required.");
}

#[test]
fn registration_checks_email_before_password_and_role() {
    let r = validate_register(&register("Tariro", "   ", "x", "admin"));
    assert_eq!(validation_message(r), "Email is required.");
    let r = validate_register(&register("Tariro", "tariro.example.com", "x", "admin"));
    assert_eq!(validation_message(r), "Enter a valid email address.");
}

#[test]
fn short_password_is_rejected_by_bytes() {
    let r = validate_register(&register("Tariro", "a@b.c", "12345", "student"));
    assert_eq!(validation_message(r), "Password must be at least 6 characters.");
    // Three two-byte characters are six bytes long.
    assert!(validate_register(&register("Tariro", "a@b.c", "ééé", "student")).is_ok());
    let r = validate_register(&register("Tariro", "a@b.c", "éé", "student"));
    assert_eq!(validation_message(r), "Password must be at least 6 characters.");
}

#[test]
fn unknown_role_is_rejected() {
    let r = validate_register(&register("Tariro", "a@b.c", "secret1", "Student"));
    assert_eq!(validation_message(r), "Role must be 'student' or 'teacher'.");
}

#[test]
fn email_rules() {
    assert_eq!(validation_message(validate_email("")), "Email is required.");
    assert_eq!(validation_message(validate_email(" \n ")), "Email is required.");
    assert_eq!(validation_message(validate_email("user@domain")), "Enter a valid email address.");
    assert_eq!(validation_message(validate_email("user.domain")), "Enter a valid email address.");
    assert!(validate_email("  a@b.c  ").is_ok());
    assert!(validate_email("@.").is_ok());
}

#[test]
fn login_rules() {
    let ok = LoginRequest { email: "a@b.c".to_string(), password: "x".to_string() };
    assert!(validate_login(&ok).is_ok());
    let empty = LoginRequest { email: "a@b.c".to_string(), password: String::new() };
    assert_eq!(validation_message(validate_login(&empty)), "Password is required.");
    let bad = LoginRequest { email: "nobody".to_string(), password: String::new() };
    assert_eq!(validation_message(validate_login(&bad)), "Enter a valid email address.");
}

#[test]
fn registrable_credentials_also_pass_login_validation() {
    let reg = register("Tariro", "t@x.y", "secret1", "student");
    assert!(validate_register(&reg).is_ok());
    let login = LoginRequest { email: reg.email.clone(), password: reg.password.clone() };
    assert!(validate_login(&login).is_ok());
}

#[test]
fn white_space_around_an_email_is_ignored() {
    for email in ["t@x.y", "", "   ", "tariro", "t@x", "tx.y"] {
        let plain = validate_email(email).map_err(|e| e.message().to_string());
        for (a, b) in [(" ", ""), ("\t\n", " "), ("", "\u{3000}"), ("\u{a0}", "\u{2028}")] {
            let padded = format!("{a}{email}{b}");
            assert_eq!(validate_email(&padded).map_err(|e| e.message().to_string()), plain);
            assert_eq!(validate_email(padded.trim()).map_err(|e| e.message().to_string()), plain);
        }
    }
}
