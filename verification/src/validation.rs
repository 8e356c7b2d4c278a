//! Validation of the register and login payloads, the same rules that the
//! client applies before it sends them.

use vstd::prelude::*;
use vstd::utf8::encode_utf8;

use crate::auth::{LoginRequest, RegisterRequest};
use crate::error::{app_error, fails_with, AppError, ErrorKind};
use crate::text::{blank, has_char, is_blank, is_white_space, same_text, utf8_shorter_than};

verus! {

/// The message an e-mail address is rejected with, if it is.
pub open spec fn email_problem(email: Seq<char>) -> Option<Seq<char>> {
    if blank(email) {
        Some("Email is required."@)
    } else if !email.contains('@') || !email.contains('.') {
        Some("Enter a valid email address."@)
    } else {
        None
    }
}

/// The message a registration is rejected with, if it is. The password is
/// measured in UTF-8 bytes.
pub open spec fn register_problem(
    full_name: Seq<char>,
    email: Seq<char>,
    password: Seq<char>,
    role: Seq<char>,
) -> Option<Seq<char>> {
    if blank(full_name) {
        Some("Full name is required."@)
    } else if email_problem(email) is Some {
        email_problem(email)
    } else if encode_utf8(password).len() < 6 {
        Some("Password must be at least 6 characters."@)
    } else if role != "student"@ && role != "teacher"@ {
        Some("Role must be 'student' or 'teacher'."@)
    } else {
        None
    }
}

/// The message a login is rejected with, if it is.
pub open spec fn login_problem(email: Seq<char>, password: Seq<char>) -> Option<Seq<char>> {
    if email_problem(email) is Some {
        email_problem(email)
    } else if password.len() == 0 {
        Some("Password is required."@)
    } else {
        None
    }
}

/// `r` accepts exactly when there is no problem, and otherwise is a
/// validation error carrying the problem's message.
pub open spec fn judged_by(r: Result<(), AppError>, problem: Option<Seq<char>>) -> bool {
    match problem {
        None => r is Ok,
        Some(m) => fails_with(r, ErrorKind::Validation, m),
    }
}

fn rejected(message: &str) -> (r: Result<(), AppError>)
    ensures
        fails_with(r, ErrorKind::Validation, message@),
{
    Err(app_error(ErrorKind::Validation, message))
}

pub fn validate_register(payload: &RegisterRequest) -> (r: Result<(), AppError>)
    ensures
        judged_by(
            r,
            register_problem(payload.full_name@, payload.email@, payload.password@, payload.role@),
        ),
        r is Ok <==> (!blank(payload.full_name@) && !blank(payload.email@) && payload.email@.contains(
            '@',
        ) && payload.email@.contains('.') && encode_utf8(payload.password@).len() >= 6 && (
        payload.role@ == "student"@ || payload.role@ == "teacher"@)),
{
    proof {
        registration_is_accepted_exactly_when(
            payload.full_name@,
            payload.email@,
            payload.password@,
            payload.role@,
        );
    }
    if is_blank(payload.full_name.as_str()) {
        return rejected("Full name is required.");
    }
    validate_email(payload.email.as_str())?;
    if utf8_shorter_than(payload.password.as_str(), 6) {
        return rejected("Password must be at least 6 characters.");
    }
    if !same_text(payload.role.as_str(), "student") && !same_text(payload.role.as_str(), "teacher") {
        return rejected("Role must be 'student' or 'teacher'.");
    }
    Ok(())
}

pub fn validate_login(payload: &LoginRequest) -> (r: Result<(), AppError>)
    ensures
        judged_by(r, login_problem(payload.email@, payload.password@)),
        r is Ok <==> (!blank(payload.email@) && payload.email@.contains('@') && payload.email@.contains(
            '.',
        ) && payload.password@.len() > 0),
{
    proof {
        login_is_accepted_exactly_when(payload.email@, payload.password@);
    }
    validate_email(payload.email.as_str())?;
    if payload.password.as_str().is_empty() {
        return rejected("Password is required.");
    }
    Ok(())
}

pub fn validate_email(email: &str) -> (r: Result<(), AppError>)
    ensures
        judged_by(r, email_problem(email@)),
{
    if is_blank(email) {
        return rejected("Email is required.");
    }
    if !has_char(email, '@') || !has_char(email, '.') {
        return rejected("Enter a valid email address.");
    }
    Ok(())
}

/// Credentials that pass registration validation also pass login
/// validation: a password of six bytes or more is not empty.
pub proof fn registrable_credentials_pass_login_validation(
    full_name: Seq<char>,
    email: Seq<char>,
    password: Seq<char>,
    role: Seq<char>,
)
    requires
        register_problem(full_name, email, password, role) is None,
    ensures
        login_problem(email, password) is None,
{
    if password.len() == 0 {
        assert(password =~= Seq::<char>::empty());
        assert(encode_utf8(password) =~= Seq::<u8>::empty());
    }
}

proof fn lemma_padding_keeps_contains(before: Seq<char>, text: Seq<char>, after: Seq<char>, c: char)
    requires
        blank(before),
        blank(after),
        !is_white_space(c),
    ensures
        (before + text + after).contains(c) == text.contains(c),
{
    let s = before + text + after;
    let b = before.len();
    if text.contains(c) {
        let k = choose|k: int| 0 <= k < text.len() && text[k] == c;
        assert(s[k + b] == c);
    }
    if s.contains(c) {
        let k = choose|k: int| 0 <= k < s.len() && s[k] == c;
        if k < b {
            assert(s[k] == before[k]);
        } else if k < b + text.len() {
            assert(s[k] == text[k - b]);
        } else {
            assert(s[k] == after[k - b - text.len()]);
        }
    }
}

/// White space around an e-mail address changes nothing in how it is
/// judged: padded with white space on either side, or trimmed of it, the
/// address is rejected with the same message or accepted alike.
pub proof fn white_space_around_email_is_ignored(before: Seq<char>, email: Seq<char>, after: Seq<char>)
    requires
        blank(before),
        blank(after),
    ensures
        email_problem(before + email + after) == email_problem(email),
{
    let s = before + email + after;
    let b = before.len();
    if blank(email) {
        assert forall|i: int| 0 <= i < s.len() implies is_white_space(#[trigger] s[i]) by {
            if i < b {
                assert(s[i] == before[i]);
            } else if i < b + email.len() {
                assert(s[i] == email[i - b]);
            } else {
                assert(s[i] == after[i - b - email.len()]);
            }
        }
    }
    if blank(s) {
        assert forall|i: int| 0 <= i < email.len() implies is_white_space(#[trigger] email[i]) by {
            assert(s[i + b] == email[i]);
        }
    }
    lemma_padding_keeps_contains(before, email, after, '@');
    lemma_padding_keeps_contains(before, email, after, '.');
}

/// A registration is accepted exactly when the full name is not blank, the
/// e-mail address is not blank and holds an '@' and a '.', the password is
/// six bytes of UTF-8 or more (however long beyond that), and the role is
/// "student" or "teacher". Checked in that order, a password under six
/// bytes is the first thing wrong with an otherwise well-formed request.
pub proof fn registration_is_accepted_exactly_when(
    full_name: Seq<char>,
    email: Seq<char>,
    password: Seq<char>,
    role: Seq<char>,
)
    ensures
        register_problem(full_name, email, password, role) is None <==> (!blank(full_name) && !blank(
            email,
        ) && email.contains('@') && email.contains('.') && encode_utf8(password).len() >= 6 && (role
            == "student"@ || role == "teacher"@)),
        !blank(full_name) && !blank(email) && email.contains('@') && email.contains('.')
            && encode_utf8(password).len() < 6 ==> register_problem(full_name, email, password, role)
            == Some("Password must be at least 6 characters."@),
        !blank(full_name) && !blank(email) && email.contains('@') && email.contains('.')
            && encode_utf8(password).len() >= 6 && role != "student"@ && role != "teacher"@
            ==> register_problem(full_name, email, password, role) == Some(
            "Role must be 'student' or 'teacher'."@,
        ),
{
}

/// A login is accepted exactly when the e-mail address is not blank and
/// holds an '@' and a '.', and the password is not empty.
pub proof fn login_is_accepted_exactly_when(email: Seq<char>, password: Seq<char>)
    ensures
        login_problem(email, password) is None <==> (!blank(email) && email.contains('@')
            && email.contains('.') && password.len() > 0),
{
}

} // verus!
