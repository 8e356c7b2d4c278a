//! Password hashing with Argon2id, stored in the PHC string format.

use argon2::password_hash::rand_core::OsRng;
use argon2::password_hash::{PasswordHasher, PasswordVerifier, SaltString};
use vstd::prelude::*;
use vstd::utf8::encode_utf8;

verus! {

/// Whether `password_hash::PasswordHash::new` accepts the text as a PHC string.
pub uninterp spec fn phc_string_parses(hash: Seq<char>) -> bool;

/// Whether `Argon2::default().verify_password` accepts the password (as
/// UTF-8 bytes) against the parsed PHC string.
pub uninterp spec fn argon2_accepts(password: Seq<char>, hash: Seq<char>) -> bool;

/// The most bytes of password that Argon2 takes (`argon2::MAX_PWD_LEN`).
pub open spec fn max_password_bytes() -> nat {
    0xFFFF_FFFF
}

/// The password, as UTF-8 bytes, is short enough for Argon2 to hash.
pub open spec fn hashable(password: Seq<char>) -> bool {
    encode_utf8(password).len() <= max_password_bytes()
}

/// How every hash made with Argon2's default settings begins: algorithm
/// Argon2id, version 0x13, 19 MiB of memory, 2 passes, 1 lane.
pub open spec fn default_argon2id_prefix() -> Seq<char> {
    "$argon2id$v=19$m=19456,t=2,p=1$"@
}

/// The password verifies against the stored hash.
pub open spec fn password_verifies(password: Seq<char>, hash: Seq<char>) -> bool {
    phc_string_parses(hash) && argon2_accepts(password, hash)
}

/// The hashing error of the `password_hash` crate.
#[verifier::external_type_specification]
#[verifier::external_body]
pub struct ExPasswordHashError(argon2::password_hash::Error);

/// Hashes with `Argon2::default().hash_password` and a salt drawn by
/// `SaltString::generate(&mut OsRng)`, and renders the PHC string. The salt
/// is chance, so the text is not stated; what is stated is what the crate's
/// source shows of every result: the text parses as a PHC string, and
/// verifying the same password against it recomputes the same hash with the
/// same salt and parameters, so it succeeds. With the default parameters
/// (32-byte output) and a generated 16-byte salt, the only error the source
/// returns is for a password longer than `MAX_PWD_LEN` bytes. The PHC text
/// it renders starts with the default algorithm (Argon2id), version (19)
/// and parameters (`m=19456,t=2,p=1`), followed by the salt and the hash.
#[verifier::external_body]
fn argon2_hash(plain: &str) -> (r: Result<String, argon2::password_hash::Error>)
    ensures
        r is Ok <==> hashable(plain@),
        r matches Ok(h) ==> phc_string_parses(h@) && argon2_accepts(plain@, h@),
        r matches Ok(h) ==> default_argon2id_prefix().is_prefix_of(h@),
{
    let salt = SaltString::generate(&mut OsRng);
    match argon2::Argon2::default().hash_password(plain.as_bytes(), &salt) {
        Ok(h) => Ok(h.to_string()),
        Err(e) => Err(e),
    }
}

/// Whether `PasswordHash::new` parses the text.
#[verifier::external_body]
fn phc_parses(hash: &str) -> (r: bool)
    ensures
        r == phc_string_parses(hash@),
{
    argon2::password_hash::PasswordHash::new(hash).is_ok()
}

/// Parses the PHC string with `PasswordHash::new` and checks the password
/// against it with `Argon2::default().verify_password`.
#[verifier::external_body]
fn argon2_check(plain: &str, hash: &str) -> (r: bool)
    requires
        phc_string_parses(hash@),
    ensures
        r == argon2_accepts(plain@, hash@),
{
    match argon2::password_hash::PasswordHash::new(hash) {
        Ok(parsed) => argon2::Argon2::default().verify_password(plain.as_bytes(), &parsed).is_ok(),
        Err(_) => false,
    }
}

/// Hashes a plaintext password with Argon2id and a fresh random salt. The
/// result encodes algorithm, parameters, salt and hash together (PHC string
/// format, beginning `$argon2id$v=19$m=19456,t=2,p=1$`), and
/// the same password always verifies against it. Only a password longer
/// than Argon2's limit of `u32::MAX` bytes fails.
pub fn hash_password(plain: &str) -> (r: Result<String, argon2::password_hash::Error>)
    ensures
        r is Ok <==> hashable(plain@),
        r matches Ok(h) ==> password_verifies(plain@, h@),
        r matches Ok(h) ==> default_argon2id_prefix().is_prefix_of(h@),
{
    argon2_hash(plain)
}

/// Verifies a plaintext password against a stored hash. A stored hash that
/// does not parse is indistinguishable from a wrong password: both give `false`.
pub fn verify_password(plain: &str, hash: &str) -> (ok: bool)
    ensures
        ok == password_verifies(plain@, hash@),
{
    if !phc_parses(hash) {
        return false;
    }
    argon2_check(plain, hash)
}

} // verus!
