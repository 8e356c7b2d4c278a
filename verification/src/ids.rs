//! Identifiers: users, students and refresh sessions are named by 128-bit
//! UUIDs, written in their canonical hyphenated lower-case form.

use vstd::prelude::*;

verus! {

/// `16^e`.
pub open spec fn pow16(e: nat) -> nat
    decreases e,
{
    if e == 0 {
        1
    } else {
        16 * pow16((e - 1) as nat)
    }
}

/// The lower-case hexadecimal digit for a value below 16.
pub open spec fn hex_char(v: int) -> char {
    seq!['0', '1', '2', '3', '4', '5', '6', '7', '8', '9', 'a', 'b', 'c', 'd', 'e', 'f'][v]
}

/// The 32 hexadecimal digits of an id, most significant first.
pub open spec fn hex_digits(id: u128) -> Seq<char> {
    Seq::new(32, |k: int| hex_char(((id as nat) / pow16((31 - k) as nat)) as int % 16))
}

/// The canonical text of an id: its digits in groups of 8, 4, 4, 4 and 12,
/// joined by hyphens.
pub open spec fn hyphenated(id: u128) -> Seq<char> {
    let d = hex_digits(id);
    d.subrange(0, 8) + seq!['-'] + d.subrange(8, 12) + seq!['-'] + d.subrange(12, 16) + seq!['-']
        + d.subrange(16, 20) + seq!['-'] + d.subrange(20, 32)
}

/// The id that `uuid::Uuid::parse_str` reads from a text, if it reads one.
pub uninterp spec fn parsed_uuid(text: Seq<char>) -> Option<u128>;

/// Writes an id the way `uuid::Uuid`'s `Display` (`to_string`) does: the
/// hyphenated lower-case form. The uuid source also shows that
/// `Uuid::parse_str` reads that form back to the same id.
#[verifier::external_body]
pub(crate) fn uuid_text(id: u128) -> (s: String)
    ensures
        s@ == hyphenated(id),
        parsed_uuid(s@) == Some(id),
{
    uuid::Uuid::from_u128(id).to_string()
}

/// Reads an id with `uuid::Uuid::parse_str` (which accepts the simple,
/// hyphenated, braced and URN forms, in either case); `None` where it
/// reports an error.
#[verifier::external_body]
pub(crate) fn parse_uuid(text: &str) -> (r: Option<u128>)
    ensures
        r == parsed_uuid(text@),
{
    match uuid::Uuid::parse_str(text) {
        Ok(id) => Some(id.as_u128()),
        Err(_) => None,
    }
}

/// The version field of a random (version 4) UUID.
pub const VERSION_MASK: u128 = 0x0000_0000_0000_f000_0000_0000_0000_0000;

/// The variant field of an RFC 4122 UUID.
pub const VARIANT_MASK: u128 = 0x0000_0000_0000_0000_c000_0000_0000_0000;

/// A random (version 4) RFC 4122 id: its version field is 4 and its
/// variant field is `10`.
pub open spec fn random_v4(id: u128) -> bool {
    &&& id & VERSION_MASK == 0x0000_0000_0000_4000_0000_0000_0000_0000
    &&& id & VARIANT_MASK == 0x0000_0000_0000_0000_8000_0000_0000_0000
}

/// A fresh random id from `uuid::Uuid::new_v4`. Its value is chance; the
/// crate's source sets its version field to 4 and its variant field to the
/// RFC 4122 variant, which is all that is stated.
#[verifier::external_body]
pub(crate) fn new_random_id() -> (id: u128)
    ensures
        random_v4(id),
{
    uuid::Uuid::new_v4().as_u128()
}

} // verus!
