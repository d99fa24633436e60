//! Identifiers. An identifier is a 128-bit number; its text is written, and a
//! text is read as an identifier, by the `uuid` crate.

use vstd::prelude::*;

use crate::session::hex_digit;

verus! {

#[verifier::external_type_specification]
#[verifier::external_body]
pub struct ExUuidError(uuid::Error);

/// What `uuid::Uuid::parse_str` makes of a text: the identifier it reads,
/// as a number in big-endian order, or nothing where it refuses the text.
pub uninterp spec fn parsed_id(text: Seq<char>) -> Option<u128>;

/// Sixteen to a power.
pub open spec fn sixteen_to(power: nat) -> int
    decreases power,
{
    if power == 0 {
        1
    } else {
        16 * sixteen_to((power - 1) as nat)
    }
}

/// The 32 hexadecimal digits of an identifier, the highest first, in lower
/// case.
pub open spec fn id_digits(id: u128) -> Seq<char> {
    Seq::new(32, |place: int| hex_digit((id as int / sixteen_to((31 - place) as nat)) % 16))
}

/// The text of an identifier, which is the text that `uuid::Uuid` is
/// displayed as: its 32 digits in groups of 8, 4, 4, 4 and 12, with a hyphen
/// between one group and the next.
pub open spec fn id_text(id: u128) -> Seq<char> {
    let digits = id_digits(id);
    digits.subrange(0, 8) + seq!['-'] + digits.subrange(8, 12) + seq!['-'] + digits.subrange(
        12,
        16,
    ) + seq!['-'] + digits.subrange(16, 20) + seq!['-'] + digits.subrange(20, 32)
}

/// Calls `uuid::Uuid::parse_str` and hands the identifier back as the number
/// that `as_u128` gives. Trusted: the result is the crate's reading of the
/// text, an error exactly where the crate has none.
#[verifier::external_body]
pub(crate) fn parse_uuid(text: &str) -> (r: Result<u128, uuid::Error>)
    ensures
        match r {
            Ok(id) => parsed_id(text@) == Some(id),
            Err(_) => parsed_id(text@) is None,
        },
{
    match uuid::Uuid::parse_str(text) {
        Ok(id) => Ok(id.as_u128()),
        Err(error) => Err(error),
    }
}

/// Calls `to_string` on the `uuid::Uuid` that `from_u128` makes of the number.
/// Trusted: the result is the text of the identifier. As the crate's source
/// shows, `from_u128` lays the number out from its highest byte down, and
/// `Display` writes the bytes in that order, two lower-case digits each, with
/// hyphens after the 8th, 12th, 16th and 20th digit. And, as the crate
/// documents of every format it writes, `parse_str` reads that text back as
/// the same identifier.
#[verifier::external_body]
pub(crate) fn format_uuid(id: u128) -> (r: String)
    ensures
        r@ == id_text(id),
        parsed_id(r@) == Some(id),
{
    uuid::Uuid::from_u128(id).to_string()
}

/// Whether an identifier is one that is made from random numbers: of its
/// 128 bits, the four that give the version say 4, and the two that give the
/// variant say that the layout is that of RFC 4122. The other 122 bits are
/// free.
pub open spec fn is_random_id(id: u128) -> bool {
    &&& (id >> 76) & 0xf == 4
    &&& (id >> 62) & 0x3 == 2
}

/// Calls `uuid::Uuid::new_v4`: an identifier from the operating system's
/// random numbers. Trusted: as the crate's source shows, it sets the version
/// to `Random`, which is 4, in the upper half of the seventh byte, and the
/// variant to `RFC4122` in the two highest bits of the ninth; `as_u128`
/// counts the bytes from the highest down. Nothing is claimed of the other
/// bits. The crate panics where the system hands out no random numbers.
#[verifier::external_body]
pub(crate) fn random_uuid() -> (r: u128)
    ensures
        is_random_id(r),
{
    uuid::Uuid::new_v4().as_u128()
}

/// A fresh identifier: a version 4 identifier, from the operating system's
/// random numbers.
pub fn fresh_id() -> (r: u128)
    ensures
        is_random_id(r),
{
    random_uuid()
}

/// Reads a text as an identifier.
pub fn parse_id(text: &str) -> (r: Option<u128>)
    ensures
        r == parsed_id(text@),
{
    match parse_uuid(text) {
        Ok(id) => Some(id),
        Err(_) => None,
    }
}

/// The text of an identifier, as it stands in a confirmation link. Reading
/// it gives the identifier back.
pub fn id_to_string(id: u128) -> (r: String)
    ensures
        r@ == id_text(id),
        parsed_id(r@) == Some(id),
{
    format_uuid(id)
}

} // verus!
