//! Identifiers of tracked titles: 128-bit values written as 32 hexadecimal
//! digits in five groups.

use vstd::prelude::*;
use uuid::Uuid;

verus! {

/// What `Uuid::parse_str` makes of a text: the 128-bit value that the text
/// names, or nothing where the text names none.
pub uninterp spec fn uuid_parse_str(text: Seq<char>) -> Option<u128>;

/// The lower-case hexadecimal digit of a value below sixteen.
pub open spec fn hex_digit(value: u128) -> char {
    "0123456789abcdef"@[value as int]
}

/// The hexadecimal digit of `value` at `place`, counted from the most
/// significant of its 32 digits.
pub open spec fn nibble(value: u128, place: int) -> u128 {
    (value >> (((31 - place) * 4) as u128)) & 0xf
}

/// The number of hyphens that stand before position `at` of the canonical
/// text.
pub open spec fn hyphens_before(at: int) -> int {
    (if at > 8 { 1int } else { 0 }) + (if at > 13 { 1int } else { 0 })
        + (if at > 18 { 1int } else { 0 }) + (if at > 23 { 1int } else { 0 })
}

/// The canonical text of an identifier: its 32 lower-case hexadecimal
/// digits, most significant first, in groups of 8, 4, 4, 4 and 12 with a
/// hyphen between two groups.
pub open spec fn hyphenated(value: u128) -> Seq<char> {
    Seq::new(
        36,
        |at: int|
            if at == 8 || at == 13 || at == 18 || at == 23 {
                '-'
            } else {
                hex_digit(nibble(value, at - hyphens_before(at)))
            },
    )
}

/// The marks that every freshly minted identifier carries: version 4 in the
/// thirteenth digit, and the two highest bits of the seventeenth set to
/// one and zero.
pub open spec fn is_random_version(value: u128) -> bool {
    &&& (value >> 76) & 0xf == 4
    &&& (value >> 62) & 0x3 == 2
}

/// Reads an identifier from a text.
///
/// Calls `Uuid::parse_str` and takes the value of what it returns with
/// `Uuid::as_u128`. The contract gives the outcome a name and claims
/// nothing else of it.
#[verifier::external_body]
pub(crate) fn parse_uuid(text: &str) -> (value: Option<u128>)
    ensures
        value == uuid_parse_str(text@),
{
    match Uuid::parse_str(text) {
        Ok(id) => Some(id.as_u128()),
        Err(_) => None,
    }
}

/// Writes an identifier in its canonical form.
///
/// Calls `to_string` on the `Uuid` made by `Uuid::from_u128`. The contract
/// claims that the text is the hyphenated lower-case form of the value.
#[verifier::external_body]
pub(crate) fn uuid_text(value: u128) -> (text: String)
    ensures
        text@ == hyphenated(value),
{
    Uuid::from_u128(value).to_string()
}

/// Mints a fresh random identifier.
///
/// Calls `Uuid::new_v4`. The contract claims only the version and variant
/// marks, which every outcome carries.
#[verifier::external_body]
pub(crate) fn new_v4() -> (value: u128)
    ensures
        is_random_version(value),
{
    Uuid::new_v4().as_u128()
}

} // verus!
