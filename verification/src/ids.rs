//! Identifiers. An entity's id is the 128-bit value of its UUID, big-endian
//! (`Uuid::as_u128`); the `uuid` crate formats, parses and draws them.

use vstd::prelude::*;

verus! {

/// The lowercase hexadecimal digit for a value below 16.
pub open spec fn hex_digit(d: u128) -> char {
    if d < 10 {
        (48 + d) as char
    } else {
        (87 + d) as char
    }
}

/// Which nibble (counted from the most significant) stands at position `p`
/// of the hyphenated form.
pub open spec fn nibble_at(p: int) -> int {
    if p < 8 {
        p
    } else if p < 13 {
        p - 1
    } else if p < 18 {
        p - 2
    } else if p < 23 {
        p - 3
    } else {
        p - 4
    }
}

/// The hyphenated lowercase form of a UUID, `xxxxxxxx-xxxx-xxxx-xxxx-xxxxxxxxxxxx`,
/// its 32 hex digits taken from the most significant nibble down.
pub open spec fn uuid_text(id: u128) -> Seq<char> {
    Seq::new(
        36,
        |p: int|
            if p == 8 || p == 13 || p == 18 || p == 23 {
                '-'
            } else {
                hex_digit((id >> ((124 - 4 * nibble_at(p)) as u128)) & 15u128)
            },
    )
}

/// What `Uuid::parse_str` makes of a text: the UUID it denotes, or `None`
/// where the text is no UUID in one of the formats the crate accepts.
pub uninterp spec fn parsed_uuid(text: Seq<char>) -> Option<u128>;

#[verifier::external_type_specification]
#[verifier::external_body]
pub struct ExUuidError(uuid::Error);

/// What `uuid::Error`'s `Display` writes. Nothing is promised of the text.
#[verifier::external_body]
pub(crate) fn uuid_error_text(error: &uuid::Error) -> (r: String) {
    error.to_string()
}

/// `Uuid::from_u128(id).to_string()`: the uuid crate displays a UUID in the
/// hyphenated lowercase form, which `Uuid::parse_str` reads back as the same
/// UUID.
#[verifier::external_body]
pub(crate) fn uuid_to_string(id: u128) -> (r: String)
    ensures
        r@ == uuid_text(id),
        parsed_uuid(r@) == Some(id),
{
    uuid::Uuid::from_u128(id).to_string()
}

/// `Uuid::parse_str`: the UUID a text denotes (as `Uuid::as_u128` gives it),
/// or the parser's error where the text is none.
#[verifier::external_body]
pub(crate) fn parse_uuid_text(text: &str) -> (r: Result<u128, uuid::Error>)
    ensures
        r is Ok <==> parsed_uuid(text@) is Some,
        r matches Ok(id) ==> parsed_uuid(text@) == Some(id),
{
    match uuid::Uuid::parse_str(text) {
        Ok(u) => Ok(u.as_u128()),
        Err(e) => Err(e),
    }
}

/// `Uuid::new_v4().as_u128()`: a freshly drawn random UUID. Nothing is
/// promised of its value.
#[verifier::external_body]
pub(crate) fn fresh_id() -> (r: u128) {
    uuid::Uuid::new_v4().as_u128()
}

} // verus!
