//! Identifiers: 128-bit UUIDs and their text form.

use vstd::prelude::*;

verus! {

/// Lower-case hexadecimal digit of `n` (0 to 15).
pub open spec fn hex_digit(n: int) -> char {
    if n < 10 {
        (('0' as int) + n) as char
    } else {
        (('a' as int) + n - 10) as char
    }
}

/// The last `count` hexadecimal digits of `x`, most significant first.
pub open spec fn hex_digits(x: nat, count: nat) -> Seq<char>
    decreases count,
{
    if count == 0 {
        Seq::empty()
    } else {
        hex_digits(x / 16, (count - 1) as nat).push(hex_digit((x % 16) as int))
    }
}

/// The hyphenated lower-case form of a UUID, as `Uuid`'s `Display` writes
/// it: 32 hexadecimal digits in groups of 8, 4, 4, 4 and 12.
pub open spec fn uuid_text(id: u128) -> Seq<char> {
    let h = hex_digits(id as nat, 32);
    h.subrange(0, 8) + seq!['-'] + h.subrange(8, 12) + seq!['-'] + h.subrange(12, 16) + seq!['-']
        + h.subrange(16, 20) + seq!['-'] + h.subrange(20, 32)
}

/// The UUID that `Uuid::parse_str` reads from a text (it accepts the
/// simple, hyphenated, braced and URN forms, in either case).
pub uninterp spec fn uuid_parse(text: Seq<char>) -> Option<u128>;

/// `Uuid::to_string` of the UUID `id`, which `Uuid::parse_str` reads back.
#[verifier::external_body]
fn uuid_to_string(id: u128) -> (s: String)
    ensures
        s@ == uuid_text(id),
        uuid_parse(s@) == Some(id),
{
    uuid::Uuid::from_u128(id).to_string()
}

/// `Uuid::parse_str`, giving the UUID as a 128-bit number.
#[verifier::external_body]
fn uuid_parse_str(text: &str) -> (r: Option<u128>)
    ensures
        r == uuid_parse(text@),
{
    match uuid::Uuid::parse_str(text) {
        Ok(u) => Some(u.as_u128()),
        Err(_) => None,
    }
}

/// `Uuid::new_v4()`: a fresh random identifier.
#[verifier::external_body]
pub(crate) fn new_id() -> (id: u128) {
    uuid::Uuid::new_v4().as_u128()
}

/// The text form of an identifier (the GraphQL `ID` of an entity).
pub fn format_id(id: u128) -> (s: String)
    ensures
        s@ == uuid_text(id),
        uuid_parse(s@) == Some(id),
{
    uuid_to_string(id)
}

/// The identifier written in `text`, if it is a UUID.
pub fn parse_id(text: &str) -> (r: Option<u128>)
    ensures
        r == uuid_parse(text@),
{
    uuid_parse_str(text)
}

/// An optional identifier in text form.
pub fn format_opt_id(id: Option<u128>) -> (s: Option<String>)
    ensures
        s is Some <==> id is Some,
        s matches Some(t) ==> t@ == uuid_text(id->0),
{
    match id {
        Some(i) => Some(format_id(i)),
        None => None,
    }
}

} // verus!
