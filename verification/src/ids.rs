//! UUIDs as the library reads them from text and writes them as text.

use vstd::arithmetic::power2::pow2;
use vstd::prelude::*;

verus! {

/// What `uuid::Uuid::parse_str` makes of a text, as the UUID's 128-bit value
/// (`None` where it rejects the text).
pub uninterp spec fn parsed_uuid(s: Seq<char>) -> Option<u128>;

/// Calls `uuid::Uuid::parse_str` and hands back the UUID's value, or `None`
/// where the parser returns an error. The contract names the result; of the
/// accepted formats (plain, hyphenated, braced, URN) it claims nothing.
#[verifier::external_body]
pub(crate) fn parse_uuid(s: &str) -> (r: Option<u128>)
    ensures
        r == parsed_uuid(s@),
{
    match uuid::Uuid::parse_str(s) {
        Ok(u) => Some(u.as_u128()),
        Err(_) => None,
    }
}

/// The lowercase hexadecimal digit for a value below 16.
pub open spec fn hex_digit(d: int) -> char {
    if d < 10 {
        (48 + d) as char
    } else {
        (87 + d) as char
    }
}

/// The 32 hexadecimal digits of a 128-bit value, most significant first.
pub open spec fn hex_digits(v: u128) -> Seq<char> {
    Seq::new(32, |i: int| hex_digit(((v as nat) / pow2((4 * (31 - i)) as nat)) as int % 16))
}

/// A UUID written in its hyphenated form, `8-4-4-4-12` lowercase hexadecimal
/// digits, most significant first.
pub open spec fn uuid_text_of(v: u128) -> Seq<char> {
    let h = hex_digits(v);
    h.subrange(0, 8) + "-"@ + h.subrange(8, 12) + "-"@ + h.subrange(12, 16) + "-"@
        + h.subrange(16, 20) + "-"@ + h.subrange(20, 32)
}

/// Calls `uuid::Uuid::from_u128` and writes the UUID with `to_string`, whose
/// `Display` is the lowercase hyphenated form of the value's big-endian bytes.
/// `Uuid::parse_str` reads that form back to the same value.
#[verifier::external_body]
pub fn uuid_text(v: u128) -> (r: String)
    ensures
        r@ == uuid_text_of(v),
        parsed_uuid(r@) == Some(v),
{
    uuid::Uuid::from_u128(v).to_string()
}

} // verus!
