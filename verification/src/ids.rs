//! Identifiers. The database hands out UUIDs; the library holds each one as
//! the 128-bit number it stands for and turns it to and from text with the
//! `uuid` crate.
use vstd::prelude::*;
use vstd::arithmetic::power::pow;
use crate::text::hex_digit;
use vstd::string::StringSliceAdditionalSpecFns;

verus! {

/// The k-th hexadecimal digit of an identifier, counting from the most
/// significant one (k in 0..32).
pub open spec fn id_nibble(id: u128, k: int) -> int {
    (id as int / pow(16, (31 - k) as nat)) % 16
}

/// Which of the 32 digits stands at position i of the hyphenated text.
pub open spec fn hyphenated_digit_index(i: int) -> int {
    if i < 8 {
        i
    } else if i < 13 {
        i - 1
    } else if i < 18 {
        i - 2
    } else if i < 23 {
        i - 3
    } else {
        i - 4
    }
}

/// The canonical text of an identifier: its 32 lower-case hexadecimal digits,
/// most significant first, in groups of 8-4-4-4-12 joined by hyphens.
pub open spec fn uuid_text(id: u128) -> Seq<char> {
    Seq::new(
        36,
        |i: int|
            if i == 8 || i == 13 || i == 18 || i == 23 {
                '-'
            } else {
                hex_digit(id_nibble(id, hyphenated_digit_index(i)))
            },
    )
}

/// What `uuid::Uuid::parse_str` makes of a text: the identifier it reads, or
/// `None` where it refuses the text.
pub uninterp spec fn uuid_parse_result(text: Seq<char>) -> Option<u128>;

/// `uuid::Uuid::to_string` (the `Display` of `Uuid`) on the identifier with
/// this number. Claimed: the text is the hyphenated lower-case form, as the
/// crate's `Display` writes it.
#[verifier::external_body]
pub(crate) fn uuid_to_string(id: u128) -> (text: String)
    ensures
        text@ == uuid_text(id),
{
    uuid::Uuid::from_u128(id).to_string()
}

/// `uuid::Uuid::parse_str`, the identifier taken as its number. Claimed: the
/// result is `uuid_parse_result` of the text; the canonical text of an
/// identifier reads back as that identifier; a text whose UTF-8 length is not
/// 32, 36, 38 or 45 bytes is refused, as the crate's parser shows.
#[verifier::external_body]
pub(crate) fn parse_uuid(text: &str) -> (id: Option<u128>)
    ensures
        id == uuid_parse_result(text@),
        forall|v: u128| text@ == #[trigger] uuid_text(v) ==> id == Some(v),
        !(text.spec_bytes().len() == 32 || text.spec_bytes().len() == 36
            || text.spec_bytes().len() == 38 || text.spec_bytes().len() == 45) ==> id is None,
{
    uuid::Uuid::parse_str(text).ok().map(|u| u.as_u128())
}

} // verus!
