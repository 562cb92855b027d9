//! Department, user and server ids: 128-bit values that are read and written
//! as UUID text by the uuid crate.
use vstd::prelude::*;

verus! {

/// What `uuid::Uuid::parse_str` yields for a text, as the `u128` of the id.
pub uninterp spec fn uuid_parse(s: Seq<char>) -> Option<u128>;

/// Calls `uuid::Uuid::parse_str`; an id is returned as its `u128`, an error
/// as `None`. The contract names the result: which texts are ids is left to
/// the uuid crate.
#[verifier::external_body]
pub(crate) fn parse_uuid(s: &str) -> (r: Option<u128>)
    ensures
        r == uuid_parse(s@),
{
    uuid::Uuid::parse_str(s).ok().map(|u| u.as_u128())
}

/// A lowercase hexadecimal digit.
pub open spec fn hex_digit(n: int) -> char {
    if n < 10 {
        (48 + n) as char
    } else {
        (87 + n) as char
    }
}

/// The `k`-th hexadecimal digit of an id, from the most significant.
pub open spec fn id_digit(id: u128, k: int) -> char {
    hex_digit((id as int / vstd::arithmetic::power::pow(16, (31 - k) as nat)) % 16)
}

/// The hyphenated lowercase text of an id: 32 hex digits from the most
/// significant, in groups of 8, 4, 4, 4 and 12 joined by `-`.
pub open spec fn uuid_text_of(id: u128) -> Seq<char> {
    Seq::new(
        36,
        |i: int|
            if i == 8 || i == 13 || i == 18 || i == 23 {
                '-'
            } else {
                id_digit(
                    id,
                    i - (if i < 8 {
                        0int
                    } else if i < 13 {
                        1
                    } else if i < 18 {
                        2
                    } else if i < 23 {
                        3
                    } else {
                        4
                    }),
                )
            },
    )
}

/// Writes an id as `uuid::Uuid`'s `Display` does: its hyphenated lowercase
/// form (see `uuid_text_of`), as the uuid crate documents and formats it.
#[verifier::external_body]
pub(crate) fn uuid_text(id: u128) -> (r: String)
    ensures
        r@ == uuid_text_of(id),
{
    uuid::Uuid::from_u128(id).to_string()
}

} // verus!
