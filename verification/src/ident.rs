//! Email identifiers as text.

use vstd::prelude::*;
use crate::text::digit_char;

verus! {

/// The lower-case hexadecimal digit of a value below 16.
pub open spec fn hex_char(v: int) -> char {
    if v < 10 {
        digit_char(v)
    } else if v == 10 {
        'a'
    } else if v == 11 {
        'b'
    } else if v == 12 {
        'c'
    } else if v == 13 {
        'd'
    } else if v == 14 {
        'e'
    } else {
        'f'
    }
}

/// 16 to the power `e`.
pub open spec fn pow16(e: nat) -> int
    decreases e,
{
    if e == 0 {
        1
    } else {
        16 * pow16((e - 1) as nat)
    }
}

/// The hexadecimal digit of `id` at position `k` of 32, the most
/// significant being at position 0.
pub open spec fn hex_digit_at(id: u128, k: int) -> char {
    hex_char(((id as int) / pow16((31 - k) as nat)) % 16)
}

/// The number of hyphens before position `i` of a hyphenated identifier.
pub open spec fn hyphens_before(i: int) -> int {
    if i < 8 {
        0
    } else if i < 13 {
        1
    } else if i < 18 {
        2
    } else if i < 23 {
        3
    } else {
        4
    }
}

/// The text of an identifier: its 32 hexadecimal digits in lower case, in
/// groups of 8, 4, 4, 4 and 12 with hyphens between them.
pub open spec fn uuid_text(id: u128) -> Seq<char> {
    Seq::new(
        36,
        |i: int|
            if i == 8 || i == 13 || i == 18 || i == 23 {
                '-'
            } else {
                hex_digit_at(id, i - hyphens_before(i))
            },
    )
}

/// `Uuid::from_u128` followed by `Uuid::to_string`: the hyphenated
/// lower-case text of the UUID whose big-endian value is `id`.
#[verifier::external_body]
pub(crate) fn uuid_string(id: u128) -> (t: String)
    ensures
        t@ == uuid_text(id),
{
    uuid::Uuid::from_u128(id).to_string()
}

} // verus!
