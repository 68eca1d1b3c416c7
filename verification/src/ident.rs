//! Identifiers of todos: 128-bit values, generated at random and written as
//! 32 hexadecimal digits in five hyphenated groups.

use vstd::prelude::*;

verus! {

/// The bits that tell how an identifier was made: the version digit and the
/// two variant bits.
pub const TAG_MASK: u128 = 0x0000_0000_0000_f000_c000_0000_0000_0000;

/// What those bits hold in a randomly generated identifier: version 4 and
/// the standard variant.
pub const RANDOM_TAG: u128 = 0x0000_0000_0000_4000_8000_0000_0000_0000;

/// Whether `id` is marked as a randomly generated identifier.
pub open spec fn is_random_id(id: u128) -> bool {
    id & TAG_MASK == RANDOM_TAG
}

/// The digits of the hexadecimal notation, in lower case.
pub const HEX_DIGITS: &'static str = "0123456789abcdef";

/// The `i`-th of the 32 hexadecimal digits of `id`, the most significant
/// first.
pub open spec fn hex_digit(id: u128, i: int) -> int {
    ((id >> ((4 * (31 - i)) as u128)) & 0xf) as int
}

/// How many hyphens stand before position `k` of an identifier's text.
pub open spec fn hyphens_before(k: int) -> int {
    if k < 8 {
        0
    } else if k < 13 {
        1
    } else if k < 18 {
        2
    } else if k < 23 {
        3
    } else {
        4
    }
}

/// The text form of an identifier: its 32 hexadecimal digits in lower case,
/// the most significant first, in groups of 8, 4, 4, 4 and 12 digits with a
/// hyphen between two groups.
pub open spec fn id_text(id: u128) -> Seq<char> {
    Seq::new(
        36,
        |k: int|
            if k == 8 || k == 13 || k == 18 || k == 23 {
                '-'
            } else {
                HEX_DIGITS@[hex_digit(id, k - hyphens_before(k))]
            },
    )
}

/// Generates a new identifier.
///
/// Trusted: calls `uuid::Uuid::new_v4` and takes the value out with
/// `Uuid::as_u128`. The value is random; `new_v4` overwrites the version
/// digit and the variant bits of what the generator gave it, and only that is
/// claimed here. `uuid` panics if the operating system hands out no random
/// bytes.
#[verifier::external_body]
pub(crate) fn fresh_id() -> (id: u128)
    ensures
        is_random_id(id),
{
    uuid::Uuid::new_v4().as_u128()
}

/// Writes an identifier out.
///
/// Trusted: calls `Display` of `uuid::Uuid` (through `to_string`) on
/// `Uuid::from_u128(id)`. `uuid` documents that `Display` writes the
/// hyphenated form in lower case, and that `from_u128` keeps the value's
/// digits in their order; [`id_text`] says the same.
#[verifier::external_body]
pub(crate) fn write_id(id: u128) -> (text: String)
    ensures
        text@ == id_text(id),
{
    uuid::Uuid::from_u128(id).to_string()
}

/// An identifier marked as randomly generated is never the all-zero one.
pub proof fn lemma_random_id_is_not_nil(id: u128)
    requires
        is_random_id(id),
    ensures
        id != 0,
{
    assert(id & TAG_MASK == RANDOM_TAG ==> id != 0) by (bit_vector)
        requires
            TAG_MASK == 0x0000_0000_0000_f000_c000_0000_0000_0000u128,
            RANDOM_TAG == 0x0000_0000_0000_4000_8000_0000_0000_0000u128,
    ;
}

} // verus!
