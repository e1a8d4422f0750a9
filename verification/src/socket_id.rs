//! Socket ids: random version-4 UUIDs, held as their 128-bit value.
use vstd::prelude::*;
use crate::wire::hex_digit;

verus! {

/// The four bits of `id` that the `j`-th hexadecimal digit of its text shows,
/// counting from the most significant.
pub open spec fn nibble(id: u128, j: int) -> int {
    ((id >> ((124 - 4 * j) as u128)) & 0xf) as int
}

/// How many of the hyphens of a UUID's text stand before position `i`.
pub open spec fn hyphens_before(i: int) -> int {
    (if i > 8 { 1int } else { 0int }) + (if i > 13 { 1int } else { 0int }) + (if i > 18 {
        1int
    } else {
        0int
    }) + (if i > 23 { 1int } else { 0int })
}

/// The hyphenated, lower-case text of a UUID: 8-4-4-4-12 hexadecimal digits.
pub open spec fn uuid_text(id: u128) -> Seq<char> {
    Seq::new(
        36,
        |i: int|
            if i == 8 || i == 13 || i == 18 || i == 23 {
                '-'
            } else {
                hex_digit(nibble(id, i - hyphens_before(i)))
            },
    )
}

/// Whether `id` carries the version (4, random) and the variant (RFC 4122)
/// of a random UUID.
pub open spec fn is_random_uuid(id: u128) -> bool {
    (id >> 76u128) & 0xf == 4 && (id >> 62u128) & 0x3 == 2
}

/// `uuid::Uuid::new_v4`, as its 128-bit value: random bits with the version
/// and variant of a random UUID set.
#[verifier::external_body]
pub(crate) fn fresh_socket_id() -> (id: u128)
    ensures
        is_random_uuid(id),
{
    uuid::Uuid::new_v4().as_u128()
}

/// `ToString` of `uuid::Uuid::from_u128(id)`: the hyphenated lower-case text.
#[verifier::external_body]
pub(crate) fn socket_id_text(id: u128) -> (r: String)
    ensures
        r@ == uuid_text(id),
{
    uuid::Uuid::from_u128(id).to_string()
}

} // verus!
