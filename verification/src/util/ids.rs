//! Identifiers: random version-4 UUIDs and their canonical text, through the
//! `uuid` crate. A UUID is carried as its 128-bit big-endian value.
use vstd::prelude::*;

verus! {

/// The lowercase hexadecimal digit for `d` (0..=15).
pub open spec fn hex_digit(d: int) -> char {
    if d < 10 {
        (0x30 + d) as char
    } else {
        (0x61 + d - 10) as char
    }
}

/// Nibble `k` of `id`, counting from the most significant (0..=31).
pub open spec fn uuid_nibble(id: u128, k: int) -> int {
    ((id >> ((31 - k) * 4) as u128) & 0xFu128) as int
}

/// The 32 hex digits of `id`, most significant first.
pub open spec fn uuid_hex(id: u128) -> Seq<char> {
    Seq::new(32, |k: int| hex_digit(uuid_nibble(id, k)))
}

/// The canonical hyphenated lowercase text of `id` (8-4-4-4-12 digits).
pub open spec fn uuid_text(id: u128) -> Seq<char> {
    let h = uuid_hex(id);
    h.subrange(0, 8) + seq!['-'] + h.subrange(8, 12) + seq!['-'] + h.subrange(12, 16) + seq!['-']
        + h.subrange(16, 20) + seq!['-'] + h.subrange(20, 32)
}

/// Whether `id` carries the version-4 and RFC 4122 variant bits.
pub open spec fn is_v4(id: u128) -> bool {
    id & 0x0000_0000_0000_F000_C000_0000_0000_0000u128 == 0x0000_0000_0000_4000_8000_0000_0000_0000u128
}

/// Calls `uuid::Uuid::new_v4`: a random UUID whose version nibble is 4 and
/// whose variant bits are `10`. Nothing else is claimed of the value.
#[verifier::external_body]
pub(crate) fn new_uuid() -> (id: u128)
    ensures
        is_v4(id),
{
    uuid::Uuid::new_v4().as_u128()
}

/// Calls `uuid::Uuid::from_u128(id).to_string()`: the hyphenated lowercase
/// form, as the crate documents it.
#[verifier::external_body]
pub(crate) fn uuid_to_string(id: u128) -> (s: String)
    ensures
        s@ == uuid_text(id),
{
    uuid::Uuid::from_u128(id).to_string()
}

} // verus!
