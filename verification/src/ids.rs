//! Identifiers and clock readings, taken from `uuid` and `chrono`.

use vstd::prelude::*;

verus! {

/// The lower-case hexadecimal digit for a value below 16.
pub open spec fn hex_digit_lower(n: u128) -> char {
    if n < 10 {
        ((n + 48) as u8) as char
    } else {
        ((n + 87) as u8) as char
    }
}

/// The `k`-th hexadecimal digit of `id`, counted from the most significant.
pub open spec fn uuid_nibble(id: u128, k: int) -> u128 {
    (id >> ((4 * (31 - k)) as u128)) & 15
}

/// How many hyphens stand before position `p` of the hyphenated form.
pub open spec fn hyphens_before(p: int) -> int {
    if p <= 8 {
        0
    } else if p <= 13 {
        1
    } else if p <= 18 {
        2
    } else if p <= 23 {
        3
    } else {
        4
    }
}

/// The hyphenated lower-case text of a UUID (8-4-4-4-12 hexadecimal digits).
pub open spec fn uuid_text(id: u128) -> Seq<char> {
    Seq::new(
        36,
        |p: int|
            if p == 8 || p == 13 || p == 18 || p == 23 {
                '-'
            } else {
                hex_digit_lower(uuid_nibble(id, p - hyphens_before(p)))
            },
    )
}

/// A fresh random (version 4) UUID as its 128-bit big-endian value
/// (`uuid::Uuid::new_v4` then `as_u128`). The value is random: only its
/// version nibble (4) and its variant bits (binary 10) are fixed.
#[verifier::external_body]
pub(crate) fn new_uuid() -> (id: u128)
    ensures
        (id >> 76u128) & 15 == 4,
        (id >> 62u128) & 3 == 2,
{
    uuid::Uuid::new_v4().as_u128()
}

/// The hyphenated lower-case text of a UUID (`Display` of `uuid::Uuid`).
#[verifier::external_body]
pub(crate) fn uuid_to_string(id: u128) -> (r: String)
    ensures
        r@ == uuid_text(id),
{
    uuid::Uuid::from_u128(id).to_string()
}

/// Whether a 128-bit value is a version 4 (random) UUID of the RFC 4122
/// variant.
pub open spec fn is_v4_uuid(id: u128) -> bool {
    (id >> 76u128) & 15 == 4 && (id >> 62u128) & 3 == 2
}

/// The text of a fresh random UUID.
pub fn new_uuid_string() -> (r: String)
    ensures
        exists|id: u128| is_v4_uuid(id) && r@ == #[trigger] uuid_text(id),
        r@.len() == 36,
{
    let id = new_uuid();
    uuid_to_string(id)
}

/// The current time as whole seconds since the Unix epoch
/// (`chrono::Utc::now().timestamp()`). It reads the clock, so nothing
/// is stated of the value.
#[verifier::external_body]
pub(crate) fn now_timestamp() -> i64 {
    chrono::Utc::now().timestamp()
}

} // verus!
