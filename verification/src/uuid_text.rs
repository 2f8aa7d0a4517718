use vstd::prelude::*;

verus! {

/// The lowercase hexadecimal digit of a nibble.
pub open spec fn hex_digit(n: int) -> char {
    if n < 10 {
        (48 + n) as char
    } else {
        (87 + n) as char
    }
}

/// The `k`-th nibble of a 128-bit value, counting from the most significant.
pub open spec fn nibble(v: u128, k: int) -> int {
    ((v >> ((124 - 4 * k) as u128)) & 15u128) as int
}

/// Position of the hex digit shown at character `i` of the hyphenated form.
pub open spec fn digit_index(i: int) -> int {
    if i < 8 {
        i
    } else if i < 13 {
        i - 1
    } else if i < 18 {
        i - 2
    } else if i < 23 {
        i - 3
    } else {
        i - 4
    }
}

/// The hyphenated lowercase text of a UUID given by its big-endian 128-bit
/// value: 32 hex digits, most significant first, grouped 8-4-4-4-12.
pub open spec fn hyphenated(v: u128) -> Seq<char> {
    Seq::new(
        36,
        |i: int|
            if i == 8 || i == 13 || i == 18 || i == 23 {
                '-'
            } else {
                hex_digit(nibble(v, digit_index(i)))
            },
    )
}

/// A random (version 4, RFC 4122 variant) UUID: version nibble 4, variant bits 10.
pub open spec fn is_v4(v: u128) -> bool {
    &&& (v >> 76u128) & 15u128 == 4
    &&& (v >> 62u128) & 3u128 == 2
}

/// Calls `uuid::Uuid::new_v4` and returns the UUID as its big-endian 128-bit
/// value (`as_u128`). The value is random; the contract claims only what
/// holds of every outcome: the version and variant bits that `new_v4` sets.
#[verifier::external_body]
pub(crate) fn fresh_uuid() -> (r: u128)
    ensures
        is_v4(r),
{
    uuid::Uuid::new_v4().as_u128()
}

/// Calls `uuid::Uuid::from_u128(v).to_string()`; the contract claims the
/// hyphenated lowercase form that the crate's `Display` writes.
#[verifier::external_body]
pub(crate) fn uuid_to_string(v: u128) -> (r: String)
    ensures
        r@ == hyphenated(v),
{
    uuid::Uuid::from_u128(v).to_string()
}

/// A new random UUID, as its big-endian 128-bit value.
pub fn random_uuid() -> (r: u128)
    ensures
        is_v4(r),
{
    fresh_uuid()
}

/// The hyphenated lowercase text of a UUID given by its 128-bit value.
pub fn uuid_string(v: u128) -> (r: String)
    ensures
        r@ == hyphenated(v),
{
    uuid_to_string(v)
}

} // verus!
