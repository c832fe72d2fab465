//! Identifiers of records, users and API keys.
//!
//! An identifier is a UUID, held here as the 128-bit number that it is
//! (most significant byte first, as `Uuid::from_u128` reads it).
use vstd::prelude::*;

verus! {

/// 16 to the power `e`.
pub open spec fn pow16(e: nat) -> nat
    decreases e,
{
    if e == 0 {
        1
    } else {
        16 * pow16((e - 1) as nat)
    }
}

/// The lower-case hexadecimal digit of `n` (0 <= n < 16).
pub open spec fn hex_digit(n: int) -> char {
    if n < 10 {
        (48 + n) as char
    } else {
        (87 + n) as char
    }
}

/// The `k`-th hexadecimal digit of `v`, counting from the most significant one.
pub open spec fn nibble(v: u128, k: int) -> int {
    (v as int / pow16((31 - k) as nat) as int) % 16
}

/// Which hexadecimal digit of the value stands at position `i` of the hyphenated text.
pub open spec fn digit_position(i: int) -> int {
    if i < 8 {
        i
    } else if i < 13 {
        i - 1
    } else if i < 18 {
        i - 2
    } else if i < 23 {
        i - 3
    } else {
        i - 4
    }
}

/// Whether position `i` of the hyphenated text holds a hyphen.
pub open spec fn is_hyphen_position(i: int) -> bool {
    i == 8 || i == 13 || i == 18 || i == 23
}

/// The hyphenated lower-case text of a UUID: 32 hexadecimal digits in groups of
/// 8, 4, 4, 4 and 12, separated by hyphens.
pub open spec fn uuid_text(v: u128) -> Seq<char> {
    Seq::new(
        36,
        |i: int|
            if is_hyphen_position(i) {
                '-'
            } else {
                hex_digit(nibble(v, digit_position(i)))
            },
    )
}

/// The bits that mark a random UUID: version 4 (bits 76 to 79) and the
/// RFC 4122 variant (bits 62 and 63 are `10`).
pub open spec fn is_random_uuid(id: u128) -> bool {
    id & 0xF000_C000_0000_0000_0000u128 == 0x4000_8000_0000_0000_0000u128
}

/// Draws a fresh random (version 4) UUID with `uuid::Uuid::new_v4` and gives its
/// 128-bit value. Claimed, as `new_v4` builds it (`rng::u128() &
/// 0xFFFFFFFFFFFF4FFFBFFFFFFFFFFFFFFF | 0x40008000000000000000`): the version
/// and variant bits of a random UUID are set. The other 122 bits are random and
/// nothing is stated of them.
#[verifier::external_body]
pub(crate) fn new_random_id() -> (id: u128)
    ensures
        is_random_uuid(id),
{
    uuid::Uuid::new_v4().as_u128()
}

/// Formats an identifier with `uuid::Uuid::from_u128(id).to_string()`, which the
/// `uuid` crate writes as hyphenated lower-case hexadecimal (`Display` goes
/// through `LowerHex` of `as_hyphenated`).
#[verifier::external_body]
pub(crate) fn id_to_string(id: u128) -> (text: String)
    ensures
        text@ == uuid_text(id),
{
    uuid::Uuid::from_u128(id).to_string()
}

/// A random identifier is never the nil UUID, and its text shows version 4:
/// the first character of its third group is `4`.
pub proof fn lemma_random_id_is_not_nil(id: u128)
    requires
        is_random_uuid(id),
    ensures
        id != 0,
        id != u128::MAX,
        (id >> 76u128) & 0xfu128 == 4,
{
    assert(id & 0xF000_C000_0000_0000_0000u128 == 0x4000_8000_0000_0000_0000u128 ==> id != 0 && id != u128::MAX
        && (id >> 76u128) & 0xfu128 == 4) by (bit_vector);
}

} // verus!
