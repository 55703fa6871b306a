//! Task identifiers: 128-bit values drawn at random, written as UUID text.

use vstd::arithmetic::power2::pow2;
use vstd::prelude::*;

verus! {

/// The identifier of a proof task: the 128-bit value of a version-4 UUID.
pub type TaskId = u128;

/// The bits that every random (version 4, RFC variant) UUID has in common.
pub const VERSION_VARIANT_MASK: u128 = 0x0000_0000_0000_f000_c000_0000_0000_0000u128;

/// The value of those bits: version nibble 4, variant bits `10`.
pub const VERSION_VARIANT_BITS: u128 = 0x0000_0000_0000_4000_8000_0000_0000_0000u128;

/// Whether `id` carries the version and variant marks of a random UUID.
pub open spec fn is_random_uuid(id: TaskId) -> bool {
    id & VERSION_VARIANT_MASK == VERSION_VARIANT_BITS
}

/// The hexadecimal digit of a value below sixteen, in lower case.
pub open spec fn hex_digit(value: int) -> char {
    "0123456789abcdef"@[value]
}

/// Which of the 32 digits of an identifier stands at place `at` of its text, the
/// hyphens not counted.
pub open spec fn digit_place(at: int) -> int {
    if at < 8 {
        at
    } else if at < 13 {
        at - 1
    } else if at < 18 {
        at - 2
    } else if at < 23 {
        at - 3
    } else {
        at - 4
    }
}

/// The identifier as UUID text: its 32 hexadecimal digits in lower case, the highest
/// first, in groups of 8, 4, 4, 4 and 12 with a hyphen between them.
pub open spec fn uuid_hyphenated(id: TaskId) -> Seq<char> {
    Seq::new(
        36,
        |at: int|
            if at == 8 || at == 13 || at == 18 || at == 23 {
                '-'
            } else {
                hex_digit(id as int / (pow2((4 * (31 - digit_place(at))) as nat) as int) % 16)
            },
    )
}

/// Draws a fresh identifier with `uuid::Uuid::new_v4` and hands out its 128-bit value.
///
/// Trusted: of the value drawn only the version and variant marks are claimed, which
/// `new_v4` sets on every draw; the remaining 122 bits come from the operating
/// system's random source and nothing is said of them.
#[verifier::external_body]
pub(crate) fn draw_task_id() -> (id: TaskId)
    ensures
        is_random_uuid(id),
{
    uuid::Uuid::new_v4().as_u128()
}

/// Prints `id` the way `uuid::Uuid` displays itself.
///
/// Trusted: the `Display` text of `uuid::Uuid::from_u128(id)` is the hyphenated
/// lower-case form that [`uuid_hyphenated`] spells out.
#[verifier::external_body]
pub(crate) fn task_id_text(id: TaskId) -> (text: String)
    ensures
        text@ == uuid_hyphenated(id),
{
    uuid::Uuid::from_u128(id).to_string()
}

} // verus!
