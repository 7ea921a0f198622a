//! Identifiers of owners and images.
//!
//! An identifier is a 128-bit number. Where it becomes part of a blob key it
//! is written in the canonical hyphenated form: 32 lower-case hexadecimal
//! digits, most significant first, in groups of 8, 4, 4, 4 and 12.

use vstd::prelude::*;

verus! {

/// The length of the canonical text of an identifier.
pub const TEXT_LENGTH: usize = 36;

/// Whether a hyphen stands at `position` of the canonical text.
pub open spec fn is_hyphen_position(position: int) -> bool {
    position == 8 || position == 13 || position == 18 || position == 23
}

/// Which of the 32 digits stands at `position` of the canonical text, where
/// no hyphen stands there: the position less the hyphens before it.
pub open spec fn digit_at(position: int) -> int {
    if position < 8 {
        position
    } else if position < 13 {
        position - 1
    } else if position < 18 {
        position - 2
    } else if position < 23 {
        position - 3
    } else {
        position - 4
    }
}

/// The value of the `digit`th hexadecimal digit of `id`, counted from the
/// most significant.
pub open spec fn nibble(id: u128, digit: int) -> u128 {
    (id >> (((31 - digit) * 4) as u128)) & 0xf
}

/// The lower-case hexadecimal digit for a value below sixteen.
pub open spec fn hex_digit(value: u128) -> char {
    if value < 10 {
        ((48 + value) as u8) as char
    } else {
        ((87 + value) as u8) as char
    }
}

/// The canonical text of an identifier: its 128 bits as 32 lower-case
/// hexadecimal digits, most significant first, in hyphen-separated groups of
/// 8, 4, 4, 4 and 12 digits.
pub open spec fn hyphenated(id: u128) -> Seq<char> {
    Seq::new(
        TEXT_LENGTH as nat,
        |position: int|
            if is_hyphen_position(position) {
                '-'
            } else {
                hex_digit(nibble(id, digit_at(position)))
            },
    )
}

/// Writes `id` in its canonical text form.
///
/// Trusted: the body builds a `uuid::Uuid` from the number with
/// `Uuid::from_u128`, which takes the number's bytes most significant
/// first, and formats it with the `Display` impl of `Uuid`, which writes
/// each byte as two lower-case hexadecimal digits and sets hyphens after
/// the 8th, 12th, 16th and 20th digit. The contract claims that text, as
/// `hyphenated` spells it out.
#[verifier::external_body]
pub(crate) fn id_text(id: u128) -> (text: String)
    ensures
        text@ == hyphenated(id),
{
    uuid::Uuid::from_u128(id).to_string()
}

/// The position of the canonical text at which the `digit`th digit stands.
pub open spec fn position_of(digit: int) -> int {
    if digit < 8 {
        digit
    } else if digit < 12 {
        digit + 1
    } else if digit < 16 {
        digit + 2
    } else if digit < 20 {
        digit + 3
    } else {
        digit + 4
    }
}

/// Two values below sixteen with the same hexadecimal digit are the same.
proof fn hex_digit_is_injective(first: u128, second: u128)
    requires
        first < 16,
        second < 16,
        hex_digit(first) == hex_digit(second),
    ensures
        first == second,
{
    let x = if first < 10 { (48 + first) as u8 } else { (87 + first) as u8 };
    let y = if second < 10 { (48 + second) as u8 } else { (87 + second) as u8 };
    assert(hex_digit(first) == x as char);
    assert(hex_digit(second) == y as char);
    assert((x as char) as u8 == x);
    assert((y as char) as u8 == y);
}

/// Two identifiers with the same text have the same digits.
proof fn equal_texts_have_equal_digits(a: u128, b: u128, digit: int)
    requires
        hyphenated(a) == hyphenated(b),
        0 <= digit < 32,
    ensures
        nibble(a, digit) == nibble(b, digit),
{
    let position = position_of(digit);
    assert(0 <= position < 36 && !is_hyphen_position(position) && digit_at(position) == digit);
    assert(hyphenated(a)[position] == hex_digit(nibble(a, digit)));
    assert(hyphenated(b)[position] == hex_digit(nibble(b, digit)));
    let shift = ((31 - digit) * 4) as u128;
    assert((a >> shift) & 0xf < 16) by (bit_vector);
    assert((b >> shift) & 0xf < 16) by (bit_vector);
    hex_digit_is_injective(nibble(a, digit), nibble(b, digit));
}

/// The text of an identifier has 36 characters, and two identifiers with
/// the same text are the same identifier.
pub proof fn text_determines_identifier(a: u128, b: u128)
    ensures
        hyphenated(a).len() == 36,
        hyphenated(a) == hyphenated(b) ==> a == b,
{
    if hyphenated(a) == hyphenated(b) {
        assert forall|digit: int| 0 <= digit < 32 implies nibble(a, digit) == nibble(b, digit) by {
            equal_texts_have_equal_digits(a, b, digit);
        }
        assert(nibble(a, 0) == (a >> 124) & 0xf && nibble(b, 0) == (b >> 124) & 0xf);
        assert(nibble(a, 1) == (a >> 120) & 0xf && nibble(b, 1) == (b >> 120) & 0xf);
        assert(nibble(a, 2) == (a >> 116) & 0xf && nibble(b, 2) == (b >> 116) & 0xf);
        assert(nibble(a, 3) == (a >> 112) & 0xf && nibble(b, 3) == (b >> 112) & 0xf);
        assert(nibble(a, 4) == (a >> 108) & 0xf && nibble(b, 4) == (b >> 108) & 0xf);
        assert(nibble(a, 5) == (a >> 104) & 0xf && nibble(b, 5) == (b >> 104) & 0xf);
        assert(nibble(a, 6) == (a >> 100) & 0xf && nibble(b, 6) == (b >> 100) & 0xf);
        assert(nibble(a, 7) == (a >> 96) & 0xf && nibble(b, 7) == (b >> 96) & 0xf);
        assert(nibble(a, 8) == (a >> 92) & 0xf && nibble(b, 8) == (b >> 92) & 0xf);
        assert(nibble(a, 9) == (a >> 88) & 0xf && nibble(b, 9) == (b >> 88) & 0xf);
        assert(nibble(a, 10) == (a >> 84) & 0xf && nibble(b, 10) == (b >> 84) & 0xf);
        assert(nibble(a, 11) == (a >> 80) & 0xf && nibble(b, 11) == (b >> 80) & 0xf);
        assert(nibble(a, 12) == (a >> 76) & 0xf && nibble(b, 12) == (b >> 76) & 0xf);
        assert(nibble(a, 13) == (a >> 72) & 0xf && nibble(b, 13) == (b >> 72) & 0xf);
        assert(nibble(a, 14) == (a >> 68) & 0xf && nibble(b, 14) == (b >> 68) & 0xf);
        assert(nibble(a, 15) == (a >> 64) & 0xf && nibble(b, 15) == (b >> 64) & 0xf);
        assert(nibble(a, 16) == (a >> 60) & 0xf && nibble(b, 16) == (b >> 60) & 0xf);
        assert(nibble(a, 17) == (a >> 56) & 0xf && nibble(b, 17) == (b >> 56) & 0xf);
        assert(nibble(a, 18) == (a >> 52) & 0xf && nibble(b, 18) == (b >> 52) & 0xf);
        assert(nibble(a, 19) == (a >> 48) & 0xf && nibble(b, 19) == (b >> 48) & 0xf);
        assert(nibble(a, 20) == (a >> 44) & 0xf && nibble(b, 20) == (b >> 44) & 0xf);
        assert(nibble(a, 21) == (a >> 40) & 0xf && nibble(b, 21) == (b >> 40) & 0xf);
        assert(nibble(a, 22) == (a >> 36) & 0xf && nibble(b, 22) == (b >> 36) & 0xf);
        assert(nibble(a, 23) == (a >> 32) & 0xf && nibble(b, 23) == (b >> 32) & 0xf);
        assert(nibble(a, 24) == (a >> 28) & 0xf && nibble(b, 24) == (b >> 28) & 0xf);
        assert(nibble(a, 25) == (a >> 24) & 0xf && nibble(b, 25) == (b >> 24) & 0xf);
        assert(nibble(a, 26) == (a >> 20) & 0xf && nibble(b, 26) == (b >> 20) & 0xf);
        assert(nibble(a, 27) == (a >> 16) & 0xf && nibble(b, 27) == (b >> 16) & 0xf);
        assert(nibble(a, 28) == (a >> 12) & 0xf && nibble(b, 28) == (b >> 12) & 0xf);
        assert(nibble(a, 29) == (a >> 8) & 0xf && nibble(b, 29) == (b >> 8) & 0xf);
        assert(nibble(a, 30) == (a >> 4) & 0xf && nibble(b, 30) == (b >> 4) & 0xf);
        assert(nibble(a, 31) == (a >> 0) & 0xf && nibble(b, 31) == (b >> 0) & 0xf);
        assert(a == b) by (bit_vector)
            requires
            (a >> 124) & 0xf == (b >> 124) & 0xf,
            (a >> 120) & 0xf == (b >> 120) & 0xf,
            (a >> 116) & 0xf == (b >> 116) & 0xf,
            (a >> 112) & 0xf == (b >> 112) & 0xf,
            (a >> 108) & 0xf == (b >> 108) & 0xf,
            (a >> 104) & 0xf == (b >> 104) & 0xf,
            (a >> 100) & 0xf == (b >> 100) & 0xf,
            (a >> 96) & 0xf == (b >> 96) & 0xf,
            (a >> 92) & 0xf == (b >> 92) & 0xf,
            (a >> 88) & 0xf == (b >> 88) & 0xf,
            (a >> 84) & 0xf == (b >> 84) & 0xf,
            (a >> 80) & 0xf == (b >> 80) & 0xf,
            (a >> 76) & 0xf == (b >> 76) & 0xf,
            (a >> 72) & 0xf == (b >> 72) & 0xf,
            (a >> 68) & 0xf == (b >> 68) & 0xf,
            (a >> 64) & 0xf == (b >> 64) & 0xf,
            (a >> 60) & 0xf == (b >> 60) & 0xf,
            (a >> 56) & 0xf == (b >> 56) & 0xf,
            (a >> 52) & 0xf == (b >> 52) & 0xf,
            (a >> 48) & 0xf == (b >> 48) & 0xf,
            (a >> 44) & 0xf == (b >> 44) & 0xf,
            (a >> 40) & 0xf == (b >> 40) & 0xf,
            (a >> 36) & 0xf == (b >> 36) & 0xf,
            (a >> 32) & 0xf == (b >> 32) & 0xf,
            (a >> 28) & 0xf == (b >> 28) & 0xf,
            (a >> 24) & 0xf == (b >> 24) & 0xf,
            (a >> 20) & 0xf == (b >> 20) & 0xf,
            (a >> 16) & 0xf == (b >> 16) & 0xf,
            (a >> 12) & 0xf == (b >> 12) & 0xf,
            (a >> 8) & 0xf == (b >> 8) & 0xf,
            (a >> 4) & 0xf == (b >> 4) & 0xf,
            (a >> 0) & 0xf == (b >> 0) & 0xf,
        ;
    }
}

} // verus!
