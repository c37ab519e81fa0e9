//! Identifiers: UUIDs held as their 128-bit big-endian value.

use vstd::prelude::*;

verus! {

/// 16 to the power `e`.
pub open spec fn pow16(e: nat) -> int
    decreases e,
{
    if e == 0 {
        1
    } else {
        16 * pow16((e - 1) as nat)
    }
}

/// The `k`-th hexadecimal digit of `x`, counting from the most significant (0..32).
pub open spec fn nibble(x: u128, k: int) -> int {
    (x as int / pow16((31 - k) as nat)) % 16
}

/// Lower-case hexadecimal digit of a value in 0..16.
pub open spec fn hex_digit(n: int) -> char {
    seq!['0', '1', '2', '3', '4', '5', '6', '7', '8', '9', 'a', 'b', 'c', 'd', 'e', 'f'][n]
}

/// Number of hyphens before position `i` of the hyphenated form.
pub open spec fn hyphens_before(i: int) -> int {
    if i < 8 {
        0
    } else if i < 13 {
        1
    } else if i < 18 {
        2
    } else if i < 23 {
        3
    } else {
        4
    }
}

/// The hyphenated lower-case text of a UUID, `xxxxxxxx-xxxx-xxxx-xxxx-xxxxxxxxxxxx`.
pub open spec fn uuid_text(x: u128) -> Seq<char> {
    Seq::new(
        36,
        |i: int|
            if i == 8 || i == 13 || i == 18 || i == 23 {
                '-'
            } else {
                hex_digit(nibble(x, i - hyphens_before(i)))
            },
    )
}

/// The value of a hexadecimal digit of either case, or -1 for any other character.
pub open spec fn hex_value(c: char) -> int {
    let n = c as u32;
    if 0x30 <= n <= 0x39 {
        n - 0x30
    } else if 0x61 <= n <= 0x66 {
        n - 0x61 + 10
    } else if 0x41 <= n <= 0x46 {
        n - 0x41 + 10
    } else {
        -1
    }
}

/// `s` is the simple form of `x`: its 32 hexadecimal digits, most significant first.
pub open spec fn is_simple_form(s: Seq<char>, x: u128) -> bool {
    s.len() == 32 && forall|k: int| 0 <= k < 32 ==> hex_value(#[trigger] s[k]) == nibble(x, k)
}

/// `s` is the hyphenated form of `x` (`8-4-4-4-12` digits), in either case.
pub open spec fn is_hyphenated_form(s: Seq<char>, x: u128) -> bool {
    &&& s.len() == 36
    &&& forall|i: int|
        0 <= i < 36 ==> if i == 8 || i == 13 || i == 18 || i == 23 {
            #[trigger] s[i] == '-'
        } else {
            hex_value(s[i]) == nibble(x, i - hyphens_before(i))
        }
}

/// Whether a character is the given lower-case ASCII character in either case.
pub open spec fn same_ascii_letter(c: char, lower: char) -> bool {
    c == lower || (0x61 <= (lower as u32) <= 0x7A && (c as u32) == (lower as u32) - 0x20)
}

/// `s` is one of the forms `Uuid::parse_str` reads as `x`: simple,
/// hyphenated, braced (`{hyphenated}`) or URN (`urn:uuid:hyphenated`, the
/// prefix in either case).
pub open spec fn is_uuid_form(s: Seq<char>, x: u128) -> bool {
    let urn = "urn:uuid:"@;
    ||| is_simple_form(s, x)
    ||| is_hyphenated_form(s, x)
    ||| s.len() == 38 && s[0] == '{' && s[37] == '}' && is_hyphenated_form(s.subrange(1, 37), x)
    ||| s.len() == 45 && (forall|k: int| 0 <= k < 9 ==> same_ascii_letter(#[trigger] s[k], urn[k]))
        && is_hyphenated_form(s.subrange(9, 45), x)
}

/// What `Uuid::parse_str` reads from a text: the UUID that the text is a
/// form of, if it is a form of one (a form determines its UUID digit by digit).
pub open spec fn spec_uuid_parse(s: Seq<char>) -> Option<u128> {
    if exists|x: u128| is_uuid_form(s, x) {
        Some(choose|x: u128| is_uuid_form(s, x))
    } else {
        None
    }
}

/// Parses a UUID (`uuid::Uuid::parse_str`, then `as_u128`). It accepts
/// exactly the simple, hyphenated, braced and URN forms of a UUID, hex digits
/// in either case (every accepted text is ASCII, so its characters are its
/// bytes), and reads the digits most significant first.
#[verifier::external_body]
pub(crate) fn parse_uuid(s: &str) -> (r: Option<u128>)
    ensures
        r == spec_uuid_parse(s@),
        forall|x: u128| s@ == uuid_text(x) ==> r == Some(x),
{
    uuid::Uuid::parse_str(s).ok().map(|u| u.as_u128())
}

/// The hyphenated lower-case text of a UUID (`Display` of `uuid::Uuid`).
#[verifier::external_body]
pub(crate) fn uuid_to_string(x: u128) -> (s: String)
    ensures
        s@ == uuid_text(x),
{
    uuid::Uuid::from_u128(x).to_string()
}

} // verus!
