//! Row identifiers: 128-bit UUIDs, written and read through the `uuid` crate.
use vstd::prelude::*;
use crate::text::digit_char;
use vstd::arithmetic::div_mod::{lemma_mod_breakdown, lemma_small_mod};
use vstd::arithmetic::power::{lemma_pow_positive, pow};

verus! {

/// A UUID, by its 128-bit value (the bytes of the UUID in big-endian order).
#[derive(Debug, Clone, Copy, PartialEq, Eq, Hash, Structural)]
pub struct Uuid {
    pub value: u128,
}

/// The `width` lowest hexadecimal digits of `v`, most significant first,
/// lowercase, padded with zeros.
pub open spec fn hex_padded(v: nat, width: nat) -> Seq<char>
    decreases width,
{
    if width == 0 {
        Seq::empty()
    } else {
        hex_padded(v / 16, (width - 1) as nat).push(digit_char(v % 16))
    }
}

/// The hyphenated lowercase text of a UUID: its 32 hexadecimal digits in
/// groups of 8, 4, 4, 4 and 12, joined by hyphens.
pub open spec fn uuid_text(value: u128) -> Seq<char> {
    let h = hex_padded(value as nat, 32);
    h.subrange(0, 8) + seq!['-'] + h.subrange(8, 12) + seq!['-'] + h.subrange(12, 16) + seq!['-']
        + h.subrange(16, 20) + seq!['-'] + h.subrange(20, 32)
}

/// The value of a hexadecimal digit of either case.
pub open spec fn hex_digit_value(c: char) -> Option<nat> {
    if '0' <= c && c <= '9' {
        Some((c as int - '0' as int) as nat)
    } else if 'a' <= c && c <= 'f' {
        Some((c as int - 'a' as int + 10) as nat)
    } else if 'A' <= c && c <= 'F' {
        Some((c as int - 'A' as int + 10) as nat)
    } else {
        None
    }
}

/// The value of a string of hexadecimal digits, most significant first;
/// `None` if any character is not such a digit.
pub open spec fn hex_value(s: Seq<char>) -> Option<nat>
    decreases s.len(),
{
    if s.len() == 0 {
        Some(0)
    } else {
        match (hex_value(s.drop_last()), hex_digit_value(s.last())) {
            (Some(a), Some(d)) => Some(a * 16 + d),
            _ => None,
        }
    }
}

/// The 32 digits of a hyphenated UUID text: 36 characters with hyphens at
/// positions 8, 13, 18 and 23.
pub open spec fn hyphenated_digits(s: Seq<char>) -> Option<Seq<char>> {
    if s.len() == 36 && s[8] == '-' && s[13] == '-' && s[18] == '-' && s[23] == '-' {
        Some(
            s.subrange(0, 8) + s.subrange(9, 13) + s.subrange(14, 18) + s.subrange(19, 23) + s.subrange(
                24,
                36,
            ),
        )
    } else {
        None
    }
}

/// An ASCII letter in lowercase; other characters unchanged.
pub open spec fn ascii_lower(c: char) -> char {
    if 'A' <= c && c <= 'Z' {
        (c as int + 32) as char
    } else {
        c
    }
}

/// The 32 digits of a UUID text in each form that `uuid::Uuid::parse_str`
/// reads: 32 digits alone, hyphenated, hyphenated within braces, or
/// hyphenated after the prefix `urn:uuid:` in either case.
pub open spec fn uuid_digits(t: Seq<char>) -> Option<Seq<char>> {
    if t.len() == 32 {
        Some(t)
    } else if t.len() == 36 {
        hyphenated_digits(t)
    } else if t.len() == 38 && t[0] == '{' && t[37] == '}' {
        hyphenated_digits(t.subrange(1, 37))
    } else if t.len() == 45 && t.subrange(0, 9).map_values(|c: char| ascii_lower(c)) == "urn:uuid:"@ {
        hyphenated_digits(t.subrange(9, 45))
    } else {
        None
    }
}

/// What `uuid::Uuid::parse_str` reads from a text: the value of its 32
/// hexadecimal digits, or `None` where it refuses the text.
pub open spec fn uuid_parsed(text: Seq<char>) -> Option<u128> {
    match uuid_digits(text) {
        Some(d) => match hex_value(d) {
            Some(v) => Some(v as u128),
            None => None,
        },
        None => None,
    }
}

/// The hyphenated text of the UUID with the given value, by the `Display`
/// impl of `uuid::Uuid` (lowercase, hyphenated).
#[verifier::external_body]
fn hyphenated(value: u128) -> (r: String)
    ensures
        r@ == uuid_text(value),
{
    ::uuid::Uuid::from_u128(value).to_string()
}

/// The value that `uuid::Uuid::parse_str` reads from `text`, if it accepts
/// it: the forms and digits are those of `uuid_digits` and `hex_value`, and
/// the value is `Uuid::as_u128` of the bytes decoded, most significant first.
#[verifier::external_body]
fn parse_value(text: &str) -> (r: Option<u128>)
    ensures
        r == uuid_parsed(text@),
{
    match ::uuid::Uuid::parse_str(text) {
        Ok(u) => Some(u.as_u128()),
        Err(_) => None,
    }
}

impl Uuid {
    /// The UUID with the given 128-bit value.
    pub fn from_u128(value: u128) -> (r: Uuid)
        ensures
            r.value == value,
    {
        Uuid { value }
    }

    /// The 128-bit value of this UUID.
    pub fn as_u128(&self) -> (r: u128)
        ensures
            r == self.value,
    {
        self.value
    }

    /// The nil UUID (all zeros).
    pub fn nil() -> (r: Uuid)
        ensures
            r.value == 0,
    {
        Uuid { value: 0 }
    }

    /// The hyphenated lowercase text of this UUID.
    pub fn to_string(&self) -> (r: String)
        ensures
            r@ == uuid_text(self.value),
    {
        hyphenated(self.value)
    }

    /// Parse a UUID from its text, in any form `uuid::Uuid::parse_str`
    /// accepts.
    pub fn parse(text: &str) -> (r: Option<Uuid>)
        ensures
            match uuid_parsed(text@) {
                Some(v) => r == Some(Uuid { value: v }),
                None => r is None,
            },
    {
        match parse_value(text) {
            Some(v) => Some(Uuid { value: v }),
            None => None,
        }
    }
}

/// Each digit of `hex_padded` reads back as the digit it renders.
proof fn lemma_digit_char_hex(d: nat)
    requires
        d < 16,
    ensures
        hex_digit_value(digit_char(d)) == Some(d),
{
}

/// `hex_padded(v, width)` has `width` digits and reads back as `v` modulo
/// `16^width`.
proof fn lemma_hex_padded(v: nat, width: nat)
    ensures
        hex_padded(v, width).len() == width,
        hex_value(hex_padded(v, width)) == Some(v % (pow(16, width) as nat)),
    decreases width,
{
    reveal(pow);
    lemma_pow_positive(16, width);
    if width == 0 {
        assert(v % 1 == 0);
    } else {
        let w1 = (width - 1) as nat;
        lemma_hex_padded(v / 16, w1);
        lemma_digit_char_hex(v % 16);
        let s = hex_padded(v, width);
        assert(s.drop_last() =~= hex_padded(v / 16, w1));
        lemma_pow_positive(16, w1);
        let p = pow(16, w1);
        lemma_mod_breakdown(v as int, 16, p);
        assert(pow(16, width) == 16 * p);
        assert(((v / 16) % (p as nat)) * 16 + v % 16 == v % (pow(16, width) as nat)) by (nonlinear_arith)
            requires
                v as int % (16 * p) == 16 * ((v as int / 16) % p) + v as int % 16,
                pow(16, width) == 16 * p,
                p > 0,
        ;
    }
}

/// Law: the text of a UUID parses back to the same UUID.
pub proof fn lemma_parse_text(value: u128)
    ensures
        uuid_parsed(uuid_text(value)) == Some(value),
{
    let h = hex_padded(value as nat, 32);
    lemma_hex_padded(value as nat, 32);
    assert(pow(16, 32) == 0x1_0000_0000_0000_0000_0000_0000_0000_0000) by {
        reveal_with_fuel(pow, 33);
    }
    lemma_small_mod(value as nat, pow(16, 32) as nat);
    let t = uuid_text(value);
    assert(t.len() == 36);
    assert(t[8] == '-' && t[13] == '-' && t[18] == '-' && t[23] == '-');
    assert(t.subrange(0, 8) + t.subrange(9, 13) + t.subrange(14, 18) + t.subrange(19, 23) + t.subrange(24, 36)
        =~= h);
}

} // verus!
