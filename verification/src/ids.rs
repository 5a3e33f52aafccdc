//! Person identifiers: 128-bit UUIDs, drawn, rendered and parsed with the
//! `uuid` crate.

use std::str::FromStr;
use vstd::prelude::*;

use crate::text::digit_char;

verus! {

/// Lowercase hexadecimal digit for `d` (meaningful for `d < 16`).
pub open spec fn hex_digit_char(d: nat) -> char {
    if d < 10 { digit_char(d) }
    else if d == 10 { 'a' }
    else if d == 11 { 'b' }
    else if d == 12 { 'c' }
    else if d == 13 { 'd' }
    else if d == 14 { 'e' }
    else { 'f' }
}

/// The lowest `width` hexadecimal digits of `v`, most significant first.
pub open spec fn hex_fixed(v: nat, width: nat) -> Seq<char>
    decreases width,
{
    if width == 0 {
        Seq::empty()
    } else {
        hex_fixed(v / 16, (width - 1) as nat).push(hex_digit_char(v % 16))
    }
}

/// The 32 hex digits of a 128-bit value grouped 8-4-4-4-12 and joined by hyphens,
/// e.g. `67e55044-10b1-426f-9247-bb680e5fe0c8`.
pub open spec fn uuid_hyphenated(v: nat) -> Seq<char> {
    let h = hex_fixed(v, 32);
    h.subrange(0, 8) + seq!['-'] + h.subrange(8, 12) + seq!['-'] + h.subrange(12, 16) + seq!['-']
        + h.subrange(16, 20) + seq!['-'] + h.subrange(20, 32)
}

/// Value of a hexadecimal digit of either case.
pub open spec fn hex_value(c: char) -> Option<nat> {
    if c == '0' { Some(0) }
    else if c == '1' { Some(1) }
    else if c == '2' { Some(2) }
    else if c == '3' { Some(3) }
    else if c == '4' { Some(4) }
    else if c == '5' { Some(5) }
    else if c == '6' { Some(6) }
    else if c == '7' { Some(7) }
    else if c == '8' { Some(8) }
    else if c == '9' { Some(9) }
    else if c == 'a' || c == 'A' { Some(10) }
    else if c == 'b' || c == 'B' { Some(11) }
    else if c == 'c' || c == 'C' { Some(12) }
    else if c == 'd' || c == 'D' { Some(13) }
    else if c == 'e' || c == 'E' { Some(14) }
    else if c == 'f' || c == 'F' { Some(15) }
    else { None }
}

/// The number a string of hexadecimal digits denotes, most significant first;
/// `None` when some character is not a hex digit.
pub open spec fn hex_number(s: Seq<char>) -> Option<nat>
    decreases s.len(),
{
    if s.len() == 0 {
        Some(0)
    } else {
        match (hex_number(s.drop_last()), hex_value(s.last())) {
            (Some(high), Some(low)) => Some(high * 16 + low),
            _ => None,
        }
    }
}

/// The 32 digits of a hyphenated UUID text (hyphens at 8, 13, 18 and 23).
pub open spec fn hyphenated_number(s: Seq<char>) -> Option<nat> {
    if s.len() == 36 && s[8] == '-' && s[13] == '-' && s[18] == '-' && s[23] == '-' {
        hex_number(
            s.subrange(0, 8) + s.subrange(9, 13) + s.subrange(14, 18) + s.subrange(19, 23)
                + s.subrange(24, 36),
        )
    } else {
        None
    }
}

/// ASCII lowercasing of one character.
pub open spec fn ascii_lowercase(c: char) -> char {
    if 'A' <= c && c <= 'Z' {
        ((c as int) + 32) as char
    } else {
        c
    }
}

/// What the `uuid` crate accepts as a UUID text: 32 hex digits, the hyphenated
/// form, the hyphenated form in braces, or the hyphenated form after a
/// case-insensitive `urn:uuid:` prefix. Digits may be of either case.
pub open spec fn uuid_parse(s: Seq<char>) -> Option<nat> {
    if s.len() == 32 {
        hex_number(s)
    } else if s.len() == 36 {
        hyphenated_number(s)
    } else if s.len() == 38 && s[0] == '{' && s[37] == '}' {
        hyphenated_number(s.subrange(1, 37))
    } else if s.len() == 45 && s.subrange(0, 9).map_values(|c: char| ascii_lowercase(c))
        == seq!['u', 'r', 'n', ':', 'u', 'u', 'i', 'd', ':'] {
        hyphenated_number(s.subrange(9, 45))
    } else {
        None
    }
}

/// The error of the `uuid` crate's parser.
#[verifier::external_type_specification]
#[verifier::external_body]
pub struct ExUuidError(uuid::Error);

/// `uuid::Uuid::new_v4`, read back with `as_u128`. The value is random; what
/// holds of every outcome is that the version nibble is 4 and the variant bits
/// are `10`, which `new_v4` sets by masking.
#[verifier::external_body]
fn uuid_new_v4() -> (v: u128)
    ensures
        (v >> 76u128) & 0xfu128 == 4,
        (v >> 62u128) & 0x3u128 == 2,
{
    uuid::Uuid::new_v4().as_u128()
}

/// `uuid::Uuid::from_u128(v).to_string()`: the lowercase hyphenated rendering
/// of the big-endian value.
#[verifier::external_body]
fn uuid_to_string(v: u128) -> (s: String)
    ensures
        s@ == uuid_hyphenated(v as nat),
{
    uuid::Uuid::from_u128(v).to_string()
}

/// `uuid::Uuid::from_str`, read back with `as_u128`: succeeds exactly on the
/// texts `uuid_parse` accepts, with the value they denote.
#[verifier::external_body]
fn uuid_from_str(s: &str) -> (r: Result<u128, uuid::Error>)
    ensures
        match r {
            Ok(v) => uuid_parse(s@) == Some(v as nat),
            Err(_) => uuid_parse(s@) is None,
        },
{
    match uuid::Uuid::from_str(s) {
        Ok(id) => Ok(id.as_u128()),
        Err(e) => Err(e),
    }
}

/// The identifier of a stored person: a UUID as its big-endian 128-bit value.
#[derive(Clone, Copy, PartialEq, Eq, Structural, Debug, Hash)]
pub struct PersonId {
    pub value: u128,
}

/// A text that does not denote a UUID.
#[derive(Clone, Copy, PartialEq, Eq, Structural, Debug)]
pub struct InvalidPersonId;

/// An id as `uuid::Uuid::new_v4` draws them: version nibble 4, variant bits `10`.
pub open spec fn is_fresh_v4(id: PersonId) -> bool {
    &&& (id.value >> 76u128) & 0xfu128 == 4
    &&& (id.value >> 62u128) & 0x3u128 == 2
}

impl PersonId {
    /// The canonical text of the id, as used in cache keys and locations.
    pub open spec fn text(self) -> Seq<char> {
        uuid_hyphenated(self.value as nat)
    }

    /// A fresh random (version 4) identifier.
    pub fn new_random() -> (id: PersonId)
        ensures
            is_fresh_v4(id),
    {
        PersonId { value: uuid_new_v4() }
    }

    /// The lowercase hyphenated text of the id.
    pub fn to_text(&self) -> (s: String)
        ensures
            s@ == self.text(),
    {
        uuid_to_string(self.value)
    }

    /// Reads an id from any UUID text form; fails exactly on texts that are none.
    pub fn parse(s: &str) -> (r: Result<PersonId, InvalidPersonId>)
        ensures
            match r {
                Ok(id) => uuid_parse(s@) == Some(id.value as nat),
                Err(_) => uuid_parse(s@) is None,
            },
    {
        match uuid_from_str(s) {
            Ok(v) => Ok(PersonId { value: v }),
            Err(_) => Err(InvalidPersonId),
        }
    }
}

/// `16` raised to `w`.
pub open spec fn pow16(w: nat) -> nat
    decreases w,
{
    if w == 0 {
        1
    } else {
        16 * pow16((w - 1) as nat)
    }
}

proof fn lemma_hex_fixed_len(v: nat, w: nat)
    ensures
        hex_fixed(v, w).len() == w,
    decreases w,
{
    if w > 0 {
        lemma_hex_fixed_len(v / 16, (w - 1) as nat);
    }
}

proof fn lemma_hex_digit_reads_back(d: nat)
    requires
        d < 16,
    ensures
        hex_value(hex_digit_char(d)) == Some(d),
{
}

proof fn lemma_hex_fixed_reads_back(v: nat, w: nat)
    requires
        v < pow16(w),
    ensures
        hex_number(hex_fixed(v, w)) == Some(v),
    decreases w,
{
    if w == 0 {
    } else {
        let prefix = hex_fixed(v / 16, (w - 1) as nat);
        lemma_hex_fixed_reads_back(v / 16, (w - 1) as nat);
        lemma_hex_digit_reads_back(v % 16);
        let s = hex_fixed(v, w);
        assert(s.drop_last() =~= prefix);
        assert(s.last() == hex_digit_char(v % 16));
        assert(v == (v / 16) * 16 + v % 16);
    }
}

/// Parsing the canonical text of a 128-bit value gives the value back: an id
/// rendered by `PersonId::to_text` is read again by `PersonId::parse` as the
/// same id.
pub proof fn lemma_id_text_reads_back(id: PersonId)
    ensures
        uuid_parse(id.text()) == Some(id.value as nat),
{
    let v = id.value as nat;
    assert(pow16(32) == 0x1_0000_0000_0000_0000_0000_0000_0000_0000) by {
        reveal_with_fuel(pow16, 33);
    }
    lemma_hex_fixed_len(v, 32);
    lemma_hex_fixed_reads_back(v, 32);
    let h = hex_fixed(v, 32);
    let s = uuid_hyphenated(v);
    assert(s.len() == 36);
    assert(s[8] == '-' && s[13] == '-' && s[18] == '-' && s[23] == '-');
    assert(s.subrange(0, 8) + s.subrange(9, 13) + s.subrange(14, 18) + s.subrange(19, 23)
        + s.subrange(24, 36) =~= h);
}

/// The canonical text of an id has 36 characters.
pub proof fn lemma_id_text_len(id: PersonId)
    ensures
        id.text().len() == 36,
{
    lemma_hex_fixed_len(id.value as nat, 32);
}

} // verus!
