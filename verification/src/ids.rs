//! Identifiers of stored records: name-based UUIDs and their text form.
//! A UUID is held as the `u128` whose big-endian bytes are its 16 bytes.
use vstd::prelude::*;

use uuid::Uuid;

verus! {

/// The lowercase hexadecimal digit of a value below 16.
pub open spec fn hex_digit(d: nat) -> char {
    if d < 10 {
        ((d + 48) as u32) as char
    } else {
        ((d + 87) as u32) as char
    }
}

/// The last `count` hexadecimal digits of `n`, most significant first.
pub open spec fn hex_digits(n: nat, count: nat) -> Seq<char>
    decreases count,
{
    if count == 0 {
        Seq::empty()
    } else {
        hex_digits(n / 16, (count - 1) as nat).push(hex_digit(n % 16))
    }
}

/// The hyphenated lowercase form of a UUID: 32 hexadecimal digits in groups
/// of 8, 4, 4, 4 and 12, joined by `-`.
pub open spec fn hyphenated(u: u128) -> Seq<char> {
    let h = hex_digits(u as nat, 32);
    h.subrange(0, 8) + seq!['-'] + h.subrange(8, 12) + seq!['-'] + h.subrange(12, 16) + seq!['-']
        + h.subrange(16, 20) + seq!['-'] + h.subrange(20, 32)
}

/// The name-based (version 5, SHA-1) UUID of `name` in `namespace`.
pub uninterp spec fn uuid_v5_spec(namespace: u128, name: Seq<u8>) -> u128;

/// The value of a hexadecimal digit of either case.
pub open spec fn hex_value(c: char) -> Option<nat> {
    if '0' <= c && c <= '9' {
        Some((c as u32 - 48) as nat)
    } else if 'a' <= c && c <= 'f' {
        Some((c as u32 - 87) as nat)
    } else if 'A' <= c && c <= 'F' {
        Some((c as u32 - 55) as nat)
    } else {
        None
    }
}

/// The number a string of hexadecimal digits spells, most significant
/// first, if every character is a hexadecimal digit.
pub open spec fn hex_number(s: Seq<char>) -> Option<nat>
    decreases s.len(),
{
    if s.len() == 0 {
        Some(0)
    } else {
        match (hex_number(s.drop_last()), hex_value(s.last())) {
            (Some(a), Some(d)) => Some(a * 16 + d),
            _ => None,
        }
    }
}

/// Reads 32 hexadecimal digits as a UUID.
pub open spec fn uuid_of_hex(s: Seq<char>) -> Option<u128> {
    match hex_number(s) {
        Some(n) => Some(n as u128),
        None => None,
    }
}

/// Reads the hyphenated form: 36 characters, `-` at 8, 13, 18 and 23, and
/// hexadecimal digits elsewhere.
pub open spec fn parse_hyphenated_spec(s: Seq<char>) -> Option<u128> {
    if s.len() == 36 && s[8] == '-' && s[13] == '-' && s[18] == '-' && s[23] == '-' {
        uuid_of_hex(s.subrange(0, 8) + s.subrange(9, 13) + s.subrange(14, 18) + s.subrange(19, 23) + s.subrange(24, 36))
    } else {
        None
    }
}

/// The ASCII lowercase of a character.
pub open spec fn ascii_lower(c: char) -> char {
    if 'A' <= c && c <= 'Z' {
        ((c as u32) + 32) as char
    } else {
        c
    }
}

/// What `Uuid::from_str` reads from a text: 32 hexadecimal digits; the
/// hyphenated form; the hyphenated form in braces; or `urn:uuid:` (in any
/// ASCII case) followed by the hyphenated form. Anything else is refused.
pub open spec fn uuid_parse_spec(s: Seq<char>) -> Option<u128> {
    if s.len() == 32 {
        uuid_of_hex(s)
    } else if s.len() == 36 {
        parse_hyphenated_spec(s)
    } else if s.len() == 38 && s[0] == '{' && s[37] == '}' {
        parse_hyphenated_spec(s.subrange(1, 37))
    } else if s.len() == 45 && s.take(9).map_values(|c: char| ascii_lower(c)) == seq!['u', 'r', 'n', ':', 'u', 'u', 'i', 'd', ':'] {
        parse_hyphenated_spec(s.skip(9))
    } else {
        None
    }
}

/// Sixteen to the power `k`.
pub open spec fn pow16(k: nat) -> nat
    decreases k,
{
    if k == 0 {
        1
    } else {
        16 * pow16((k - 1) as nat)
    }
}

/// A hexadecimal digit reads back as its value, and is never `-`.
pub proof fn lemma_hex_digit_value(d: nat)
    requires
        d < 16,
    ensures
        hex_value(hex_digit(d)) == Some(d),
        hex_digit(d) != '-',
{
    let c = hex_digit(d);
    if d < 10 {
        assert(c as u32 == d + 48);
    } else {
        assert(c as u32 == d + 87);
    }
}

proof fn lemma_hex_digits_number(n: nat, k: nat)
    requires
        n < pow16(k),
    ensures
        hex_number(hex_digits(n, k)) == Some(n),
        hex_digits(n, k).len() == k,
        forall|i: int| 0 <= i < k ==> #[trigger] hex_digits(n, k)[i] != '-',
    decreases k,
{
    if k > 0 {
        let p = pow16((k - 1) as nat);
        assert(n / 16 < p) by (nonlinear_arith)
            requires
                n < 16 * p,
        ;
        lemma_hex_digits_number(n / 16, (k - 1) as nat);
        lemma_hex_digit_value(n % 16);
        let h = hex_digits(n, k);
        assert(h.drop_last() =~= hex_digits(n / 16, (k - 1) as nat));
        assert(forall|i: int| 0 <= i < k - 1 ==> h[i] == hex_digits(n / 16, (k - 1) as nat)[i]);
    } else {
        assert(n == 0);
    }
}

/// The hyphenated form of a UUID reads back as that UUID.
pub proof fn lemma_hyphenated_parses(u: u128)
    ensures
        uuid_parse_spec(hyphenated(u)) == Some(u),
{
    assert(pow16(32) == 0x1_0000_0000_0000_0000_0000_0000_0000_0000) by {
        reveal_with_fuel(pow16, 33);
    }
    lemma_hex_digits_number(u as nat, 32);
    let h = hex_digits(u as nat, 32);
    let s = hyphenated(u);
    assert(s[8] == '-' && s[13] == '-' && s[18] == '-' && s[23] == '-');
    assert(s.subrange(0, 8) + s.subrange(9, 13) + s.subrange(14, 18) + s.subrange(19, 23) + s.subrange(24, 36) =~= h);
}

/// `Uuid::new_v5`: the name-based UUID of `name` in `namespace`.
#[verifier::external_body]
pub(crate) fn uuid_v5(namespace: u128, name: &[u8]) -> (id: u128)
    ensures
        id == uuid_v5_spec(namespace, name@),
{
    Uuid::new_v5(&Uuid::from_u128(namespace), name).as_u128()
}

/// `Uuid::to_string`: the hyphenated lowercase form.
#[verifier::external_body]
pub(crate) fn uuid_to_string(id: u128) -> (s: String)
    ensures
        s@ == hyphenated(id),
{
    Uuid::from_u128(id).to_string()
}

/// `Uuid::from_str`: the UUID a text spells in any of the forms the crate
/// reads (simple, hyphenated, braced, URN), if any (the crate's `try_parse`).
#[verifier::external_body]
pub(crate) fn uuid_parse(s: &str) -> (id: Option<u128>)
    ensures
        id == uuid_parse_spec(s@),
{
    match s.parse::<Uuid>() {
        Ok(u) => Some(u.as_u128()),
        Err(_) => None,
    }
}

} // verus!
