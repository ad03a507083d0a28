//! The text encodings of request bodies: JSON string literals as
//! `serde_json` writes them, and standard padded base64.
use vstd::prelude::*;

use base64::Engine;

use crate::ids::{hex_digit, hex_number, hex_value, lemma_hex_digit_value};

verus! {

/// How `serde_json` writes one character inside a string literal: `"` and
/// `\` are escaped with a backslash, the control characters with a short
/// escape where JSON has one and as `\u00XX` (lowercase hex) otherwise, and
/// every other character as itself.
pub open spec fn json_escaped_char(c: char) -> Seq<char> {
    if c == '"' {
        seq!['\\', '"']
    } else if c == '\\' {
        seq!['\\', '\\']
    } else if c == '\u{8}' {
        seq!['\\', 'b']
    } else if c == '\t' {
        seq!['\\', 't']
    } else if c == '\n' {
        seq!['\\', 'n']
    } else if c == '\u{c}' {
        seq!['\\', 'f']
    } else if c == '\r' {
        seq!['\\', 'r']
    } else if (c as u32) < 0x20 {
        seq!['\\', 'u', '0', '0', hex_digit((c as u32 / 16) as nat), hex_digit((c as u32 % 16) as nat)]
    } else {
        seq![c]
    }
}

/// The escaped characters of a string, in order.
pub open spec fn json_escaped(s: Seq<char>) -> Seq<char>
    decreases s.len(),
{
    if s.len() == 0 {
        Seq::empty()
    } else {
        json_escaped(s.drop_last()) + json_escaped_char(s.last())
    }
}

/// The JSON string literal of a string: its escaped characters in quotes.
pub open spec fn json_string_literal(s: Seq<char>) -> Seq<char> {
    seq!['"'] + json_escaped(s) + seq!['"']
}

/// The base64 character of a 6-bit value.
pub open spec fn base64_char(v: nat) -> char {
    if v < 26 {
        ((v + 65) as u32) as char
    } else if v < 52 {
        ((v + 71) as u32) as char
    } else if v < 62 {
        ((v - 4) as u32) as char
    } else if v == 62 {
        '+'
    } else {
        '/'
    }
}

/// The standard base64 encoding: each three bytes become four characters of
/// six bits each; a last group of one or two bytes is padded with `=`.
pub open spec fn base64_standard(b: Seq<u8>) -> Seq<char>
    decreases b.len(),
{
    if b.len() == 0 {
        Seq::empty()
    } else if b.len() == 1 {
        let n = b[0] as nat;
        seq![base64_char(n / 4), base64_char((n % 4) * 16), '=', '=']
    } else if b.len() == 2 {
        let n = b[0] as nat * 256 + b[1] as nat;
        seq![base64_char(n / 1024), base64_char((n / 16) % 64), base64_char((n % 16) * 4), '=']
    } else {
        let n = b[0] as nat * 65536 + b[1] as nat * 256 + b[2] as nat;
        seq![base64_char(n / 262144), base64_char((n / 4096) % 64), base64_char((n / 64) % 64), base64_char(n % 64)]
            + base64_standard(b.skip(3))
    }
}

/// `serde_json::to_string` on a string: its JSON literal, quoted and escaped
/// character by character (the crate's `ESCAPE` table).
#[verifier::external_body]
pub(crate) fn json_string(s: &str) -> (lit: String)
    ensures
        lit@ == json_string_literal(s@),
{
    match serde_json::to_string(s) {
        Ok(lit) => lit,
        Err(_) => String::new(),
    }
}

/// `base64::engine::general_purpose::STANDARD.encode`: the padded standard
/// base64 encoding of the bytes. The crate panics when the encoded length
/// overflows `usize`, which the bound on the input rules out.
#[verifier::external_body]
pub(crate) fn base64_encode(bytes: &[u8]) -> (encoded: String)
    requires
        bytes@.len() <= usize::MAX / 2,
    ensures
        encoded@ == base64_standard(bytes@),
{
    base64::engine::general_purpose::STANDARD.encode(bytes)
}

/// A character that JSON writes as itself.
pub open spec fn json_plain(c: char) -> bool {
    c != '"' && c != '\\' && (c as u32) >= 0x20
}

proof fn lemma_json_escaped_plain(s: Seq<char>)
    requires
        forall|i: int| 0 <= i < s.len() ==> json_plain(#[trigger] s[i]),
    ensures
        json_escaped(s) == s,
    decreases s.len(),
{
    if s.len() > 0 {
        lemma_json_escaped_plain(s.drop_last());
        assert(json_plain(s[s.len() - 1]));
        assert(s.drop_last().push(s.last()) =~= s);
    }
}

proof fn lemma_base64_char_plain(v: nat)
    ensures
        json_plain(base64_char(v)),
{
    let c = base64_char(v);
    if v < 26 {
        assert(c as u32 == v + 65);
    } else if v < 52 {
        assert(c as u32 == v + 71);
    } else if v < 62 {
        assert(c as u32 == v - 4);
    }
}

proof fn lemma_base64_chars_plain(b: Seq<u8>)
    ensures
        forall|i: int| 0 <= i < base64_standard(b).len() ==> json_plain(#[trigger] base64_standard(b)[i]),
    decreases b.len(),
{
    let e = base64_standard(b);
    if b.len() == 1 {
        let n = b[0] as nat;
        lemma_base64_char_plain(n / 4);
        lemma_base64_char_plain((n % 4) * 16);
        assert forall|i: int| 0 <= i < e.len() implies json_plain(#[trigger] e[i]) by {
            assert(i < 4);
        }
    } else if b.len() == 2 {
        let n = b[0] as nat * 256 + b[1] as nat;
        lemma_base64_char_plain(n / 1024);
        lemma_base64_char_plain((n / 16) % 64);
        lemma_base64_char_plain((n % 16) * 4);
        assert forall|i: int| 0 <= i < e.len() implies json_plain(#[trigger] e[i]) by {
            assert(i < 4);
        }
    } else if b.len() >= 3 {
        let n = b[0] as nat * 65536 + b[1] as nat * 256 + b[2] as nat;
        lemma_base64_char_plain(n / 262144);
        lemma_base64_char_plain((n / 4096) % 64);
        lemma_base64_char_plain((n / 64) % 64);
        lemma_base64_char_plain(n % 64);
        lemma_base64_chars_plain(b.skip(3));
        let head = seq![base64_char(n / 262144), base64_char((n / 4096) % 64), base64_char((n / 64) % 64), base64_char(n % 64)];
        let tail = base64_standard(b.skip(3));
        assert(e == head + tail);
        assert forall|i: int| 0 <= i < e.len() implies json_plain(#[trigger] e[i]) by {
            if i < 4 {
                assert(e[i] == head[i]);
            } else {
                assert(e[i] == tail[i - 4]);
            }
        }
    }
}

/// Base64 text needs no escaping: its JSON literal is the text in quotes.
pub proof fn lemma_base64_literal(b: Seq<u8>)
    ensures
        json_string_literal(base64_standard(b)) == seq!['"'] + base64_standard(b) + seq!['"'],
{
    lemma_base64_chars_plain(b);
    lemma_json_escaped_plain(base64_standard(b));
}

/// The character a one-letter JSON escape stands for (`\"`, `\\`, `\/`,
/// `\b`, `\t`, `\n`, `\f`, `\r`).
pub open spec fn json_unescaped_letter(e: char) -> char {
    if e == 'b' {
        '\u{8}'
    } else if e == 't' {
        '\t'
    } else if e == 'n' {
        '\n'
    } else if e == 'f' {
        '\u{c}'
    } else if e == 'r' {
        '\r'
    } else {
        e
    }
}

/// How a JSON reader reads the inside of a string literal: each escape
/// stands for one character, every other character for itself.
pub open spec fn json_unescaped(s: Seq<char>) -> Seq<char>
    decreases s.len(),
{
    if s.len() == 0 {
        Seq::empty()
    } else if s[0] == '\\' && s.len() >= 6 && s[1] == 'u' {
        let code = match hex_number(s.subrange(2, 6)) {
            Some(n) => n,
            None => 0,
        };
        seq![(code as u32) as char] + json_unescaped(s.skip(6))
    } else if s[0] == '\\' && s.len() >= 2 {
        seq![json_unescaped_letter(s[1])] + json_unescaped(s.skip(2))
    } else {
        seq![s[0]] + json_unescaped(s.skip(1))
    }
}

proof fn lemma_json_escaped_prepend(c: char, t: Seq<char>)
    ensures
        json_escaped(seq![c] + t) == json_escaped_char(c) + json_escaped(t),
    decreases t.len(),
{
    if t.len() == 0 {
        let one = seq![c] + t;
        assert(one =~= seq![c]);
        assert(one.drop_last() =~= Seq::<char>::empty());
        assert(one.last() == c);
        assert(json_escaped(one.drop_last()) == Seq::<char>::empty());
        assert(json_escaped(one) =~= json_escaped_char(c) + json_escaped(t));
    } else {
        lemma_json_escaped_prepend(c, t.drop_last());
        assert((seq![c] + t).drop_last() =~= seq![c] + t.drop_last());
        assert((seq![c] + t).last() == t.last());
        assert(json_escaped(seq![c] + t) =~= json_escaped_char(c) + json_escaped(t));
    }
}

proof fn lemma_json_unescape_char(c: char, r: Seq<char>)
    ensures
        json_unescaped(json_escaped_char(c) + r) == seq![c] + json_unescaped(r),
{
    let e = json_escaped_char(c);
    let s = e + r;
    if c == '"' || c == '\\' || c == '\u{8}' || c == '\t' || c == '\n' || c == '\u{c}' || c == '\r' {
        assert(s.skip(2) =~= r);
        assert(s[1] != 'u');
    } else if (c as u32) < 0x20 {
        let v = c as u32;
        lemma_hex_digit_value((v / 16) as nat);
        lemma_hex_digit_value((v % 16) as nat);
        let digits = s.subrange(2, 6);
        assert(digits =~= seq!['0', '0', hex_digit((v / 16) as nat), hex_digit((v % 16) as nat)]);
        assert(digits.drop_last().drop_last().drop_last() =~= seq!['0']);
        assert(digits.drop_last().drop_last().drop_last().drop_last() =~= Seq::<char>::empty());
        let first = digits.drop_last().drop_last().drop_last();
        assert(first.last() == '0');
        assert(hex_value('0') == Some(0nat));
        assert(hex_number(first.drop_last()) == Some(0nat));
        assert(hex_number(first) == Some(0nat));
        assert(hex_number(digits.drop_last().drop_last()) == Some(0nat));
        assert(hex_number(digits.drop_last()) == Some((v / 16) as nat));
        assert(hex_number(digits) == Some(v as nat));
        assert(s.skip(6) =~= r);
    } else {
        assert(s.skip(1) =~= r);
    }
}

/// Reading back the JSON literal of a text gives the text: the escaped
/// characters between the quotes read as the original characters.
pub proof fn lemma_json_round_trip(s: Seq<char>)
    ensures
        json_unescaped(json_escaped(s)) == s,
    decreases s.len(),
{
    if s.len() > 0 {
        let c = s[0];
        let t = s.skip(1);
        assert(s =~= seq![c] + t);
        lemma_json_escaped_prepend(c, t);
        lemma_json_unescape_char(c, json_escaped(t));
        lemma_json_round_trip(t);
    }
}

/// The 6-bit value of a base64 character.
pub open spec fn base64_value(c: char) -> nat {
    if 'A' <= c && c <= 'Z' {
        (c as u32 - 65) as nat
    } else if 'a' <= c && c <= 'z' {
        (c as u32 - 71) as nat
    } else if '0' <= c && c <= '9' {
        (c as u32 + 4) as nat
    } else if c == '+' {
        62
    } else {
        63
    }
}

/// The value of a character in the last two places of a group: `=` stands
/// for no bits.
pub open spec fn base64_padded_value(c: char) -> nat {
    if c == '=' {
        0
    } else {
        base64_value(c)
    }
}

/// Standard base64 decoding of padded text: each group of four characters
/// gives three bytes, or fewer where it ends in `=`.
pub open spec fn base64_decode(s: Seq<char>) -> Seq<u8>
    decreases s.len(),
{
    if s.len() < 4 {
        Seq::empty()
    } else {
        let n = base64_value(s[0]) * 262144 + base64_value(s[1]) * 4096 + base64_padded_value(s[2]) * 64
            + base64_padded_value(s[3]);
        if s[2] == '=' {
            seq![(n / 65536) as u8]
        } else if s[3] == '=' {
            seq![(n / 65536) as u8, ((n / 256) % 256) as u8]
        } else {
            seq![(n / 65536) as u8, ((n / 256) % 256) as u8, (n % 256) as u8] + base64_decode(s.skip(4))
        }
    }
}

proof fn lemma_base64_char_value(v: nat)
    requires
        v < 64,
    ensures
        base64_value(base64_char(v)) == v,
        base64_char(v) != '=',
{
    let c = base64_char(v);
    if v < 26 {
        assert(c as u32 == v + 65);
    } else if v < 52 {
        assert(c as u32 == v + 71);
    } else if v < 62 {
        assert(c as u32 == v - 4);
    }
}

proof fn lemma_group_of_three(b0: u32, b1: u32, b2: u32)
    by (bit_vector)
    requires
        b0 < 256,
        b1 < 256,
        b2 < 256,
    ensures
        ({
            let n = b0 * 65536 + b1 * 256 + b2;
            let m = (n / 262144) * 262144 + ((n / 4096) % 64) * 4096 + ((n / 64) % 64) * 64 + n % 64;
            m / 65536 == b0 && (m / 256) % 256 == b1 && m % 256 == b2
        }),
{
}

proof fn lemma_group_of_two(b0: u32, b1: u32)
    by (bit_vector)
    requires
        b0 < 256,
        b1 < 256,
    ensures
        ({
            let n = b0 * 256 + b1;
            let m = (n / 1024) * 262144 + ((n / 16) % 64) * 4096 + ((n % 16) * 4) * 64;
            m / 65536 == b0 && (m / 256) % 256 == b1
        }),
{
}

proof fn lemma_group_of_one(b0: u32)
    by (bit_vector)
    requires
        b0 < 256,
    ensures
        ({
            let m = (b0 / 4) * 262144 + ((b0 % 4) * 16) * 4096;
            m / 65536 == b0
        }),
{
}

/// Decoding the standard base64 encoding of some bytes gives back the bytes.
pub proof fn lemma_base64_round_trip(b: Seq<u8>)
    ensures
        base64_decode(base64_standard(b)) == b,
    decreases b.len(),
{
    let e = base64_standard(b);
    if b.len() == 1 {
        let n = b[0] as nat;
        lemma_base64_char_value(n / 4);
        lemma_base64_char_value((n % 4) * 16);
        lemma_group_of_one(b[0] as u32);
        assert(base64_decode(e) =~= b);
    } else if b.len() == 2 {
        let n = b[0] as nat * 256 + b[1] as nat;
        lemma_base64_char_value(n / 1024);
        lemma_base64_char_value((n / 16) % 64);
        lemma_base64_char_value((n % 16) * 4);
        lemma_group_of_two(b[0] as u32, b[1] as u32);
        assert(base64_decode(e) =~= b);
    } else if b.len() >= 3 {
        let n = b[0] as nat * 65536 + b[1] as nat * 256 + b[2] as nat;
        lemma_base64_char_value(n / 262144);
        lemma_base64_char_value((n / 4096) % 64);
        lemma_base64_char_value((n / 64) % 64);
        lemma_base64_char_value(n % 64);
        lemma_group_of_three(b[0] as u32, b[1] as u32, b[2] as u32);
        lemma_base64_round_trip(b.skip(3));
        let head = seq![base64_char(n / 262144), base64_char((n / 4096) % 64), base64_char((n / 64) % 64), base64_char(n % 64)];
        assert(e == head + base64_standard(b.skip(3)));
        assert(e.skip(4) =~= base64_standard(b.skip(3)));
        assert(b =~= seq![b[0], b[1], b[2]] + b.skip(3));
    } else {
        assert(base64_decode(e) =~= b);
    }
}

} // verus!
