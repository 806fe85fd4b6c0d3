//! Titles as they come out of query results: percent-decoded, with
//! underscores in place of spaces.

use crate::text::{chars_of, push_char};
use vstd::prelude::*;
use vstd::string::StringExecFns;
use vstd::utf8::{decode_utf8, encode_utf8, valid_utf8};

verus! {

/// The value of an ASCII hexadecimal digit, if `b` is one.
pub open spec fn hex_value(b: u8) -> Option<u8> {
    if 0x30 <= b <= 0x39 {
        Some((b - 0x30) as u8)
    } else if 0x41 <= b <= 0x46 {
        Some((b - 0x41 + 10) as u8)
    } else if 0x61 <= b <= 0x66 {
        Some((b - 0x61 + 10) as u8)
    } else {
        None
    }
}

/// `bytes` begins with `%` and two hexadecimal digits.
pub open spec fn starts_with_escape(bytes: Seq<u8>) -> bool {
    &&& bytes.len() >= 3
    &&& bytes[0] == 0x25
    &&& hex_value(bytes[1]) is Some
    &&& hex_value(bytes[2]) is Some
}

/// Percent-decoding: each `%` that two hexadecimal digits follow stands for
/// the byte that the digits write; every other byte stands for itself.
pub open spec fn percent_decoded(bytes: Seq<u8>) -> Seq<u8>
    decreases bytes.len(),
{
    if bytes.len() == 0 {
        Seq::empty()
    } else if starts_with_escape(bytes) {
        let byte = (hex_value(bytes[1]).unwrap() * 16 + hex_value(bytes[2]).unwrap()) as u8;
        seq![byte] + percent_decoded(bytes.subrange(3, bytes.len() as int))
    } else {
        seq![bytes[0]] + percent_decoded(bytes.subrange(1, bytes.len() as int))
    }
}

/// `s` with `_` in place of each space.
pub open spec fn underscored(s: Seq<char>) -> Seq<char> {
    s.map_values(|c: char| if c == ' ' { '_' } else { c })
}

/// The bytes of `s`, percent-decoded, are UTF-8.
pub open spec fn title_decodable(s: Seq<char>) -> bool {
    valid_utf8(percent_decoded(encode_utf8(s)))
}

/// The title that the bytes `bytes` write: percent-decoded, read as UTF-8,
/// spaces turned into underscores.
pub open spec fn title_of_bytes(bytes: Seq<u8>) -> Seq<char> {
    underscored(decode_utf8(percent_decoded(bytes)))
}

/// The title that the text `s` writes.
pub open spec fn decoded_title(s: Seq<char>) -> Seq<char> {
    title_of_bytes(encode_utf8(s))
}

/// Percent-decodes the bytes of `s` and reads the result as UTF-8.
///
/// Calls `percent_encoding::percent_decode` and `decode_utf8` on what it
/// returns. The first yields the input's bytes with every `%` that two
/// hexadecimal digits follow replaced by the byte they write; the second gives
/// the text of those bytes, or fails where they are not UTF-8.
#[verifier::external_body]
fn percent_decode_utf8(s: &str) -> (out: Option<String>)
    ensures
        out is Some == title_decodable(s@),
        out matches Some(t) ==> t@ == decode_utf8(percent_decoded(encode_utf8(s@))),
{
    match percent_encoding::percent_decode(s.as_bytes()).decode_utf8() {
        Ok(t) => Some(t.into_owned()),
        Err(_) => None,
    }
}

/// `s` with `_` in place of each space.
pub fn spaces_to_underscores(s: &str) -> (out: String)
    ensures
        out@ == underscored(s@),
{
    let chars = chars_of(s);
    let mut out = String::new();
    let mut i: usize = 0;
    while i < chars.len()
        invariant
            i <= chars.len(),
            chars@ == s@,
            out@ == underscored(s@.take(i as int)),
        decreases chars.len() - i,
    {
        let c = chars[i];
        push_char(&mut out, if c == ' ' { '_' } else { c });
        proof {
            assert(underscored(s@.take(i + 1)) =~= underscored(s@.take(i as int)).push(
                if c == ' ' { '_' } else { c },
            ));
        }
        i += 1;
    }
    proof {
        assert(s@.take(chars.len() as int) =~= s@);
    }
    out
}

/// The title that `s` writes, or `None` where the percent-decoded bytes of
/// `s` are not UTF-8.
pub fn try_percent_decode_title(s: &str) -> (out: Option<String>)
    ensures
        out is Some == title_decodable(s@),
        out matches Some(t) ==> t@ == decoded_title(s@),
{
    match percent_decode_utf8(s) {
        Some(t) => Some(spaces_to_underscores(t.as_str())),
        None => None,
    }
}

/// The title that `s` writes.
pub fn percent_decode_title(s: String) -> (out: String)
    requires
        title_decodable(s@),
    ensures
        out@ == decoded_title(s@),
{
    match try_percent_decode_title(s.as_str()) {
        Some(t) => t,
        None => vstd::pervasive::unreached(),
    }
}

/// The full title of a page: the name of its namespace and the title, with
/// underscores for spaces, joined by a colon; the title alone in the
/// namespace without a name.
pub open spec fn full_title_text(namespace: Seq<char>, title: Seq<char>) -> Seq<char> {
    if namespace.len() == 0 {
        underscored(title)
    } else {
        underscored(namespace) + seq![':'] + underscored(title)
    }
}

/// The full title of the page `title` in the namespace called `namespace`.
pub fn full_title(namespace: &str, title: &str) -> (out: String)
    ensures
        out@ == full_title_text(namespace@, title@),
{
    let local = spaces_to_underscores(title);
    let prefix = spaces_to_underscores(namespace);
    if prefix.as_str().is_empty() {
        local
    } else {
        let mut out = prefix;
        push_char(&mut out, ':');
        out.append(local.as_str());
        out
    }
}

/// The upper-case hexadecimal digit of `n`, for `n` below 16.
pub open spec fn hex_digit(n: int) -> u8 {
    if n < 10 {
        (0x30 + n) as u8
    } else {
        (0x41 + n - 10) as u8
    }
}

/// Percent-encoding: each byte of `escaped` is written as `%` and its two
/// hexadecimal digits, every other byte as itself.
pub open spec fn percent_encoded(bytes: Seq<u8>, escaped: Set<u8>) -> Seq<u8>
    decreases bytes.len(),
{
    if bytes.len() == 0 {
        Seq::empty()
    } else {
        let b = bytes[0];
        let head = if escaped.contains(b) {
            seq![0x25u8, hex_digit(b as int / 16), hex_digit(b as int % 16)]
        } else {
            seq![b]
        };
        head + percent_encoded(bytes.subrange(1, bytes.len() as int), escaped)
    }
}

/// Decoding undoes encoding, provided that `%` itself is among the bytes that
/// the encoding escapes.
pub proof fn lemma_decode_undoes_encode(bytes: Seq<u8>, escaped: Set<u8>)
    requires
        escaped.contains(0x25),
    ensures
        percent_decoded(percent_encoded(bytes, escaped)) == bytes,
    decreases bytes.len(),
{
    if bytes.len() > 0 {
        let b = bytes[0];
        let rest = bytes.subrange(1, bytes.len() as int);
        let enc_rest = percent_encoded(rest, escaped);
        let enc = percent_encoded(bytes, escaped);
        lemma_decode_undoes_encode(rest, escaped);
        if escaped.contains(b) {
            let hi = hex_digit(b as int / 16);
            let lo = hex_digit(b as int % 16);
            assert(enc == seq![0x25u8, hi, lo] + enc_rest);
            assert(enc[0] == 0x25 && enc[1] == hi && enc[2] == lo);
            assert(hex_value(hi) == Some((b / 16) as u8));
            assert(hex_value(lo) == Some((b % 16) as u8));
            assert(starts_with_escape(enc));
            assert(enc.subrange(3, enc.len() as int) =~= enc_rest);
            assert((b / 16) * 16 + b % 16 == b);
            assert(percent_decoded(enc) =~= seq![b] + rest);
        } else {
            assert(enc == seq![b] + enc_rest);
            assert(enc[0] == b);
            assert(!starts_with_escape(enc));
            assert(enc.subrange(1, enc.len() as int) =~= enc_rest);
            assert(percent_decoded(enc) =~= seq![b] + rest);
        }
        assert(seq![b] + rest =~= bytes);
    } else {
        assert(percent_encoded(bytes, escaped) =~= Seq::<u8>::empty());
    }
}

/// Two texts that differ at most in having a space where the other has an
/// underscore.
pub open spec fn same_up_to_spaces(a: Seq<char>, b: Seq<char>) -> bool {
    &&& a.len() == b.len()
    &&& forall|i: int|
        0 <= i < a.len() ==> a[i] == b[i] || (a[i] == ' ' && b[i] == '_') || (a[i] == '_' && b[i]
            == ' ')
}

/// A text that already has underscores for spaces is left as it is, and two
/// texts that differ only in spaces and underscores come out the same.
pub proof fn lemma_underscored_ignores_spaces(a: Seq<char>, b: Seq<char>)
    requires
        same_up_to_spaces(a, b),
    ensures
        underscored(a) == underscored(b),
        underscored(underscored(a)) == underscored(a),
{
    assert(underscored(a) =~= underscored(b));
    assert(underscored(underscored(a)) =~= underscored(a));
}

/// Round trip: where the text `encoded` is the percent-encoding of the title
/// `title`, in an encoding that escapes `%`, decoding it gives `title` with
/// underscores for spaces; and the same comes out for any `other` that differs
/// from `title` only in spaces and underscores.
pub proof fn lemma_title_round_trip(
    title: Seq<char>,
    other: Seq<char>,
    encoded: Seq<char>,
    escaped: Set<u8>,
)
    requires
        escaped.contains(0x25),
        encode_utf8(encoded) == percent_encoded(encode_utf8(title), escaped),
        same_up_to_spaces(title, other),
    ensures
        title_decodable(encoded),
        decoded_title(encoded) == underscored(title),
        decoded_title(encoded) == underscored(other),
{
    lemma_decode_undoes_encode(encode_utf8(title), escaped);
    vstd::utf8::encode_utf8_valid_utf8(title);
    vstd::utf8::encode_utf8_decode_utf8(title);
    lemma_underscored_ignores_spaces(title, other);
}

} // verus!
