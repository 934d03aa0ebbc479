use vstd::prelude::*;
use vstd::string::*;

use crate::text::{has_prefix, strip_prefix};

verus! {

/// The lower-case hexadecimal digit of `n` (0 to 15).
pub open spec fn hex_digit(n: int) -> char {
    if n < 10 {
        (48 + n) as char
    } else {
        (87 + n) as char
    }
}

/// Lower-case hexadecimal text of `bytes`: two digits per byte, high nibble first.
pub open spec fn hex_lower(bytes: Seq<u8>) -> Seq<char>
    decreases bytes.len(),
{
    if bytes.len() == 0 {
        seq![]
    } else {
        hex_lower(bytes.drop_last()) + seq![
            hex_digit(bytes.last() as int / 16),
            hex_digit(bytes.last() as int % 16),
        ]
    }
}

/// Lower-case hexadecimal text of `bytes`, through `hex::encode`, which
/// writes each byte as two characters of `0123456789abcdef`, high nibble first.
#[verifier::external_body]
pub(crate) fn hex_encode(bytes: &[u8]) -> (text: String)
    ensures
        text@ == hex_lower(bytes@),
{
    hex::encode(bytes)
}

pub proof fn lemma_hex_lower_len(bytes: Seq<u8>)
    ensures
        hex_lower(bytes).len() == 2 * bytes.len(),
    decreases bytes.len(),
{
    if bytes.len() > 0 {
        lemma_hex_lower_len(bytes.drop_last());
    }
}

/// An ASCII hexadecimal digit, either case.
pub open spec fn is_hex_char(c: char) -> bool {
    ('0' <= c && c <= '9') || ('a' <= c && c <= 'f') || ('A' <= c && c <= 'F')
}

/// The value of a hexadecimal digit.
pub open spec fn hex_value(c: char) -> int {
    if '0' <= c && c <= '9' {
        c as int - 48
    } else if 'a' <= c && c <= 'f' {
        c as int - 87
    } else {
        c as int - 55
    }
}

/// Text that `hex::decode` accepts: an even number of hexadecimal digits.
pub open spec fn hex_decodable(text: Seq<char>) -> bool {
    text.len() % 2 == 0 && forall|i: int| 0 <= i < text.len() ==> is_hex_char(#[trigger] text[i])
}

/// The bytes that hexadecimal text stands for, two digits per byte.
pub open spec fn hex_decoded(text: Seq<char>) -> Seq<u8> {
    Seq::new(
        (text.len() / 2) as nat,
        |i: int| (hex_value(text[2 * i]) * 16 + hex_value(text[2 * i + 1])) as u8,
    )
}

/// Decodes hexadecimal text through `hex::decode`, which refuses text of odd
/// length and any character outside `0-9`, `a-f`, `A-F`, and otherwise reads
/// two digits per byte, high nibble first.
#[verifier::external_body]
pub(crate) fn hex_decode(text: &str) -> (bytes: Option<Vec<u8>>)
    ensures
        bytes is Some <==> hex_decodable(text@),
        bytes is Some ==> bytes.unwrap()@ == hex_decoded(text@),
{
    hex::decode(text).ok()
}

/// The PostgreSQL `bytea` hex marker: a backslash followed by `x`.
pub open spec fn bytea_marker() -> Seq<char> {
    seq!['\\', 'x']
}

/// The `bytea` hex text of `bytes`.
pub open spec fn bytea_text(bytes: Seq<u8>) -> Seq<char> {
    bytea_marker() + hex_lower(bytes)
}

/// Writes bytes as PostgreSQL `bytea` hex text (`\x` and lower-case digits).
pub fn encode_bytea(bytes: &[u8]) -> (text: String)
    ensures
        text@ == bytea_text(bytes@),
{
    let mut out = String::from_str("\\x");
    proof {
        reveal_strlit("\\x");
    }
    let digits = hex_encode(bytes);
    out.append(digits.as_str());
    out
}

/// Reads PostgreSQL `bytea` hex text: the `\x` marker, then hexadecimal
/// digits; anything else is refused.
pub fn decode_bytea_hex(value: &str) -> (bytes: Option<Vec<u8>>)
    ensures
        (has_prefix(value@, bytea_marker()) && hex_decodable(value@.subrange(2, value@.len() as int)))
            ==> (bytes matches Some(b) && b@ == hex_decoded(value@.subrange(2, value@.len() as int))),
        !(has_prefix(value@, bytea_marker()) && hex_decodable(value@.subrange(2, value@.len() as int)))
            ==> bytes is None,
{
    proof {
        reveal_strlit("\\x");
        assert("\\x"@ =~= bytea_marker());
    }
    match strip_prefix(value, "\\x") {
        None => None,
        Some(rest) => hex_decode(rest.as_str()),
    }
}

proof fn lemma_hex_digit_value(n: int)
    requires
        0 <= n < 16,
    ensures
        is_hex_char(hex_digit(n)),
        hex_value(hex_digit(n)) == n,
{
}

/// Lower-case hexadecimal text decodes back to the bytes it was made from.
pub proof fn lemma_hex_roundtrip(bytes: Seq<u8>)
    ensures
        hex_decodable(hex_lower(bytes)),
        hex_decoded(hex_lower(bytes)) == bytes,
    decreases bytes.len(),
{
    lemma_hex_lower_len(bytes);
    if bytes.len() > 0 {
        let init = bytes.drop_last();
        lemma_hex_roundtrip(init);
        lemma_hex_lower_len(init);
        let b = bytes.last();
        lemma_hex_digit_value(b as int / 16);
        lemma_hex_digit_value(b as int % 16);
        let t = hex_lower(bytes);
        let ti = hex_lower(init);
        assert(t == ti + seq![hex_digit(b as int / 16), hex_digit(b as int % 16)]);
        assert forall|i: int| 0 <= i < t.len() implies is_hex_char(#[trigger] t[i]) by {
            if i < ti.len() {
                assert(t[i] == ti[i]);
            }
        }
        assert forall|i: int| 0 <= i < bytes.len() implies #[trigger] hex_decoded(t)[i] == bytes[i] by {
            if i < init.len() {
                assert(t[2 * i] == ti[2 * i]);
                assert(t[2 * i + 1] == ti[2 * i + 1]);
                assert(hex_decoded(ti)[i] == init[i]);
            } else {
                assert(hex_value(t[2 * i]) * 16 + hex_value(t[2 * i + 1]) == b as int);
            }
        }
        assert(hex_decoded(t) =~= bytes);
    }
}

/// Law: `bytea` text written by `encode_bytea` reads back as the same bytes.
pub proof fn lemma_bytea_roundtrip(bytes: Seq<u8>)
    ensures
        has_prefix(bytea_text(bytes), bytea_marker()),
        hex_decodable(bytea_text(bytes).subrange(2, bytea_text(bytes).len() as int)),
        hex_decoded(bytea_text(bytes).subrange(2, bytea_text(bytes).len() as int)) == bytes,
{
    lemma_hex_roundtrip(bytes);
    let t = bytea_text(bytes);
    assert(t.subrange(0, 2) =~= bytea_marker());
    assert(t.subrange(2, t.len() as int) =~= hex_lower(bytes));
}

} // verus!
