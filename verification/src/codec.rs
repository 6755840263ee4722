//! Byte encodings: standard Base64 (RFC 4648, with padding) and UTF-8.

use vstd::prelude::*;
use vstd::utf8::{decode_utf8, valid_utf8};

verus! {

/// The Base64 digit for a six-bit value.
pub open spec fn base64_digit(n: int) -> char {
    if n < 26 {
        (('A' as int) + n) as char
    } else if n < 52 {
        (('a' as int) + n - 26) as char
    } else if n < 62 {
        (('0' as int) + n - 52) as char
    } else if n == 62 {
        '+'
    } else {
        '/'
    }
}

/// Standard Base64 with `=` padding: every three bytes become four digits,
/// and a last group of one or two bytes is padded to four characters.
pub open spec fn base64_encoding(b: Seq<u8>) -> Seq<char>
    decreases b.len(),
{
    if b.len() == 0 {
        Seq::empty()
    } else {
        let x = b[0] as int;
        if b.len() == 1 {
            seq![base64_digit(x / 4), base64_digit((x % 4) * 16), '=', '=']
        } else {
            let y = b[1] as int;
            if b.len() == 2 {
                seq![base64_digit(x / 4), base64_digit((x % 4) * 16 + y / 16), base64_digit((y % 16) * 4), '=']
            } else {
                let z = b[2] as int;
                seq![
                    base64_digit(x / 4),
                    base64_digit((x % 4) * 16 + y / 16),
                    base64_digit((y % 16) * 4 + z / 64),
                    base64_digit(z % 64),
                ] + base64_encoding(b.skip(3))
            }
        }
    }
}

/// The bytes that the `STANDARD` Base64 engine of the `base64` crate reads
/// from a text, if it accepts the text.
pub uninterp spec fn base64_decoding(text: Seq<char>) -> Option<Seq<u8>>;

/// A character of the Base64 alphabet or the padding `=`.
pub open spec fn is_base64_char(c: char) -> bool {
    ||| 'A' <= c <= 'Z'
    ||| 'a' <= c <= 'z'
    ||| '0' <= c <= '9'
    ||| c == '+'
    ||| c == '/'
    ||| c == '='
}

/// Every six-bit value has a Base64 digit.
proof fn lemma_base64_digit(n: int)
    requires
        0 <= n < 64,
    ensures
        is_base64_char(base64_digit(n)),
{
}

/// Every character of a Base64 encoding is a Base64 character.
pub proof fn lemma_base64_alphabet(b: Seq<u8>)
    ensures
        forall|i: int|
            0 <= i < base64_encoding(b).len() ==> is_base64_char(#[trigger] base64_encoding(b)[i]),
    decreases b.len(),
{
    assert forall|n: int| 0 <= n < 64 implies is_base64_char(#[trigger] base64_digit(n)) by {
        lemma_base64_digit(n);
    }
    if b.len() >= 3 {
        lemma_base64_alphabet(b.skip(3));
        let x = b[0] as int;
        let y = b[1] as int;
        let z = b[2] as int;
        assert(0 <= (x % 4) * 16 + y / 16 < 64) by (nonlinear_arith)
            requires
                0 <= x < 256,
                0 <= y < 256,
                0 <= z < 256,
        ;
        assert(0 <= (y % 16) * 4 + z / 64 < 64) by (nonlinear_arith)
            requires
                0 <= x < 256,
                0 <= y < 256,
                0 <= z < 256,
        ;
        let e = base64_encoding(b);
        let r = base64_encoding(b.skip(3));
        assert forall|i: int| 0 <= i < e.len() implies is_base64_char(#[trigger] e[i]) by {
            if i >= 4 {
                assert(e[i] == r[i - 4]);
            }
        }
    } else if b.len() == 2 {
        let x = b[0] as int;
        let y = b[1] as int;
        assert(0 <= (x % 4) * 16 + y / 16 < 64 && 0 <= (y % 16) * 4 < 64) by (nonlinear_arith)
            requires
                0 <= x < 256,
                0 <= y < 256,
        ;
    } else if b.len() == 1 {
        let x = b[0] as int;
        assert(0 <= (x % 4) * 16 < 64) by (nonlinear_arith)
            requires
                0 <= x < 256,
        ;
    }
}

/// `STANDARD.encode` of the `base64` crate; its `decode` reads the text
/// back to the same bytes.
#[verifier::external_body]
pub(crate) fn base64_encode(data: &[u8]) -> (s: String)
    ensures
        s@ == base64_encoding(data@),
        base64_decoding(s@) == Some(data@),
{
    base64::Engine::encode(&base64::engine::general_purpose::STANDARD, data)
}

/// `STANDARD.decode` of the `base64` crate.
#[verifier::external_body]
pub(crate) fn base64_decode(text: &str) -> (r: Option<Vec<u8>>)
    ensures
        match r {
            Some(v) => base64_decoding(text@) == Some(v@),
            None => base64_decoding(text@) is None,
        },
{
    match base64::Engine::decode(&base64::engine::general_purpose::STANDARD, text) {
        Ok(v) => Some(v),
        Err(_) => None,
    }
}

/// `String::from_utf8`: the text encoded by the bytes, when they are
/// valid UTF-8.
#[verifier::external_body]
pub(crate) fn utf8_to_string(bytes: Vec<u8>) -> (r: Option<String>)
    ensures
        r is Some <==> valid_utf8(bytes@),
        r matches Some(s) ==> s@ == decode_utf8(bytes@),
{
    match String::from_utf8(bytes) {
        Ok(s) => Some(s),
        Err(_) => None,
    }
}

} // verus!
