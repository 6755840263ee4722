//! Opaque pagination cursors: the Base64 text of `"<created_at>|<id>"`,
//! where `<created_at>` is the RFC 3339 text of an instant and `<id>` the
//! hyphenated text of a UUID.

use vstd::prelude::*;
use vstd::utf8::{decode_utf8, encode_utf8, valid_utf8, encode_utf8_decode_utf8, encode_utf8_valid_utf8};
use crate::codec::{base64_decode, base64_decoding, base64_encode, base64_encoding, is_base64_char, lemma_base64_alphabet, utf8_to_string};
use crate::ids::{format_id, parse_id, uuid_parse, uuid_text};
use crate::text::{chars_of, is_white_space, lemma_trimmed_without_white_space, string_from_chars, trim, trimmed};
use crate::time::{four_digit_year, rfc3339_parse, rfc3339_text, Timestamp};

verus! {

/// Whether position `k` holds the first `c` of `s`.
pub open spec fn is_first_index(s: Seq<char>, c: char, k: int) -> bool {
    &&& 0 <= k < s.len()
    &&& s[k] == c
    &&& forall|j: int| 0 <= j < k ==> s[j] != c
}

/// Whether position `k` holds the last `c` of `s`.
pub open spec fn is_last_index(s: Seq<char>, c: char, k: int) -> bool {
    &&& 0 <= k < s.len()
    &&& s[k] == c
    &&& forall|j: int| k < j < s.len() ==> s[j] != c
}

/// Position of the first `c` in `s`, if any.
pub open spec fn first_index(s: Seq<char>, c: char) -> Option<int> {
    if exists|k: int| is_first_index(s, c, k) {
        Some(choose|k: int| is_first_index(s, c, k))
    } else {
        None
    }
}

/// Position of the last `c` in `s`, if any.
pub open spec fn last_index(s: Seq<char>, c: char) -> Option<int> {
    if exists|k: int| is_last_index(s, c, k) {
        Some(choose|k: int| is_last_index(s, c, k))
    } else {
        None
    }
}

/// The two fields of a decoded cursor: the text around its first `|`, or,
/// when it has none, around its last `:`.
pub open spec fn cursor_fields(s: Seq<char>) -> Option<(Seq<char>, Seq<char>)> {
    match first_index(s, '|') {
        Some(k) => Some((s.take(k), s.skip(k + 1))),
        None => match last_index(s, ':') {
            Some(k) => Some((s.take(k), s.skip(k + 1))),
            None => None,
        },
    }
}

/// The instant (seconds, nanoseconds) and identifier that a cursor text
/// names, if it names any.
pub open spec fn decoded_cursor(cursor: Seq<char>) -> Option<(i64, u32, u128)> {
    match base64_decoding(trimmed(cursor)) {
        None => None,
        Some(bytes) => if !valid_utf8(bytes) {
            None
        } else {
            match cursor_fields(decode_utf8(bytes)) {
                None => None,
                Some(fields) => match rfc3339_parse(fields.0) {
                    None => None,
                    Some(at) => match uuid_parse(fields.1) {
                        None => None,
                        Some(id) => Some((at.0, at.1, id)),
                    },
                },
            }
        },
    }
}

/// The cursor text for an entity created at `(secs, nanos)` with id `id`.
pub open spec fn cursor_text(secs: i64, nanos: u32, id: u128) -> Seq<char> {
    base64_encoding(encode_utf8(rfc3339_text(secs, nanos) + seq!['|'] + uuid_text(id)))
}

/// Two first positions of the same character coincide.
proof fn lemma_first_index_unique(s: Seq<char>, c: char, a: int, b: int)
    requires
        is_first_index(s, c, a),
        is_first_index(s, c, b),
    ensures
        a == b,
{
    if a < b {
        assert(s[a] != c);
    } else if b < a {
        assert(s[b] != c);
    }
}

/// Two last positions of the same character coincide.
proof fn lemma_last_index_unique(s: Seq<char>, c: char, a: int, b: int)
    requires
        is_last_index(s, c, a),
        is_last_index(s, c, b),
    ensures
        a == b,
{
    if a < b {
        assert(s[b] != c);
    } else if b < a {
        assert(s[a] != c);
    }
}

/// Position of the first `c` in `chars`, if any.
fn find_first(chars: &Vec<char>, c: char) -> (r: Option<usize>)
    ensures
        match r {
            Some(k) => first_index(chars@, c) == Some(k as int),
            None => first_index(chars@, c) is None,
        },
{
    let mut i: usize = 0;
    while i < chars.len()
        invariant
            0 <= i <= chars@.len(),
            forall|j: int| 0 <= j < i ==> chars@[j] != c,
        decreases chars@.len() - i,
    {
        if chars[i] == c {
            assert(is_first_index(chars@, c, i as int));
            proof {
                let k = choose|k: int| is_first_index(chars@, c, k);
                lemma_first_index_unique(chars@, c, k, i as int);
            }
            return Some(i);
        }
        i += 1;
    }
    assert(!exists|k: int| is_first_index(chars@, c, k));
    None
}

/// Position of the last `c` in `chars`, if any.
fn find_last(chars: &Vec<char>, c: char) -> (r: Option<usize>)
    ensures
        match r {
            Some(k) => last_index(chars@, c) == Some(k as int),
            None => last_index(chars@, c) is None,
        },
{
    let mut i: usize = chars.len();
    while i > 0
        invariant
            0 <= i <= chars@.len(),
            forall|j: int| i <= j < chars@.len() ==> chars@[j] != c,
        decreases i,
    {
        if chars[i - 1] == c {
            assert(is_last_index(chars@, c, i - 1));
            proof {
                let k = choose|k: int| is_last_index(chars@, c, k);
                lemma_last_index_unique(chars@, c, k, i - 1);
            }
            return Some(i - 1);
        }
        i -= 1;
    }
    assert(!exists|k: int| is_last_index(chars@, c, k));
    None
}

/// The cursor of an entity created at `created_at` with id `id`.
///
/// Reading the cursor back gives the same instant and id whenever the
/// instant's year has four digits.
pub fn encode_cursor(created_at: Timestamp, id: u128) -> (c: String)
    ensures
        c@ == cursor_text(created_at.seconds(), created_at.subsec_nanos(), id),
        four_digit_year(created_at.seconds())
            ==> decoded_cursor(c@) == Some((created_at.seconds(), created_at.subsec_nanos(), id)),
{
    let mut raw = created_at.to_rfc3339();
    let ghost date = raw@;
    raw.push('|');
    let id_text = format_id(id);
    let mut k: usize = 0;
    let id_chars = chars_of(id_text.as_str());
    while k < id_chars.len()
        invariant
            0 <= k <= id_chars@.len(),
            raw@ == date + seq!['|'] + id_chars@.take(k as int),
        decreases id_chars@.len() - k,
    {
        raw.push(id_chars[k]);
        assert(id_chars@.take(k + 1) == id_chars@.take(k as int).push(id_chars@[k as int]));
        k += 1;
    }
    assert(id_chars@.take(id_chars@.len() as int) == id_chars@);
    let c = base64_encode(raw.as_str().as_bytes());
    proof {
        let s = raw@;
        lemma_base64_alphabet(encode_utf8(s));
        assert forall|i: int| 0 <= i < c@.len() implies !is_white_space(#[trigger] c@[i]) by {
            assert(is_base64_char(c@[i]));
        }
        lemma_trimmed_without_white_space(c@);
        encode_utf8_valid_utf8(s);
        encode_utf8_decode_utf8(s);
        let n = date.len() as int;
        assert(is_first_index(s, '|', n));
        let k = choose|k: int| is_first_index(s, '|', k);
        lemma_first_index_unique(s, '|', k, n);
        assert(s.take(n) == date);
        assert(s.skip(n + 1) == id_text@);
    }
    c
}

/// The instant and id named by a cursor, or `None` when the text is not a
/// cursor.
pub fn decode_cursor(cursor: &str) -> (r: Option<(Timestamp, u128)>)
    ensures
        r is Some <==> decoded_cursor(cursor@) is Some,
        r matches Some(p) ==> decoded_cursor(cursor@) == Some(
            (p.0.seconds(), p.0.subsec_nanos(), p.1),
        ),
{
    let t = trim(cursor);
    let bytes = match base64_decode(t.as_str()) {
        Some(b) => b,
        None => {
            return None;
        },
    };
    let s = match utf8_to_string(bytes) {
        Some(s) => s,
        None => {
            return None;
        },
    };
    let chars = chars_of(s.as_str());
    let sep = match find_first(&chars, '|') {
        Some(k) => k,
        None => match find_last(&chars, ':') {
            Some(k) => k,
            None => {
                return None;
            },
        },
    };
    let date = string_from_chars(&chars, 0, sep);
    let id_text = string_from_chars(&chars, sep + 1, chars.len());
    proof {
        assert(chars@.subrange(0, sep as int) == chars@.take(sep as int));
        assert(chars@.subrange(sep + 1, chars@.len() as int) == chars@.skip(sep + 1));
    }
    let at = match Timestamp::parse_rfc3339(date.as_str()) {
        Some(at) => at,
        None => {
            return None;
        },
    };
    let id = match parse_id(id_text.as_str()) {
        Some(id) => id,
        None => {
            return None;
        },
    };
    Some((at, id))
}

} // verus!
