//! Character-level helpers over `str` and `String`: Unicode white space,
//! trimming, splitting into words and building strings from characters.

use vstd::prelude::*;

verus! {

/// The Unicode `White_Space` property (PropList.txt), which is what
/// `char::is_whitespace`, `str::trim` and `str::split_whitespace` use.
pub open spec fn is_white_space(c: char) -> bool {
    let u = c as u32;
    ||| 0x9 <= u <= 0xD
    ||| u == 0x20
    ||| u == 0x85
    ||| u == 0xA0
    ||| u == 0x1680
    ||| 0x2000 <= u <= 0x200A
    ||| u == 0x2028
    ||| u == 0x2029
    ||| u == 0x202F
    ||| u == 0x205F
    ||| u == 0x3000
}

/// Whether `c` has the Unicode `White_Space` property.
pub fn is_whitespace(c: char) -> (b: bool)
    ensures
        b == is_white_space(c),
{
    let u = c as u32;
    (0x9 <= u && u <= 0xD) || u == 0x20 || u == 0x85 || u == 0xA0 || u == 0x1680 || (0x2000 <= u
        && u <= 0x200A) || u == 0x2028 || u == 0x2029 || u == 0x202F || u == 0x205F || u == 0x3000
}

/// The characters of `s` after dropping leading white space.
pub open spec fn trim_start(s: Seq<char>) -> Seq<char>
    decreases s.len(),
{
    if s.len() > 0 && is_white_space(s[0]) {
        trim_start(s.drop_first())
    } else {
        s
    }
}

/// The characters of `s` after dropping trailing white space.
pub open spec fn trim_end(s: Seq<char>) -> Seq<char>
    decreases s.len(),
{
    if s.len() > 0 && is_white_space(s.last()) {
        trim_end(s.drop_last())
    } else {
        s
    }
}

/// `str::trim`: leading and trailing white space removed.
pub open spec fn trimmed(s: Seq<char>) -> Seq<char> {
    trim_end(trim_start(s))
}

proof fn lemma_trim_start_shape(s: Seq<char>)
    ensures
        trim_start(s).len() == 0 || !is_white_space(trim_start(s)[0]),
    decreases s.len(),
{
    if s.len() > 0 && is_white_space(s[0]) {
        lemma_trim_start_shape(s.drop_first());
    }
}

proof fn lemma_trim_end_shape(s: Seq<char>)
    ensures
        trim_end(s).len() <= s.len(),
        trim_end(s) == s.take(trim_end(s).len() as int),
        trim_end(s).len() == 0 || !is_white_space(trim_end(s).last()),
    decreases s.len(),
{
    if s.len() > 0 && is_white_space(s.last()) {
        let d = s.drop_last();
        lemma_trim_end_shape(d);
        assert(d.take(trim_end(d).len() as int) == s.take(trim_end(d).len() as int));
    } else {
        assert(s.take(s.len() as int) == s);
    }
}

/// Trimming is idempotent: trimmed text has nothing left to trim.
pub proof fn lemma_trimmed_idempotent(s: Seq<char>)
    ensures
        trimmed(trimmed(s)) == trimmed(s),
{
    let t = trim_start(s);
    let u = trim_end(t);
    lemma_trim_start_shape(s);
    lemma_trim_end_shape(t);
    if u.len() > 0 {
        assert(u[0] == t[0]);
        assert(trim_start(u) == u);
        assert(trim_end(u) == u);
    } else {
        assert(trim_start(u) == u);
        assert(trim_end(u) == u);
    }
}

/// Text without white space is its own trim.
pub proof fn lemma_trimmed_without_white_space(s: Seq<char>)
    requires
        forall|i: int| 0 <= i < s.len() ==> !is_white_space(#[trigger] s[i]),
    ensures
        trimmed(s) == s,
{
    if s.len() > 0 {
        assert(!is_white_space(s[0]));
        assert(!is_white_space(s[s.len() - 1]));
    }
}

/// The characters of a string slice, in order.
pub fn chars_of(s: &str) -> (v: Vec<char>)
    ensures
        v@ == s@,
{
    let mut v: Vec<char> = Vec::new();
    for c in it: s.chars()
        invariant
            v@ == it.seq().take(it.index()),
    {
        v.push(c);
    }
    v
}


/// `String::push` appends one character at the end of the string.
pub assume_specification[ String::push ](s: &mut String, ch: char)
    ensures
        final(s)@ == old(s)@.push(ch),
;

/// A string holding the characters `chars[from..to]`.
pub fn string_from_chars(chars: &Vec<char>, from: usize, to: usize) -> (r: String)
    requires
        from <= to <= chars@.len(),
    ensures
        r@ == chars@.subrange(from as int, to as int),
{
    let mut r = String::new();
    let mut i = from;
    while i < to
        invariant
            from <= i <= to <= chars@.len(),
            r@ == chars@.subrange(from as int, i as int),
        decreases to - i,
    {
        r.push(chars[i]);
        assert(chars@.subrange(from as int, i + 1) == chars@.subrange(from as int, i as int).push(
            chars@[i as int],
        ));
        i += 1;
    }
    r
}

/// Index of the first character of `chars[from..to]` that is not white space
/// (or `to`), paired with the end of the white-space-trimmed range.
pub fn trim_bounds(chars: &Vec<char>) -> (r: (usize, usize))
    ensures
        r.0 <= r.1 <= chars@.len(),
        chars@.subrange(r.0 as int, r.1 as int) == trimmed(chars@),
{
    let n = chars.len();
    let mut i: usize = 0;
    assert(chars@.subrange(0, n as int) == chars@);
    while i < n && is_whitespace(chars[i])
        invariant
            i <= n == chars@.len(),
            trim_start(chars@) == trim_start(chars@.subrange(i as int, n as int)),
        decreases n - i,
    {
        assert(chars@.subrange(i as int, n as int).drop_first() == chars@.subrange(i + 1, n as int));
        i += 1;
    }
    assert(trim_start(chars@.subrange(i as int, n as int)) == chars@.subrange(i as int, n as int));
    let mut j: usize = n;
    while j > i && is_whitespace(chars[j - 1])
        invariant
            i <= j <= n == chars@.len(),
            trimmed(chars@) == trim_end(chars@.subrange(i as int, j as int)),
        decreases j - i,
    {
        assert(chars@.subrange(i as int, j as int).drop_last() == chars@.subrange(i as int, j - 1));
        j -= 1;
    }
    (i, j)
}

/// `str::trim`: the string without leading and trailing white space.
pub fn trim(s: &str) -> (r: String)
    ensures
        r@ == trimmed(s@),
{
    let chars = chars_of(s);
    let (i, j) = trim_bounds(&chars);
    string_from_chars(&chars, i, j)
}


/// Whether two string slices hold the same characters.
pub fn str_eq(a: &str, b: &str) -> (r: bool)
    ensures
        r == (a@ == b@),
{
    a.to_owned() == b.to_owned()
}

/// An owned copy of a string slice.
pub fn to_string(a: &str) -> (r: String)
    ensures
        r@ == a@,
{
    a.to_owned()
}

/// Whether `char::is_alphanumeric` holds of `c` (the Unicode `Alphabetic`
/// or `Numeric` property).
pub uninterp spec fn unicode_alphanumeric(c: char) -> bool;

/// `char::is_alphanumeric`; on ASCII it holds exactly of letters and
/// digits.
#[verifier::external_body]
fn is_alphanumeric(c: char) -> (b: bool)
    ensures
        b == unicode_alphanumeric(c),
        (c as u32) < 128 ==> (b <==> ('a' <= c <= 'z' || 'A' <= c <= 'Z' || '0' <= c <= '9')),
{
    c.is_alphanumeric()
}

/// The words of `s` found so far and the word being read, after reading
/// all of `s` from left to right (the state of `str::split_whitespace`).
pub open spec fn words_state(s: Seq<char>) -> (Seq<Seq<char>>, Seq<char>)
    decreases s.len(),
{
    if s.len() == 0 {
        (Seq::empty(), Seq::empty())
    } else {
        let prev = words_state(s.drop_last());
        let c = s.last();
        if is_white_space(c) {
            if prev.1.len() > 0 {
                (prev.0.push(prev.1), Seq::empty())
            } else {
                prev
            }
        } else {
            (prev.0, prev.1.push(c))
        }
    }
}

/// `str::split_whitespace`: the maximal runs of non-white-space characters.
pub open spec fn words(s: Seq<char>) -> Seq<Seq<char>> {
    let st = words_state(s);
    if st.1.len() > 0 {
        st.0.push(st.1)
    } else {
        st.0
    }
}

/// A character that may continue a hashtag or a mention.
pub open spec fn is_tag_char(c: char) -> bool {
    unicode_alphanumeric(c) || c == '_'
}

/// The longest prefix of `s` made of tag characters.
pub open spec fn tag_prefix(s: Seq<char>) -> Seq<char>
    decreases s.len(),
{
    if s.len() > 0 && is_tag_char(s[0]) {
        seq![s[0]] + tag_prefix(s.drop_first())
    } else {
        Seq::empty()
    }
}

/// For each word of a list that starts with `marker`, the tag characters
/// that follow the marker.
pub open spec fn marked_terms(ws: Seq<Seq<char>>, marker: char) -> Seq<Seq<char>>
    decreases ws.len(),
{
    if ws.len() == 0 {
        Seq::empty()
    } else {
        let prev = marked_terms(ws.drop_last(), marker);
        let w = ws.last();
        if w.len() > 0 && w[0] == marker {
            prev.push(tag_prefix(w.drop_first()))
        } else {
            prev
        }
    }
}

/// The words of `text`, in order.
pub fn split_words(text: &str) -> (r: Vec<Vec<char>>)
    ensures
        r@.map_values(|w: Vec<char>| w@) == words(text@),
{
    let chars = chars_of(text);
    let mut done: Vec<Vec<char>> = Vec::new();
    let mut cur: Vec<char> = Vec::new();
    let mut i: usize = 0;
    while i < chars.len()
        invariant
            0 <= i <= chars@.len(),
            chars@ == text@,
            done@.map_values(|w: Vec<char>| w@) == words_state(chars@.take(i as int)).0,
            cur@ == words_state(chars@.take(i as int)).1,
        decreases chars@.len() - i,
    {
        let c = chars[i];
        assert(chars@.take(i + 1).drop_last() == chars@.take(i as int));
        if is_whitespace(c) {
            if cur.len() > 0 {
                let ghost before = done@;
                let w = cur;
                done.push(w);
                cur = Vec::new();
                assert(done@.map_values(|w: Vec<char>| w@) == before.map_values(|w: Vec<char>| w@).push(
                    w@,
                ));
            }
        } else {
            cur.push(c);
        }
        i += 1;
    }
    assert(chars@.take(chars@.len() as int) == chars@);
    if cur.len() > 0 {
        let ghost before = done@;
        let w = cur;
        done.push(w);
        assert(done@.map_values(|w: Vec<char>| w@) == before.map_values(|w: Vec<char>| w@).push(w@));
    }
    done
}

/// The tag characters at the start of `w[from..]`, as a string.
fn tag_prefix_of(w: &Vec<char>, from: usize) -> (r: String)
    requires
        from <= w@.len(),
    ensures
        r@ == tag_prefix(w@.skip(from as int)),
{
    let mut r = String::new();
    let mut i = from;
    while i < w.len() && (is_alphanumeric(w[i]) || w[i] == '_')
        invariant
            from <= i <= w@.len(),
            r@ + tag_prefix(w@.skip(i as int)) == tag_prefix(w@.skip(from as int)),
        decreases w@.len() - i,
    {
        assert(w@.skip(i as int).drop_first() == w@.skip(i + 1));
        assert(r@.push(w@[i as int]) + tag_prefix(w@.skip(i + 1)) == r@ + (seq![w@[i as int]]
            + tag_prefix(w@.skip(i + 1))));
        r.push(w[i]);
        i += 1;
    }
    assert(tag_prefix(w@.skip(i as int)) == Seq::<char>::empty());
    assert(r@ + Seq::<char>::empty() == r@);
    r
}

/// For each word of `text` that starts with `marker`, the letters, digits
/// and underscores right after the marker (possibly none).
pub fn marked_words(text: &str, marker: char) -> (r: Vec<String>)
    ensures
        r@.map_values(|s: String| s@) == marked_terms(words(text@), marker),
{
    let ws = split_words(text);
    let ghost wv = ws@.map_values(|w: Vec<char>| w@);
    let mut out: Vec<String> = Vec::new();
    let mut i: usize = 0;
    while i < ws.len()
        invariant
            0 <= i <= ws@.len(),
            wv == ws@.map_values(|w: Vec<char>| w@),
            out@.map_values(|s: String| s@) == marked_terms(wv.take(i as int), marker),
        decreases ws@.len() - i,
    {
        assert(wv.take(i + 1).drop_last() == wv.take(i as int));
        let w = &ws[i];
        if w.len() > 0 && w[0] == marker {
            let ghost before = out@;
            out.push(tag_prefix_of(w, 1));
            assert(w@.skip(1) == w@.drop_first());
            assert(out@.map_values(|s: String| s@) == before.map_values(|s: String| s@).push(
                tag_prefix(w@.drop_first()),
            ));
        }
        i += 1;
    }
    assert(wv.take(ws@.len() as int) == wv);
    out
}

} // verus!
