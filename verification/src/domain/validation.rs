//! Validation of registration inputs and of user-written content.

use vstd::prelude::*;
use vstd::utf8::encode_utf8;
use crate::domain::errors::{DomainError, ErrorCode};
use crate::text::{chars_of, lemma_trimmed_idempotent, str_eq, trim, trimmed};

verus! {

/// Number of bytes of the UTF-8 encoding of `s` (what `str::len` returns).
pub open spec fn utf8_len(s: Seq<char>) -> nat {
    encode_utf8(s).len()
}

/// ASCII letter or digit, or an underscore.
pub open spec fn is_handle_char(c: char) -> bool {
    ||| 'a' <= c <= 'z'
    ||| 'A' <= c <= 'Z'
    ||| '0' <= c <= '9'
    ||| c == '_'
}

/// ASCII lower case of one character; other characters are unchanged.
pub open spec fn ascii_lower(c: char) -> char {
    if 'A' <= c <= 'Z' {
        ((c as u32) + 32) as char
    } else {
        c
    }
}

/// ASCII lower case of a sequence of characters.
pub open spec fn ascii_lower_seq(s: Seq<char>) -> Seq<char> {
    s.map_values(|c: char| ascii_lower(c))
}

/// Handles that no account may take.
pub open spec fn is_reserved_username(s: Seq<char>) -> bool {
    ||| s == "admin"@
    ||| s == "administrator"@
    ||| s == "root"@
    ||| s == "api"@
    ||| s == "graphql"@
    ||| s == "graphiql"@
    ||| s == "me"@
    ||| s == "system"@
    ||| s == "ferro"@
    ||| s == "null"@
    ||| s == "undefined"@
    ||| s == "bot"@
    ||| s == "support"@
    ||| s == "help"@
}

/// A username is accepted when, once trimmed, it is 3 to 50 bytes long, is
/// made of ASCII letters, digits and underscores only, and its lower case is
/// not a reserved handle. (The trimmed text is ASCII at the last check, so
/// its Unicode lower case is its ASCII lower case.)
pub open spec fn username_ok(s: Seq<char>) -> bool {
    let t = trimmed(s);
    &&& 3 <= utf8_len(t) <= 50
    &&& forall|i: int| 0 <= i < t.len() ==> is_handle_char(#[trigger] t[i])
    &&& !is_reserved_username(ascii_lower_seq(t))
}

/// Whether `s` is one of the reserved handles.
fn is_reserved(s: &str) -> (r: bool)
    ensures
        r == is_reserved_username(s@),
{
    str_eq(s, "admin") || str_eq(s, "administrator") || str_eq(s, "root") || str_eq(s, "api")
        || str_eq(s, "graphql") || str_eq(s, "graphiql") || str_eq(s, "me") || str_eq(s, "system")
        || str_eq(s, "ferro") || str_eq(s, "null") || str_eq(s, "undefined") || str_eq(s, "bot")
        || str_eq(s, "support") || str_eq(s, "help")
}

/// The reserved handles are exactly admin, administrator, root, api, graphql,
/// graphiql, me, system, ferro, null, undefined, bot, support and help; a
/// username that, once trimmed and put in lower case, is one of them is
/// refused, whatever the case it was written in.
pub proof fn lemma_reserved_handles_refused(s: Seq<char>)
    ensures
        is_reserved_username(s) <==> seq![
            "admin"@,
            "administrator"@,
            "root"@,
            "api"@,
            "graphql"@,
            "graphiql"@,
            "me"@,
            "system"@,
            "ferro"@,
            "null"@,
            "undefined"@,
            "bot"@,
            "support"@,
            "help"@,
        ].contains(s),
        seq![
            "admin"@,
            "administrator"@,
            "root"@,
            "api"@,
            "graphql"@,
            "graphiql"@,
            "me"@,
            "system"@,
            "ferro"@,
            "null"@,
            "undefined"@,
            "bot"@,
            "support"@,
            "help"@,
        ].contains(ascii_lower_seq(trimmed(s))) ==> !username_ok(s),
{
    let handles = seq![
        "admin"@,
        "administrator"@,
        "root"@,
        "api"@,
        "graphql"@,
        "graphiql"@,
        "me"@,
        "system"@,
        "ferro"@,
        "null"@,
        "undefined"@,
        "bot"@,
        "support"@,
        "help"@,
    ];
    assert forall|h: Seq<char>| handles.contains(h) <==> is_reserved_username(h) by {
        if is_reserved_username(h) {
            if h == "admin"@ { assert(handles[0] == h); }
            else if h == "administrator"@ { assert(handles[1] == h); }
            else if h == "root"@ { assert(handles[2] == h); }
            else if h == "api"@ { assert(handles[3] == h); }
            else if h == "graphql"@ { assert(handles[4] == h); }
            else if h == "graphiql"@ { assert(handles[5] == h); }
            else if h == "me"@ { assert(handles[6] == h); }
            else if h == "system"@ { assert(handles[7] == h); }
            else if h == "ferro"@ { assert(handles[8] == h); }
            else if h == "null"@ { assert(handles[9] == h); }
            else if h == "undefined"@ { assert(handles[10] == h); }
            else if h == "bot"@ { assert(handles[11] == h); }
            else if h == "support"@ { assert(handles[12] == h); }
            else { assert(handles[13] == h); }
        }
    }
}

/// Validates a username for registration.
pub fn validate_username(username: &str) -> (r: Result<(), DomainError>)
    ensures
        r is Ok <==> username_ok(username@),
        r matches Err(e) ==> e.code == ErrorCode::AuthInvalidUsername && e.message@
            == ErrorCode::AuthInvalidUsername.name() && e.params@.len() == 0,
{
    let t = trim(username);
    let len = t.as_str().as_bytes().len();
    if len < 3 || len > 50 {
        return Err(DomainError::from_code(ErrorCode::AuthInvalidUsername));
    }
    let chars = chars_of(t.as_str());
    let mut lower = String::new();
    let mut i: usize = 0;
    while i < chars.len()
        invariant
            0 <= i <= chars@.len(),
            chars@ == t@,
            t@ == trimmed(username@),
            forall|j: int| 0 <= j < i ==> is_handle_char(#[trigger] chars@[j]),
            lower@ == ascii_lower_seq(chars@.take(i as int)),
        decreases chars@.len() - i,
    {
        let c = chars[i];
        if !(('a' <= c && c <= 'z') || ('A' <= c && c <= 'Z') || ('0' <= c && c <= '9') || c
            == '_') {
            assert(!is_handle_char(t@[i as int]));
            return Err(DomainError::from_code(ErrorCode::AuthInvalidUsername));
        }
        let l = if 'A' <= c && c <= 'Z' {
            ((c as u8) + 32) as char
        } else {
            c
        };
        assert(l == ascii_lower(c)) by {
            if 'A' <= c && c <= 'Z' {
                assert(((c as u8) + 32) as char == ((c as u32) + 32) as char);
            }
        }
        lower.push(l);
        assert(ascii_lower_seq(chars@.take(i + 1)) == ascii_lower_seq(chars@.take(i as int)).push(
            ascii_lower(c),
        ));
        i += 1;
    }
    assert(chars@.take(chars@.len() as int) == chars@);
    if is_reserved(lower.as_str()) {
        return Err(DomainError::from_code(ErrorCode::AuthInvalidUsername));
    }
    Ok(())
}


/// The part after the `@` of an e-mail address is accepted when it holds a
/// dot and neither starts nor ends with one.
pub open spec fn email_domain_ok(d: Seq<char>) -> bool {
    &&& d.contains('.')
    &&& d[0] != '.'
    &&& d.last() != '.'
}

/// An e-mail address is accepted when, once trimmed, it is 5 to 254 bytes
/// long and holds exactly one `@`, with a non-empty part before it and an
/// acceptable domain after it.
pub open spec fn email_ok(s: Seq<char>) -> bool {
    let t = trimmed(s);
    &&& 5 <= utf8_len(t) <= 254
    &&& exists|at: int|
        #![trigger t[at]]
        {
            &&& 0 < at < t.len()
            &&& t[at] == '@'
            &&& forall|j: int| 0 <= j < t.len() && j != at ==> #[trigger] t[j] != '@'
            &&& email_domain_ok(t.subrange(at + 1, t.len() as int))
        }
}

/// Whether `c` occurs in `v[from..to]`.
fn contains_char(v: &Vec<char>, from: usize, to: usize, c: char) -> (r: bool)
    requires
        from <= to <= v@.len(),
    ensures
        r == v@.subrange(from as int, to as int).contains(c),
{
    let mut i = from;
    while i < to
        invariant
            from <= i <= to <= v@.len(),
            forall|j: int| from <= j < i ==> v@[j] != c,
        decreases to - i,
    {
        if v[i] == c {
            assert(v@.subrange(from as int, to as int)[i - from] == c);
            return true;
        }
        i += 1;
    }
    proof {
        if v@.subrange(from as int, to as int).contains(c) {
            let k = choose|k: int|
                0 <= k < v@.subrange(from as int, to as int).len() && v@.subrange(
                    from as int,
                    to as int,
                )[k] == c;
            assert(v@[from + k] == c);
        }
    }
    false
}

/// Validates an e-mail address for registration.
pub fn validate_email(email: &str) -> (r: Result<(), DomainError>)
    ensures
        r is Ok <==> email_ok(email@),
        r matches Err(e) ==> e.code == ErrorCode::AuthInvalidEmail && e.message@
            == ErrorCode::AuthInvalidEmail.name() && e.params@.len() == 0,
{
    let t = trim(email);
    let len = t.as_str().as_bytes().len();
    if len < 5 || len > 254 {
        return Err(DomainError::from_code(ErrorCode::AuthInvalidEmail));
    }
    let chars = chars_of(t.as_str());
    let n = chars.len();
    let mut at: Option<usize> = None;
    let mut i: usize = 0;
    while i < n
        invariant
            0 <= i <= n == chars@.len(),
            chars@ == t@,
            t@ == trimmed(email@),
            5 <= utf8_len(t@) <= 254,
            at is None ==> forall|j: int| 0 <= j < i ==> chars@[j] != '@',
            at matches Some(a) ==> a < i && chars@[a as int] == '@' && forall|j: int|
                0 <= j < i && j != a ==> chars@[j] != '@',
        decreases n - i,
    {
        if chars[i] == '@' {
            match at {
                Some(a) => {
                    proof {
                        let tt = trimmed(email@);
                        assert forall|k: int|
                            0 < k < tt.len() && tt[k] == '@' implies !(forall|j: int|
                            0 <= j < tt.len() && j != k ==> #[trigger] tt[j] != '@') by {
                            if k != a {
                                assert(tt[a as int] == '@');
                            } else {
                                assert(tt[i as int] == '@');
                            }
                        }
                    }
                    return Err(DomainError::from_code(ErrorCode::AuthInvalidEmail));
                },
                None => {
                    at = Some(i);
                },
            }
        }
        i += 1;
    }
    match at {
        None => {
            return Err(DomainError::from_code(ErrorCode::AuthInvalidEmail));
        },
        Some(a) => {
            if a == 0 {
                return Err(DomainError::from_code(ErrorCode::AuthInvalidEmail));
            }
            let has_dot = contains_char(&chars, a + 1, n, '.');
            if !has_dot || chars[a + 1] == '.' || chars[n - 1] == '.' {
                proof {
                    let tt = trimmed(email@);
                    assert forall|k: int|
                        0 < k < tt.len() && tt[k] == '@' && (forall|j: int|
                            0 <= j < tt.len() && j != k ==> #[trigger] tt[j] != '@') implies !email_domain_ok(
                        tt.subrange(k + 1, tt.len() as int),
                    ) by {
                        if k != a {
                            assert(tt[a as int] == '@');
                        }
                        if has_dot {
                            assert(tt.subrange(k + 1, tt.len() as int)[0] == chars@[a + 1]);
                            assert(tt.subrange(k + 1, tt.len() as int).last() == chars@[n - 1]);
                        }
                    }
                }
                return Err(DomainError::from_code(ErrorCode::AuthInvalidEmail));
            }
            let ghost tt = trimmed(email@);
            assert(tt[a as int] == '@');
            assert(email_domain_ok(tt.subrange(a + 1, tt.len() as int)));
            Ok(())
        },
    }
}

/// A password is accepted when it is 8 to 128 bytes long.
pub open spec fn password_ok(s: Seq<char>) -> bool {
    8 <= utf8_len(s) <= 128
}

/// Validates a password for registration (too short and too long are both
/// reported as `AuthPasswordTooShort`).
pub fn validate_password(password: &str) -> (r: Result<(), DomainError>)
    ensures
        r is Ok <==> password_ok(password@),
        r matches Err(e) ==> e.code == ErrorCode::AuthPasswordTooShort && e.message@
            == ErrorCode::AuthPasswordTooShort.name() && e.params@.len() == 0,
{
    let len = password.as_bytes().len();
    if len < 8 {
        return Err(DomainError::from_code(ErrorCode::AuthPasswordTooShort));
    }
    if len > 128 {
        return Err(DomainError::from_code(ErrorCode::AuthPasswordTooShort));
    }
    Ok(())
}

/// User-written text is accepted when, once trimmed, it is not empty and
/// holds at most `max_chars` characters.
pub open spec fn content_ok(s: Seq<char>, max_chars: nat) -> bool {
    let t = trimmed(s);
    0 < t.len() <= max_chars
}

/// What a content validator returns is itself valid content, and
/// validating it again gives it back unchanged.
pub proof fn lemma_validated_content_is_stable(s: Seq<char>, max_chars: nat)
    requires
        content_ok(s, max_chars),
    ensures
        content_ok(trimmed(s), max_chars),
        trimmed(trimmed(s)) == trimmed(s),
{
    lemma_trimmed_idempotent(s);
}

/// The trimmed text when it is acceptable, else an error with `code`.
fn checked_content(content: &str, max_chars: usize, code: ErrorCode) -> (r: Result<
    String,
    DomainError,
>)
    ensures
        r is Ok <==> content_ok(content@, max_chars as nat),
        r matches Ok(t) ==> t@ == trimmed(content@),
        r matches Err(e) ==> e.code == code && e.message@ == code.name() && e.params@.len() == 0,
{
    let t = trim(content);
    let chars = chars_of(t.as_str());
    if chars.len() == 0 {
        return Err(DomainError::from_code(code));
    }
    if chars.len() > max_chars {
        return Err(DomainError::from_code(code));
    }
    Ok(t)
}

/// Validates the text of a post (at most 2000 characters) and returns it
/// trimmed.
pub fn validate_post_content(content: &str) -> (r: Result<String, DomainError>)
    ensures
        r is Ok <==> content_ok(content@, 2000),
        r matches Ok(t) ==> t@ == trimmed(content@),
        r matches Err(e) ==> e.code == ErrorCode::PostContentInvalid && e.message@
            == ErrorCode::PostContentInvalid.name() && e.params@.len() == 0,
{
    checked_content(content, 2000, ErrorCode::PostContentInvalid)
}

/// Validates the text of a comment (at most 500 characters) and returns it
/// trimmed.
pub fn validate_comment_content(content: &str) -> (r: Result<String, DomainError>)
    ensures
        r is Ok <==> content_ok(content@, 500),
        r matches Ok(t) ==> t@ == trimmed(content@),
        r matches Err(e) ==> e.code == ErrorCode::CommentContentInvalid && e.message@
            == ErrorCode::CommentContentInvalid.name() && e.params@.len() == 0,
{
    checked_content(content, 500, ErrorCode::CommentContentInvalid)
}

/// Validates the text of a direct message (at most 2000 characters) and
/// returns it trimmed.
pub fn validate_dm_content(content: &str) -> (r: Result<String, DomainError>)
    ensures
        r is Ok <==> content_ok(content@, 2000),
        r matches Ok(t) ==> t@ == trimmed(content@),
        r matches Err(e) ==> e.code == ErrorCode::DmContentInvalid && e.message@
            == ErrorCode::DmContentInvalid.name() && e.params@.len() == 0,
{
    checked_content(content, 2000, ErrorCode::DmContentInvalid)
}

} // verus!
