//! Time-based one-time passwords (RFC 6238) for two-factor authentication.

use vstd::prelude::*;
use vstd::utf8::encode_utf8;
use crate::domain::errors::{DomainError, ErrorCode};

verus! {

/// The system clock of `std`.
#[verifier::external_type_specification]
#[verifier::external_body]
pub struct ExSystemTime(std::time::SystemTime);

/// Hash algorithms for TOTP codes.
#[derive(Debug, Clone, Copy, PartialEq, Eq, Structural)]
pub enum TotpAlgorithm {
    Sha1,
    Sha256,
    Sha512,
}

/// The name `totp-rs` gives an algorithm in `otpauth://` URIs.
pub open spec fn algorithm_name(a: TotpAlgorithm) -> Seq<char> {
    match a {
        TotpAlgorithm::Sha1 => seq!['S', 'H', 'A', '1'],
        TotpAlgorithm::Sha256 => seq!['S', 'H', 'A', '2', '5', '6'],
        TotpAlgorithm::Sha512 => seq!['S', 'H', 'A', '5', '1', '2'],
    }
}

/// Bit `k` of `b` read as one big-endian bit string (0 past the end).
pub open spec fn bit_at(b: Seq<u8>, k: int) -> int {
    if 0 <= k < b.len() * 8 {
        (b[k / 8] as int / pow2_int(7 - k % 8)) % 2
    } else {
        0
    }
}

/// `2` to the power `n`, for `0 <= n < 8`.
pub open spec fn pow2_int(n: int) -> int
    decreases n,
{
    if n <= 0 {
        1
    } else {
        2 * pow2_int(n - 1)
    }
}

/// The RFC 4648 base32 digit of a five-bit value.
pub open spec fn base32_digit(n: int) -> char {
    if n < 26 {
        (('A' as int) + n) as char
    } else {
        (('2' as int) + n - 26) as char
    }
}

/// RFC 4648 base32 without padding: the bit string of `b`, padded with
/// zero bits to a multiple of five, read five bits per digit.
pub open spec fn base32_text(b: Seq<u8>) -> Seq<char> {
    Seq::new(
        ((b.len() * 8 + 4) / 5) as nat,
        |j: int|
            base32_digit(
                bit_at(b, 5 * j) * 16 + bit_at(b, 5 * j + 1) * 8 + bit_at(b, 5 * j + 2) * 4
                    + bit_at(b, 5 * j + 3) * 2 + bit_at(b, 5 * j + 4),
            ),
    )
}

/// The upper-case hexadecimal digit of `n` (0 to 15).
pub open spec fn upper_hex_digit(n: int) -> char {
    if n < 10 {
        (('0' as int) + n) as char
    } else {
        (('A' as int) + n - 10) as char
    }
}

/// Bytes that `urlencoding` leaves as they are: ASCII letters and digits,
/// `-`, `.`, `_` and `~`.
pub open spec fn url_unreserved(c: u8) -> bool {
    ||| 48 <= c <= 57
    ||| 65 <= c <= 90
    ||| 97 <= c <= 122
    ||| c == 45
    ||| c == 46
    ||| c == 95
    ||| c == 126
}

/// `urlencoding::encode` of the bytes: unreserved bytes stay, every other
/// byte becomes `%` and two upper-case hexadecimal digits.
pub open spec fn url_encoded(b: Seq<u8>) -> Seq<char>
    decreases b.len(),
{
    if b.len() == 0 {
        Seq::empty()
    } else {
        let c = b[0];
        let head = if url_unreserved(c) {
            seq![c as char]
        } else {
            seq!['%', upper_hex_digit(c as int / 16), upper_hex_digit(c as int % 16)]
        };
        head + url_encoded(b.drop_first())
    }
}

/// The decimal digits of `n`.
pub open spec fn decimal(n: nat) -> Seq<char>
    decreases n,
{
    if n < 10 {
        seq![(('0' as int) + n) as char]
    } else {
        decimal(n / 10).push((('0' as int) + n % 10) as char)
    }
}

/// The `otpauth://totp/` URI that `TOTP::get_url` writes: the label
/// (issuer, `:` and account name, URL-encoded), then the base32 secret, the
/// digits when not 6, the algorithm when not SHA-1, the issuer, and the
/// period when not 30 seconds.
pub open spec fn otpauth_url(
    algorithm: TotpAlgorithm,
    digits: usize,
    step: u64,
    secret: Seq<u8>,
    issuer: Option<Seq<char>>,
    account: Seq<char>,
) -> Seq<char> {
    let acc = url_encoded(encode_utf8(account));
    let label = match issuer {
        Some(i) => url_encoded(encode_utf8(i)) + seq![':'] + acc,
        None => acc,
    };
    let p1 = seq!['s', 'e', 'c', 'r', 'e', 't', '='] + base32_text(secret);
    let p2 = if digits != 6 {
        p1 + seq!['&', 'd', 'i', 'g', 'i', 't', 's', '='] + decimal(digits as nat)
    } else {
        p1
    };
    let p3 = if algorithm != TotpAlgorithm::Sha1 {
        p2 + seq!['&', 'a', 'l', 'g', 'o', 'r', 'i', 't', 'h', 'm', '='] + algorithm_name(algorithm)
    } else {
        p2
    };
    let p4 = match issuer {
        Some(i) => p3 + seq!['&', 'i', 's', 's', 'u', 'e', 'r', '='] + url_encoded(encode_utf8(i)),
        None => p3,
    };
    let p5 = if step != 30 {
        p4 + seq!['&', 'p', 'e', 'r', 'i', 'o', 'd', '='] + decimal(step as nat)
    } else {
        p4
    };
    seq!['o', 't', 'p', 'a', 'u', 't', 'h', ':', '/', '/', 't', 'o', 't', 'p', '/'] + label + seq![
        '?',
    ] + p5
}

/// The bytes of a base32 secret (RFC 4648 alphabet, no padding), as
/// `Secret::Encoded(text).to_bytes()` reads them, if the text is base32.
pub uninterp spec fn base32_secret_bytes(text: Seq<char>) -> Option<Seq<u8>>;

/// The code that `TOTP::generate` gives at `time` for a generator with the
/// given algorithm, digits, step and secret.
pub uninterp spec fn totp_token(
    algorithm: TotpAlgorithm,
    digits: usize,
    step: u64,
    secret: Seq<u8>,
    time: u64,
) -> Seq<char>;

/// `TOTP::check`: the code is the one generated at the step of `time` or at
/// one of the `skew` steps before or after it.
pub open spec fn totp_accepts(
    algorithm: TotpAlgorithm,
    digits: usize,
    skew: u8,
    step: u64,
    secret: Seq<u8>,
    code: Seq<char>,
    time: u64,
) -> bool {
    exists|i: int|
        0 <= i <= 2 * skew && #[trigger] totp_token(
            algorithm,
            digits,
            step,
            secret,
            ((time / step - skew + i) * step) as u64,
        ) == code
}

/// Whether `TOTP::new` accepts its arguments: 6 to 8 digits, a secret of at
/// least 128 bits, and no `:` in the issuer or the account name.
pub open spec fn totp_arguments_ok(
    digits: usize,
    secret: Seq<u8>,
    issuer: Option<Seq<char>>,
    account_name: Seq<char>,
) -> bool {
    &&& 6 <= digits <= 8
    &&& secret.len() >= 16
    &&& issuer matches Some(i) ==> !i.contains(':')
    &&& !account_name.contains(':')
}

/// The text of an optional string.
pub open spec fn opt_text(s: Option<String>) -> Option<Seq<char>> {
    match s {
        Some(t) => Some(t@),
        None => None,
    }
}

/// `Secret::generate_secret()`: 160 random bits, as raw bytes.
#[verifier::external_body]
fn random_secret() -> (b: Vec<u8>)
    ensures
        b@.len() == 20,
{
    totp_rs::Secret::generate_secret().to_bytes().unwrap_or_default()
}

/// `Secret::Raw(bytes).to_encoded()` as text: base32 without padding;
/// reading it back as a `Secret::Encoded` gives the same bytes.
#[verifier::external_body]
fn base32_encode(bytes: &Vec<u8>) -> (s: String)
    ensures
        s@ == base32_text(bytes@),
        base32_secret_bytes(s@) == Some(bytes@),
{
    totp_rs::Secret::Raw(bytes.clone()).to_encoded().to_string()
}

/// `Secret::Encoded(text).to_bytes()`.
#[verifier::external_body]
fn base32_decode(text: &str) -> (r: Option<Vec<u8>>)
    ensures
        match r {
            Some(b) => base32_secret_bytes(text@) == Some(b@),
            None => base32_secret_bytes(text@) is None,
        },
{
    match totp_rs::Secret::Encoded(text.to_string()).to_bytes() {
        Ok(b) => Some(b),
        Err(_) => None,
    }
}

/// Whether `TOTP::new` accepts the arguments: it refuses a digit count
/// outside 6..=8, a secret under 128 bits, or a `:` in the issuer or the
/// account name.
#[verifier::external_body]
fn totp_new_accepts(
    algorithm: TotpAlgorithm,
    digits: usize,
    skew: u8,
    step: u64,
    secret: Vec<u8>,
    issuer: Option<String>,
    account_name: String,
) -> (b: bool)
    ensures
        b == totp_arguments_ok(digits, secret@, opt_text(issuer), account_name@),
{
    let algorithm = match algorithm {
        TotpAlgorithm::Sha1 => totp_rs::Algorithm::SHA1,
        TotpAlgorithm::Sha256 => totp_rs::Algorithm::SHA256,
        TotpAlgorithm::Sha512 => totp_rs::Algorithm::SHA512,
    };
    totp_rs::TOTP::new(algorithm, digits, skew, step, secret, issuer, account_name).is_ok()
}

/// `TOTP::get_url` of the generator with these fields (the skew does not
/// appear in the URI).
#[verifier::external_body]
fn totp_url(
    algorithm: TotpAlgorithm,
    digits: usize,
    skew: u8,
    step: u64,
    secret: Vec<u8>,
    issuer: Option<String>,
    account_name: String,
) -> (s: String)
    ensures
        s@ == otpauth_url(algorithm, digits, step, secret@, opt_text(issuer), account_name@),
{
    let algorithm = match algorithm {
        TotpAlgorithm::Sha1 => totp_rs::Algorithm::SHA1,
        TotpAlgorithm::Sha256 => totp_rs::Algorithm::SHA256,
        TotpAlgorithm::Sha512 => totp_rs::Algorithm::SHA512,
    };
    let totp = totp_rs::TOTP { algorithm, digits, skew, step, secret, issuer, account_name };
    totp.get_url()
}

/// `TOTP::check(code, time)` of the generator with these fields: whether
/// the code is the one generated for the step of `time` or one of the
/// `skew` steps around it (the issuer and account name play no part). The
/// step must not be zero, `time / step` must be at least `skew` and the
/// last step checked must fit in `u64`, or the generator's arithmetic fails;
/// at most 9 digits fit its `u32` arithmetic.
#[verifier::external_body]
fn totp_check(
    algorithm: TotpAlgorithm,
    digits: usize,
    skew: u8,
    step: u64,
    secret: Vec<u8>,
    issuer: Option<String>,
    account_name: String,
    code: &str,
    time: u64,
) -> (b: bool)
    requires
        step > 0,
        digits <= 9,
        time / step >= skew,
        time + skew * step <= u64::MAX,
    ensures
        b == totp_accepts(algorithm, digits, skew, step, secret@, code@, time),
        b == (exists|i: int|
            0 <= i <= 2 * skew && #[trigger] totp_token(
                algorithm,
                digits,
                step,
                secret@,
                ((time / step - skew + i) * step) as u64,
            ) == code@),
{
    let algorithm = match algorithm {
        TotpAlgorithm::Sha1 => totp_rs::Algorithm::SHA1,
        TotpAlgorithm::Sha256 => totp_rs::Algorithm::SHA256,
        TotpAlgorithm::Sha512 => totp_rs::Algorithm::SHA512,
    };
    let totp = totp_rs::TOTP { algorithm, digits, skew, step, secret, issuer, account_name };
    totp.check(code, time)
}

/// `SystemTime::now()`: the current time of the system clock.
#[verifier::external_body]
fn system_now() -> std::time::SystemTime {
    std::time::SystemTime::now()
}

/// `t.duration_since(UNIX_EPOCH)` in whole seconds, or `None` when `t` is
/// before the epoch.
#[verifier::external_body]
fn seconds_since_epoch(t: &std::time::SystemTime) -> Option<u64> {
    match t.duration_since(std::time::UNIX_EPOCH) {
        Ok(d) => Some(d.as_secs()),
        Err(_) => None,
    }
}

/// The instants at which a code can be checked (SHA-1, 6 digits, one step
/// of skew, 30-second steps) without the generator's arithmetic failing.
pub open spec fn checkable_time(now: u64) -> bool {
    30 <= now <= u64::MAX - 30
}

/// Generation and verification of TOTP secrets and codes.
pub struct TotpService;

impl TotpService {
    /// A new base32 secret and its `otpauth://` URI for the account
    /// `username` of `issuer` (SHA-1, 6 digits, 30-second steps). The secret
    /// holds 160 random bits, and the URI carries it with the issuer and the
    /// account name.
    pub fn generate_secret(username: &str, issuer: &str) -> (r: (String, String))
        requires
            !username@.contains(':'),
            !issuer@.contains(':'),
        ensures
            exists|b: Seq<u8>|
                #![trigger base32_text(b)]
                {
                    &&& b.len() == 20
                    &&& r.0@ == base32_text(b)
                    &&& base32_secret_bytes(r.0@) == Some(b)
                    &&& r.1@ == otpauth_url(
                        TotpAlgorithm::Sha1,
                        6,
                        30,
                        b,
                        Some(issuer@),
                        username@,
                    )
                },
    {
        let secret = random_secret();
        let secret_base32 = base32_encode(&secret);
        let accepted = totp_new_accepts(
            TotpAlgorithm::Sha1,
            6,
            1,
            30,
            secret.clone(),
            Some(issuer.to_owned()),
            username.to_owned(),
        );
        proof {
            assert(accepted);
        }
        let uri = totp_url(
            TotpAlgorithm::Sha1,
            6,
            1,
            30,
            secret.clone(),
            Some(issuer.to_owned()),
            username.to_owned(),
        );
        proof {
            assert(base32_text(secret@) == secret_base32@);
        }
        (secret_base32, uri)
    }

    /// The answer to a code once the generator has checked it: accepted, or
    /// `TotpInvalidCode`.
    pub fn code_outcome(valid: bool) -> (r: Result<bool, DomainError>)
        ensures
            valid ==> r == Ok::<bool, DomainError>(true),
            !valid ==> (r matches Err(e) && e.code == ErrorCode::TotpInvalidCode && e.message@
                == "Invalid 6-digit authentication code"@ && e.params@.len() == 0),
    {
        if valid {
            Ok(true)
        } else {
            Err(DomainError::new(ErrorCode::TotpInvalidCode, "Invalid 6-digit authentication code"))
        }
    }

    /// The secret bytes that codes are checked against: the base32 secret
    /// must decode and be long enough for the generator.
    fn checked_secret(secret_base32: &str) -> (r: Result<Vec<u8>, DomainError>)
        ensures
            match base32_secret_bytes(secret_base32@) {
                None => r matches Err(e) && e.code == ErrorCode::TotpInvalidCode && e.message@
                    == "Invalid TOTP secret format"@ && e.params@.len() == 0,
                Some(b) => if b.len() < 16 {
                    r matches Err(e) && e.code == ErrorCode::TotpInvalidCode && e.message@
                        == "Failed to initialize TOTP"@ && e.params@.len() == 0
                } else {
                    r matches Ok(v) && v@ == b
                },
            },
    {
        let secret = match base32_decode(secret_base32) {
            Some(b) => b,
            None => {
                return Err(DomainError::new(ErrorCode::TotpInvalidCode, "Invalid TOTP secret format"));
            },
        };
        if !totp_new_accepts(TotpAlgorithm::Sha1, 6, 1, 30, secret.clone(), None, String::new()) {
            return Err(DomainError::new(ErrorCode::TotpInvalidCode, "Failed to initialize TOTP"));
        }
        Ok(secret)
    }

    /// Verifies a 6-digit code against a base32 secret at the Unix time
    /// `now` (SHA-1, 30-second steps, one step of skew). A secret that is
    /// not base32 or shorter than 128 bits is refused before any code is
    /// checked; otherwise the code is accepted exactly when it is the one of
    /// the step of `now`, of the step before or of the step after.
    pub fn verify_code_at(secret_base32: &str, code: &str, now: u64) -> (r: Result<bool, DomainError>)
        requires
            checkable_time(now),
        ensures
            match base32_secret_bytes(secret_base32@) {
                None => r matches Err(e) && e.code == ErrorCode::TotpInvalidCode && e.message@
                    == "Invalid TOTP secret format"@ && e.params@.len() == 0,
                Some(b) => if b.len() < 16 {
                    r matches Err(e) && e.code == ErrorCode::TotpInvalidCode && e.message@
                        == "Failed to initialize TOTP"@ && e.params@.len() == 0
                } else if totp_accepts(TotpAlgorithm::Sha1, 6, 1, 30, b, code@, now) {
                    r == Ok::<bool, DomainError>(true)
                } else {
                    r matches Err(e) && e.code == ErrorCode::TotpInvalidCode && e.message@
                        == "Invalid 6-digit authentication code"@ && e.params@.len() == 0
                },
            },
    {
        let secret = Self::checked_secret(secret_base32)?;
        let valid = totp_check(TotpAlgorithm::Sha1, 6, 1, 30, secret, None, String::new(), code, now);
        Self::code_outcome(valid)
    }

    /// Verifies a 6-digit code against a base32 secret with the clock
    /// reading `reading` (whole seconds since the Unix epoch, `None` for a
    /// clock before the epoch). The secret is checked as by
    /// `verify_code_at`; at a checkable reading the code is answered as
    /// `verify_code_at` answers it at that instant, and any other reading
    /// accepts no code.
    pub fn verify_code_at_reading(secret_base32: &str, code: &str, reading: Option<u64>) -> (r:
        Result<bool, DomainError>)
        ensures
            code_answer(secret_base32@, code@, reading, r),
    {
        match reading {
            Some(now) => if 30 <= now && now <= u64::MAX - 30 {
                return Self::verify_code_at(secret_base32, code, now);
            },
            None => {},
        }
        let _secret = Self::checked_secret(secret_base32)?;
        Self::code_outcome(false)
    }

    /// Verifies a 6-digit code against a base32 secret at the current time
    /// of the system clock: the answer is that of `verify_code_at_reading`
    /// for the clock's reading. The secret is checked as by
    /// `verify_code_at`; a code is accepted only when it is valid at some
    /// instant the clock can read, and a clock before the epoch (or within
    /// 30 seconds of it, or of the end of `u64` time) accepts no code.
    pub fn verify_code(secret_base32: &str, code: &str) -> (r: Result<bool, DomainError>)
        ensures
            exists|reading: Option<u64>| code_answer(secret_base32@, code@, reading, r),
            r is Ok ==> r == Ok::<bool, DomainError>(true),
            r matches Err(e) ==> e.code == ErrorCode::TotpInvalidCode && e.params@.len() == 0,
            match base32_secret_bytes(secret_base32@) {
                None => r matches Err(e) && e.message@ == "Invalid TOTP secret format"@,
                Some(b) => if b.len() < 16 {
                    r matches Err(e) && e.message@ == "Failed to initialize TOTP"@
                } else {
                    &&& r is Ok ==> exists|t: u64|
                        checkable_time(t) && totp_accepts(
                            TotpAlgorithm::Sha1,
                            6,
                            1,
                            30,
                            b,
                            code@,
                            t,
                        )
                    &&& r matches Err(e) ==> e.message@
                        == "Invalid 6-digit authentication code"@
                },
            },
    {
        let clock = system_now();
        let reading = seconds_since_epoch(&clock);
        let r = Self::verify_code_at_reading(secret_base32, code, reading);
        proof {
            if let Some(b) = base32_secret_bytes(secret_base32@) {
                if r is Ok && b.len() >= 16 {
                    let t = reading->0;
                    assert(checkable_time(t) && totp_accepts(
                        TotpAlgorithm::Sha1,
                        6,
                        1,
                        30,
                        b,
                        code@,
                        t,
                    ));
                }
            }
        }
        r
    }
}

/// The answer to the code `code` checked against the base32 secret `secret`
/// with the clock reading `reading`: a secret that is not base32 or shorter
/// than 128 bits is refused first; then the code is accepted exactly when
/// the reading is a checkable instant at which the code is that of its
/// step, of the step before or of the step after (SHA-1, 6 digits,
/// 30-second steps), and refused as an invalid code otherwise.
pub open spec fn code_answer(
    secret: Seq<char>,
    code: Seq<char>,
    reading: Option<u64>,
    r: Result<bool, DomainError>,
) -> bool {
    match base32_secret_bytes(secret) {
        None => r matches Err(e) && e.code == ErrorCode::TotpInvalidCode && e.message@
            == "Invalid TOTP secret format"@ && e.params@.len() == 0,
        Some(b) => if b.len() < 16 {
            r matches Err(e) && e.code == ErrorCode::TotpInvalidCode && e.message@
                == "Failed to initialize TOTP"@ && e.params@.len() == 0
        } else if reading matches Some(t) && checkable_time(t) && totp_accepts(
            TotpAlgorithm::Sha1,
            6,
            1,
            30,
            b,
            code,
            t,
        ) {
            r == Ok::<bool, DomainError>(true)
        } else {
            r matches Err(e) && e.code == ErrorCode::TotpInvalidCode && e.message@
                == "Invalid 6-digit authentication code"@ && e.params@.len() == 0
        },
    }
}

/// With a secret of at least 128 bits and a checkable clock reading `t`, a
/// code is accepted exactly when the generator accepts it at `t`, and the
/// answer is then the one `verify_code_at` gives at `t`; a code that is
/// refused is refused as an invalid code. Two answers for the same secret,
/// code and reading are the same answer.
pub proof fn lemma_code_answer_at_reading(
    secret: Seq<char>,
    code: Seq<char>,
    t: u64,
    r: Result<bool, DomainError>,
    r2: Result<bool, DomainError>,
)
    requires
        checkable_time(t),
        base32_secret_bytes(secret) matches Some(b) && b.len() >= 16,
        code_answer(secret, code, Some(t), r),
        code_answer(secret, code, Some(t), r2),
    ensures
        r == Ok::<bool, DomainError>(true) <==> totp_accepts(
            TotpAlgorithm::Sha1,
            6,
            1,
            30,
            base32_secret_bytes(secret)->0,
            code,
            t,
        ),
        r is Err <==> !totp_accepts(
            TotpAlgorithm::Sha1,
            6,
            1,
            30,
            base32_secret_bytes(secret)->0,
            code,
            t,
        ),
        r matches Err(e) ==> e.code == ErrorCode::TotpInvalidCode && e.message@
            == "Invalid 6-digit authentication code"@,
        r.is_ok() == r2.is_ok(),
{
}

} // verus!
