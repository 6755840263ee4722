//! Points in time, as chrono's `DateTime<Utc>` holds them: whole seconds
//! since the Unix epoch and the nanoseconds within the second.

use vstd::prelude::*;

verus! {

/// Whether chrono can represent the instant `secs` seconds and `nanos`
/// nanoseconds after 1970-01-01T00:00:00Z (`DateTime::from_timestamp`
/// returns `Some`).
pub uninterp spec fn utc_timestamp_valid(secs: i64, nanos: u32) -> bool;

/// The RFC 3339 text that chrono writes for a valid instant
/// (`DateTime::<Utc>::to_rfc3339`).
pub uninterp spec fn rfc3339_text(secs: i64, nanos: u32) -> Seq<char>;

/// The instant that chrono reads from an RFC 3339 text
/// (`DateTime::parse_from_rfc3339`), as seconds and nanoseconds.
pub uninterp spec fn rfc3339_parse(text: Seq<char>) -> Option<(i64, u32)>;

/// First second of the year 0000 and last second of the year 9999: the
/// instants whose RFC 3339 text has a four-digit year.
pub open spec fn four_digit_year(secs: i64) -> bool {
    -62167219200 <= secs <= 253402300799
}

/// The nanoseconds are under a second, or under two seconds in the last
/// second of a minute (a leap second).
pub open spec fn fraction_fits(secs: i64, nanos: u32) -> bool {
    nanos < 1_000_000_000 || (nanos < 2_000_000_000 && secs % 60 == 59)
}

/// Whether `DateTime::<Utc>::from_timestamp(secs, nanos)` gives an instant:
/// only when the nanoseconds are under two seconds, and past one second
/// only in the last second of a minute (a leap second); within years
/// 0000 to 9999 that is also enough.
#[verifier::external_body]
fn utc_instant_exists(secs: i64, nanos: u32) -> (b: bool)
    ensures
        b == utc_timestamp_valid(secs, nanos),
        b ==> fraction_fits(secs, nanos),
        four_digit_year(secs) ==> b == fraction_fits(secs, nanos),
{
    chrono::DateTime::<chrono::Utc>::from_timestamp(secs, nanos).is_some()
}

/// `DateTime::<Utc>::to_rfc3339` of the instant `(secs, nanos)`: the text is
/// made of digits, `-`, `+`, `:`, `T` and `.` only, and chrono reads it back
/// to the same instant when the year has four digits (a leap second is
/// written as second 60 and read back as such).
#[verifier::external_body]
fn format_rfc3339(secs: i64, nanos: u32) -> (s: String)
    requires
        utc_timestamp_valid(secs, nanos),
    ensures
        s@ == rfc3339_text(secs, nanos),
        !s@.contains('|'),
        four_digit_year(secs) ==> rfc3339_parse(s@) == Some((secs, nanos)),
{
    chrono::DateTime::<chrono::Utc>::from_timestamp(secs, nanos).unwrap().to_rfc3339()
}

/// `DateTime::parse_from_rfc3339`, giving the instant as seconds and
/// nanoseconds since the epoch; chrono only yields instants it can
/// represent.
#[verifier::external_body]
fn parse_rfc3339(text: &str) -> (r: Option<(i64, u32)>)
    ensures
        r == rfc3339_parse(text@),
        r matches Some(p) ==> utc_timestamp_valid(p.0, p.1),
{
    match chrono::DateTime::parse_from_rfc3339(text) {
        Ok(d) => Some((d.timestamp(), d.timestamp_subsec_nanos())),
        Err(_) => None,
    }
}

/// `Utc::now()`, as seconds and nanoseconds since the epoch; the current
/// instant is one chrono represents, and not before the epoch (`Utc::now`
/// panics on a system clock set before it).
#[verifier::external_body]
fn utc_now_parts() -> (r: (i64, u32))
    ensures
        utc_timestamp_valid(r.0, r.1),
        r.0 >= 0,
{
    let now = chrono::Utc::now();
    (now.timestamp(), now.timestamp_subsec_nanos())
}

/// An instant that chrono can represent.
#[derive(Clone, Copy, Debug, PartialEq, Eq, Structural)]
pub struct Timestamp {
    secs: i64,
    nanos: u32,
}

impl Timestamp {
    #[verifier::type_invariant]
    spec fn representable(self) -> bool {
        utc_timestamp_valid(self.secs, self.nanos)
    }

    /// Whole seconds since the Unix epoch.
    pub closed spec fn seconds(self) -> i64 {
        self.secs
    }

    /// Nanoseconds within the second.
    pub closed spec fn subsec_nanos(self) -> u32 {
        self.nanos
    }

    /// The instant `secs` seconds and `nanos` nanoseconds after the epoch,
    /// when chrono can represent it.
    pub fn from_unix(secs: i64, nanos: u32) -> (r: Option<Timestamp>)
        ensures
            r is Some <==> utc_timestamp_valid(secs, nanos),
            r matches Some(t) ==> t.seconds() == secs && t.subsec_nanos() == nanos,
    {
        if utc_instant_exists(secs, nanos) {
            Some(Timestamp { secs, nanos })
        } else {
            None
        }
    }

    /// The current instant (read from the system clock), which is not
    /// before the epoch.
    pub fn now() -> (t: Timestamp)
        ensures
            t.seconds() >= 0,
    {
        let (secs, nanos) = utc_now_parts();
        Timestamp { secs, nanos }
    }

    /// Whole seconds since the Unix epoch.
    pub fn secs(&self) -> (s: i64)
        ensures
            s == self.seconds(),
    {
        self.secs
    }

    /// Nanoseconds within the second.
    pub fn nanos(&self) -> (n: u32)
        ensures
            n == self.subsec_nanos(),
    {
        self.nanos
    }

    /// Strictly later than `other`.
    pub open spec fn later_than(self, other: Timestamp) -> bool {
        ||| self.seconds() > other.seconds()
        ||| self.seconds() == other.seconds() && self.subsec_nanos() > other.subsec_nanos()
    }

    /// Whether this instant is strictly later than `other`.
    pub fn is_after(&self, other: &Timestamp) -> (b: bool)
        ensures
            b == self.later_than(*other),
    {
        self.secs > other.secs || (self.secs == other.secs && self.nanos > other.nanos)
    }

    /// The RFC 3339 text of the instant.
    pub fn to_rfc3339(&self) -> (s: String)
        ensures
            s@ == rfc3339_text(self.seconds(), self.subsec_nanos()),
            !s@.contains('|'),
            four_digit_year(self.seconds()) ==> rfc3339_parse(s@)
                == Some((self.seconds(), self.subsec_nanos())),
    {
        proof {
            use_type_invariant(self);
        }
        format_rfc3339(self.secs, self.nanos)
    }

    /// The instant named by an RFC 3339 text, when chrono reads one.
    pub fn parse_rfc3339(text: &str) -> (r: Option<Timestamp>)
        ensures
            r is Some <==> rfc3339_parse(text@) is Some,
            r matches Some(t) ==> rfc3339_parse(text@) == Some((t.seconds(), t.subsec_nanos())),
    {
        match parse_rfc3339(text) {
            Some((secs, nanos)) => Some(Timestamp { secs, nanos }),
            None => None,
        }
    }
}

} // verus!
