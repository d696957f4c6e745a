use vstd::prelude::*;

verus! {

/// The last second that `chrono` can represent: 262142-12-31 23:59:59 UTC.
pub const MAX_TIMESTAMP: i64 = 8210266876799;

/// The last second of the year 9999, the last one an RFC 2822 date can name.
pub const MAX_RFC2822_TIMESTAMP: i64 = 253402300799;

/// Seconds in a day.
pub const SECS_PER_DAY: i64 = 86400;

/// A point in time: whole seconds since the Unix epoch and the
/// nanoseconds past that second.
#[derive(Debug, Clone, Copy, PartialEq, Eq, Structural)]
pub struct UtcInstant {
    pub secs: i64,
    pub nanos: u32,
}

impl UtcInstant {
    /// Not before the epoch, representable by `chrono`, and with a
    /// sub-second part below one second.
    pub open spec fn valid(self) -> bool {
        0 <= self.secs <= MAX_TIMESTAMP && self.nanos < 1_000_000_000
    }
}

/// The RFC 3339 text that `chrono`'s `DateTime::to_rfc3339` writes for
/// this instant in UTC.
pub uninterp spec fn rfc3339_text(secs: i64, nanos: u32) -> Seq<char>;

/// The RFC 2822 text that `chrono`'s `DateTime::to_rfc2822` writes for
/// this instant in UTC.
pub uninterp spec fn rfc2822_text(secs: i64, nanos: u32) -> Seq<char>;

/// `chrono::Utc::now()`, as its timestamp and sub-second nanoseconds.
/// The value is the clock's; what holds of every outcome: `Utc::now`
/// panics on a clock before the epoch and builds the value with
/// `DateTime::from_timestamp(..).unwrap()` from a `Duration`, so the
/// seconds lie in `chrono`'s range and the nanoseconds below one second.
#[verifier::external_body]
pub(crate) fn utc_now() -> (t: UtcInstant)
    ensures
        t.valid(),
{
    let now = chrono::Utc::now();
    UtcInstant { secs: now.timestamp(), nanos: now.timestamp_subsec_nanos() }
}

/// `t` is a reading of the system clock: a value that `utc_now` can
/// return. Only a call of `utc_now` shows this of a value.
pub closed spec fn clock_reading(t: UtcInstant) -> bool {
    call_ensures(utc_now, (), t)
}

/// A clock reading is a valid instant.
pub proof fn lemma_clock_reading_valid(t: UtcInstant)
    requires
        clock_reading(t),
    ensures
        t.valid(),
{
}

/// What a call of `utc_now` returned is a clock reading.
pub(crate) proof fn lemma_read_clock(t: UtcInstant)
    requires
        call_ensures(utc_now, (), t),
    ensures
        clock_reading(t),
{
}

/// `DateTime::from_timestamp(secs, 0)` followed by `checked_add_signed`
/// of `TimeDelta::days(days)` and `timestamp()`: the timestamp `days`
/// days later, or `None` where either step leaves `chrono`'s range. A
/// start and an end inside 0..=MAX_TIMESTAMP are within that range.
#[verifier::external_body]
pub(crate) fn timestamp_after_days(secs: i64, days: i64) -> (r: Option<i64>)
    requires
        0 <= days <= 36500,
    ensures
        r matches Some(t) ==> t == secs + days * SECS_PER_DAY,
        0 <= secs && secs + days * SECS_PER_DAY <= MAX_TIMESTAMP ==> r is Some,
{
    let start = chrono::DateTime::from_timestamp(secs, 0)?;
    let end = start.checked_add_signed(chrono::TimeDelta::days(days))?;
    Some(end.timestamp())
}

/// `DateTime::<Utc>::to_rfc3339` of the instant.
#[verifier::external_body]
pub(crate) fn format_rfc3339(t: UtcInstant) -> (s: String)
    requires
        t.valid(),
    ensures
        s@ == rfc3339_text(t.secs, t.nanos),
{
    chrono::DateTime::from_timestamp(t.secs, t.nanos).unwrap().to_rfc3339()
}

/// `DateTime::<Utc>::to_rfc2822` of the instant; `chrono` panics on a
/// year past 9999, which `requires` leaves out.
#[verifier::external_body]
pub(crate) fn format_rfc2822(t: UtcInstant) -> (s: String)
    requires
        t.valid(),
        t.secs <= MAX_RFC2822_TIMESTAMP,
    ensures
        s@ == rfc2822_text(t.secs, t.nanos),
{
    chrono::DateTime::from_timestamp(t.secs, t.nanos).unwrap().to_rfc2822()
}

} // verus!
