//! Instants of the local clock and their text, as `chrono` writes them.
use vstd::prelude::*;
use chrono::{DateTime, FixedOffset, Local, SecondsFormat, TimeZone};
use std::time::{SystemTime, UNIX_EPOCH};

verus! {

/// The earliest second since the Unix epoch that `chrono` can represent
/// (1 January of the year -262143, UTC).
pub const MIN_TIMESTAMP: i64 = -8334601228800;

/// The latest second since the Unix epoch that `chrono` can represent
/// (31 December of the year 262142, 23:59:59 UTC).
pub const MAX_TIMESTAMP: i64 = 8210266876799;

/// An instant together with the offset of the local time zone at it, both
/// the instant and its local time within the range of `chrono`.
#[derive(Clone, Copy, Debug, PartialEq, Eq)]
pub struct LocalInstant {
    secs: i64,
    offset_secs: i32,
}

impl LocalInstant {
    #[verifier::type_invariant]
    spec fn well_formed(self) -> bool {
        &&& MIN_TIMESTAMP <= self.secs <= MAX_TIMESTAMP
        &&& -86_400 < self.offset_secs < 86_400
        &&& MIN_TIMESTAMP <= self.secs + self.offset_secs <= MAX_TIMESTAMP
    }

    /// Seconds since the Unix epoch.
    pub closed spec fn secs(self) -> i64 {
        self.secs
    }

    /// Seconds by which local time is ahead of UTC.
    pub closed spec fn offset_secs(self) -> i32 {
        self.offset_secs
    }

    /// The instant `secs` seconds after the Unix epoch, in a zone `offset_secs`
    /// seconds ahead of UTC; `None` where the instant, the offset or the local
    /// time is out of range.
    pub fn new(secs: i64, offset_secs: i32) -> (r: Option<LocalInstant>)
        ensures
            r is Some <==> (MIN_TIMESTAMP <= secs <= MAX_TIMESTAMP && -86_400 < offset_secs < 86_400
                && MIN_TIMESTAMP <= secs + offset_secs <= MAX_TIMESTAMP),
            r matches Some(at) ==> at.secs() == secs && at.offset_secs() == offset_secs,
    {
        if MIN_TIMESTAMP <= secs && secs <= MAX_TIMESTAMP && -86_400 < offset_secs && offset_secs
            < 86_400 {
            let local = secs + offset_secs as i64;
            if MIN_TIMESTAMP <= local && local <= MAX_TIMESTAMP {
                return Some(LocalInstant { secs, offset_secs });
            }
        }
        None
    }

    /// Seconds since the Unix epoch.
    pub fn timestamp(&self) -> (r: i64)
        ensures
            r == self.secs(),
    {
        self.secs
    }

    /// Seconds by which local time is ahead of UTC.
    pub fn offset(&self) -> (r: i32)
        ensures
            r == self.offset_secs(),
    {
        self.offset_secs
    }
}

/// The text that `chrono` formats for the instant `secs` in the zone
/// `offset_secs` seconds ahead of UTC, with the `strftime` pattern `pattern`.
pub uninterp spec fn local_time_text(secs: i64, offset_secs: i32, pattern: Seq<char>) -> Seq<char>;

/// The RFC 3339 text, in whole seconds and with `Z` for UTC, that `chrono`
/// writes for the instant `secs` in the zone `offset_secs` seconds ahead of UTC.
pub uninterp spec fn rfc3339_text(secs: i64, offset_secs: i32) -> Seq<char>;

/// The patterns that the clock formats with.
pub open spec fn clock_pattern(pattern: Seq<char>) -> bool {
    ||| pattern == "%I:%M:%S %p"@
    ||| pattern == "%H:%M:%S"@
    ||| pattern == "%Y-%m-%d"@
}

/// The decimal digit `d` (0 to 9).
pub open spec fn digit(d: int) -> char {
    (('0' as int) + d) as char
}

/// `n` (0 to 99) in two decimal digits.
pub open spec fn two_digits(n: int) -> Seq<char> {
    seq![digit(n / 10), digit(n % 10)]
}

/// The text of a UTC offset: its sign, then hours and minutes in two digits
/// each, and the seconds in two more digits only where they are not zero
/// (`+08:00`, `-05:30`, `+00:00:30`).
pub open spec fn utc_offset_text(offset_secs: int) -> Seq<char> {
    let sign = if offset_secs < 0 { '-' } else { '+' };
    let magnitude = if offset_secs < 0 { -offset_secs } else { offset_secs };
    let sec = magnitude % 60;
    let min = (magnitude / 60) % 60;
    let hour = magnitude / 3600;
    let head = seq![sign] + two_digits(hour) + seq![':'] + two_digits(min);
    if sec == 0 {
        head
    } else {
        head + seq![':'] + two_digits(sec)
    }
}

/// Reads the system clock (`std::time::SystemTime::now`, then
/// `duration_since(UNIX_EPOCH)`): the whole seconds since the Unix epoch, or
/// `None` where the clock reads a time before the epoch. Nothing is stated of
/// the value, which is the time.
#[verifier::external_body]
fn seconds_since_epoch() -> (r: Option<u64>) {
    match SystemTime::now().duration_since(UNIX_EPOCH) {
        Ok(elapsed) => Some(elapsed.as_secs()),
        Err(_) => None,
    }
}

/// The offset of the local time zone at the instant `secs` seconds after the
/// Unix epoch (`chrono::Local::offset_from_utc_datetime`, on the instant that
/// `DateTime::from_timestamp` gives, which exists for every `secs` in the
/// range of `chrono`): less than a day either way, as every
/// `chrono::FixedOffset` is. Which offset it is depends on the time zone of
/// the machine and is not stated. The lookup in the zone data of the machine
/// panics only where that data gives no offset, or one of a day or more, for
/// the instant, which no argument can rule out.
#[verifier::external_body]
fn local_offset_at(secs: i64) -> (r: i32)
    requires
        MIN_TIMESTAMP <= secs <= MAX_TIMESTAMP,
    ensures
        -86_400 < r < 86_400,
{
    let utc = DateTime::from_timestamp(secs, 0).unwrap();
    Local.offset_from_utc_datetime(&utc.naive_utc()).local_minus_utc()
}

/// The instant of a clock reading of `secs` seconds since the Unix epoch in a
/// zone `offset_secs` seconds ahead of UTC: in that zone where its local time
/// lies within the range of `chrono`, and in UTC otherwise.
pub fn instant_of_reading(secs: i64, offset_secs: i32) -> (r: LocalInstant)
    requires
        MIN_TIMESTAMP <= secs <= MAX_TIMESTAMP,
        -86_400 < offset_secs < 86_400,
    ensures
        r.secs() == secs,
        MIN_TIMESTAMP <= secs + offset_secs <= MAX_TIMESTAMP ==> r.offset_secs() == offset_secs,
        !(MIN_TIMESTAMP <= secs + offset_secs <= MAX_TIMESTAMP) ==> r.offset_secs() == 0,
{
    match LocalInstant::new(secs, offset_secs) {
        Some(at) => at,
        None => LocalInstant { secs, offset_secs: 0 },
    }
}

/// The current instant in the local time zone; in UTC where the local time
/// of the instant lies beyond the range of `chrono` (within a day of its
/// latest instant). `None` where the system clock reads a time before the Unix
/// epoch or after the latest instant of `chrono`. Which instant it reads
/// depends on the time and no clause can say.
pub fn read_local_clock() -> (r: Option<LocalInstant>)
    ensures
        r matches Some(at) ==> {
            &&& 0 <= at.secs() <= MAX_TIMESTAMP
            &&& -86_400 < at.offset_secs() < 86_400
            &&& MIN_TIMESTAMP <= at.secs() + at.offset_secs() <= MAX_TIMESTAMP
        },
{
    match seconds_since_epoch() {
        None => None,
        Some(seconds) => {
            if seconds > MAX_TIMESTAMP as u64 {
                None
            } else {
                let secs = seconds as i64;
                let offset_secs = local_offset_at(secs);
                let r = instant_of_reading(secs, offset_secs);
                proof {
                    use_type_invariant(&r);
                }
                Some(r)
            }
        },
    }
}

/// Formats `at` with `pattern` (`chrono::DateTime::format` on the instant in
/// its fixed offset); the text is `local_time_text` of the instant and pattern.
#[verifier::external_body]
pub(crate) fn format_instant(at: &LocalInstant, pattern: &str) -> (r: String)
    requires
        clock_pattern(pattern@),
    ensures
        r@ == local_time_text(at.secs(), at.offset_secs(), pattern@),
{
    let offset = FixedOffset::east_opt(at.offset_secs).unwrap();
    let utc = DateTime::from_timestamp(at.secs, 0).unwrap();
    utc.with_timezone(&offset).format(pattern).to_string()
}

/// Writes `at` as RFC 3339 text in whole seconds, with `Z` for UTC
/// (`chrono::DateTime::to_rfc3339_opts`); the text is `rfc3339_text` of the
/// instant.
#[verifier::external_body]
pub(crate) fn rfc3339_of(at: &LocalInstant) -> (r: String)
    ensures
        r@ == rfc3339_text(at.secs(), at.offset_secs()),
{
    let offset = FixedOffset::east_opt(at.offset_secs).unwrap();
    let utc = DateTime::from_timestamp(at.secs, 0).unwrap();
    utc.with_timezone(&offset).to_rfc3339_opts(SecondsFormat::Secs, true)
}

/// The text of the UTC offset of `at` (the `Display` of
/// `chrono::FixedOffset`), which the `chrono` source writes as
/// `utc_offset_text` states.
#[verifier::external_body]
pub(crate) fn offset_text(at: &LocalInstant) -> (r: String)
    ensures
        r@ == utc_offset_text(at.offset_secs() as int),
{
    FixedOffset::east_opt(at.offset_secs).unwrap().to_string()
}

} // verus!
