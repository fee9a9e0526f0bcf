//! Points in time and their two renderings.
//!
//! An [`Instant`] is a count of seconds and nanoseconds since the Unix epoch
//! that `chrono` can represent as a UTC date and time. Its calendar form is
//! the date and time of day that a clock shows in the reader's [`Zone`]; its
//! relative phrase tells how far it lies from another instant. Both are
//! produced by `chrono` and `chrono_humanize`; their results are named here
//! and not described, so a contract that mentions them fixes which call was
//! made on which values and nothing about the characters that came back.

use vstd::prelude::*;
use vstd::string::*;

verus! {

/// The seconds of a day: a zone's offset from UTC is less than this, east
/// or west.
pub const OFFSET_LIMIT: i32 = 86_400;

/// Whether `chrono::DateTime::from_timestamp(secs, nanos)` yields a date.
pub uninterp spec fn timestamp_exists(secs: i64, nanos: u32) -> bool;

/// The text of `format("%c")` on the date and time of a timestamp in the
/// zone that is `offset` seconds east of UTC: weekday, month, day, time of
/// day and year, as a clock in that zone shows them.
pub uninterp spec fn calendar_text(secs: i64, nanos: u32, offset: i32) -> Seq<char>;

/// The phrase that `chrono_humanize::HumanTime` displays for the time from
/// the instant `(now_secs, now_nanos)` to the instant `(secs, nanos)`.
pub uninterp spec fn relative_text(secs: i64, nanos: u32, now_secs: i64, now_nanos: u32) -> Seq<
    char,
>;

/// `chrono::DateTime::from_timestamp`, asked only whether it succeeds.
#[verifier::external_body]
fn timestamp_is_valid(secs: i64, nanos: u32) -> (ok: bool)
    ensures
        ok == timestamp_exists(secs, nanos),
{
    chrono::DateTime::from_timestamp(secs, nanos).is_some()
}

/// `format("%c")` on the `chrono::DateTime` of a timestamp, moved by
/// `with_timezone` to the `chrono::FixedOffset` of `offset` seconds east.
/// The timestamp must be one that `from_timestamp` accepts and the offset
/// one that `FixedOffset::east_opt` accepts, which is any of less than a
/// day; `format` then reads the local date and time without a range check.
#[verifier::external_body]
fn calendar_string(secs: i64, nanos: u32, offset: i32) -> (out: String)
    requires
        timestamp_exists(secs, nanos),
        -OFFSET_LIMIT < offset < OFFSET_LIMIT,
    ensures
        out@ == calendar_text(secs, nanos, offset),
{
    let zone = chrono::FixedOffset::east_opt(offset).unwrap();
    let at = chrono::DateTime::from_timestamp(secs, nanos).unwrap();
    at.with_timezone(&zone).format("%c").to_string()
}

/// The display of `chrono_humanize::HumanTime` for the signed duration from
/// one `chrono::DateTime<Utc>` to another. Both timestamps must be ones that
/// `from_timestamp` accepts; `signed_duration_since` does not overflow.
#[verifier::external_body]
fn relative_string(secs: i64, nanos: u32, now_secs: i64, now_nanos: u32) -> (out: String)
    requires
        timestamp_exists(secs, nanos),
        timestamp_exists(now_secs, now_nanos),
    ensures
        out@ == relative_text(secs, nanos, now_secs, now_nanos),
{
    let at = chrono::DateTime::from_timestamp(secs, nanos).unwrap();
    let now = chrono::DateTime::from_timestamp(now_secs, now_nanos).unwrap();
    chrono_humanize::HumanTime::from(at.signed_duration_since(now)).to_string()
}

/// A point in time that has a UTC calendar date.
#[derive(Clone, Copy, Debug)]
pub struct Instant {
    secs: i64,
    nanos: u32,
}

impl View for Instant {
    type V = (i64, u32);

    /// Seconds since the Unix epoch, and nanoseconds into that second.
    closed spec fn view(&self) -> (i64, u32) {
        (self.secs, self.nanos)
    }
}

impl Instant {
    #[verifier::type_invariant]
    spec fn representable(self) -> bool {
        timestamp_exists(self.secs, self.nanos)
    }

    /// The instant `secs` seconds and `nanos` nanoseconds after the Unix
    /// epoch, or `None` where no UTC date and time stands for it.
    pub fn new(secs: i64, nanos: u32) -> (made: Option<Instant>)
        ensures
            made is Some <==> timestamp_exists(secs, nanos),
            made matches Some(t) ==> t@ == (secs, nanos),
    {
        if timestamp_is_valid(secs, nanos) {
            Some(Instant { secs, nanos })
        } else {
            None
        }
    }

    /// Whole seconds since the Unix epoch.
    pub fn secs(&self) -> (s: i64)
        ensures
            s == self@.0,
    {
        self.secs
    }

    /// Nanoseconds into the second.
    pub fn nanos(&self) -> (n: u32)
        ensures
            n == self@.1,
    {
        self.nanos
    }
}

/// A time zone, by its offset from UTC.
#[derive(Clone, Copy, Debug)]
pub struct Zone {
    offset: i32,
}

impl View for Zone {
    type V = i32;

    /// Seconds east of UTC; negative in the west.
    closed spec fn view(&self) -> i32 {
        self.offset
    }
}

impl Zone {
    #[verifier::type_invariant]
    spec fn within_a_day(self) -> bool {
        -OFFSET_LIMIT < self.offset < OFFSET_LIMIT
    }

    /// The zone `offset` seconds east of UTC, or `None` where the offset
    /// is a day or more.
    pub fn new(offset: i32) -> (made: Option<Zone>)
        ensures
            made is Some <==> -OFFSET_LIMIT < offset < OFFSET_LIMIT,
            made matches Some(zone) ==> zone@ == offset,
    {
        if -OFFSET_LIMIT < offset && offset < OFFSET_LIMIT {
            Some(Zone { offset })
        } else {
            None
        }
    }

    /// The zone of UTC itself.
    pub fn utc() -> (zone: Zone)
        ensures
            zone@ == 0,
    {
        Zone { offset: 0 }
    }

    /// Seconds east of UTC, less than a day either way.
    pub fn offset(&self) -> (seconds: i32)
        ensures
            seconds == self@,
            -OFFSET_LIMIT < seconds < OFFSET_LIMIT,
    {
        proof {
            use_type_invariant(self);
        }
        self.offset
    }
}

/// The rendering of an instant: its calendar form in the zone `offset`
/// seconds east of UTC, or its distance from `now` in words.
pub open spec fn timestamp_text(
    at: (i64, u32),
    relative: bool,
    now: (i64, u32),
    offset: i32,
) -> Seq<char> {
    if relative {
        relative_text(at.0, at.1, now.0, now.1)
    } else {
        calendar_text(at.0, at.1, offset)
    }
}

/// A calendar form followed by a relative phrase in parentheses.
pub open spec fn dated_text(calendar: Seq<char>, relative: Seq<char>) -> Seq<char> {
    calendar + seq![' ', ' ', ' ', ' ', '('] + relative + seq![')']
}

/// A date in both its forms: the calendar form in the zone `offset`
/// seconds east of UTC, and the relative one measured from `now`.
pub open spec fn both_forms(at: (i64, u32), now: (i64, u32), offset: i32) -> Seq<char> {
    dated_text(calendar_text(at.0, at.1, offset), relative_text(at.0, at.1, now.0, now.1))
}

/// What a time stamp displays: its calendar form, and in the alternate
/// display its age behind that.
pub open spec fn stamp_text(
    at: (i64, u32),
    alternate: bool,
    now: (i64, u32),
    offset: i32,
) -> Seq<char> {
    if alternate {
        both_forms(at, now, offset)
    } else {
        calendar_text(at.0, at.1, offset)
    }
}

/// Renders `at` in one of its two forms: the calendar form as local time
/// in `zone`, or the relative form measured from `now`.
pub fn format_timestamp(at: &Instant, relative: bool, now: &Instant, zone: &Zone) -> (out: String)
    ensures
        out@ == timestamp_text(at@, relative, now@, zone@),
{
    proof {
        use_type_invariant(at);
        use_type_invariant(now);
        use_type_invariant(zone);
    }
    if relative {
        relative_string(at.secs, at.nanos, now.secs, now.nanos)
    } else {
        calendar_string(at.secs, at.nanos, zone.offset)
    }
}

/// Sets a calendar form and a relative phrase side by side.
pub fn dated(calendar: &str, relative: &str) -> (out: String)
    ensures
        out@ == dated_text(calendar@, relative@),
{
    let mut out = String::new();
    out.append(calendar);
    out.append("    (");
    out.append(relative);
    out.append(")");
    proof {
        reveal_strlit("    (");
        reveal_strlit(")");
        assert("    ("@ =~= seq![' ', ' ', ' ', ' ', '(']);
        assert(")"@ =~= seq![')']);
        assert(out@ =~= dated_text(calendar@, relative@));
    }
    out
}

/// An instant as a report displays it.
#[derive(Clone, Copy, Debug)]
pub struct TimeStamp(pub Instant);

impl TimeStamp {
    /// The display of the time stamp: its calendar form as local time in
    /// `zone`, and in the alternate display its age at `now` behind that,
    /// in parentheses.
    pub fn to_text(&self, alternate: bool, now: &Instant, zone: &Zone) -> (out: String)
        ensures
            out@ == stamp_text(self.0@, alternate, now@, zone@),
    {
        let calendar = format_timestamp(&self.0, false, now, zone);
        if alternate {
            let age = format_timestamp(&self.0, true, now, zone);
            dated(calendar.as_str(), age.as_str())
        } else {
            calendar
        }
    }
}

} // verus!
