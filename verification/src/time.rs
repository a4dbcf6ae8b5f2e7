//! Points in time as plain numbers: milliseconds since the Unix epoch with an
//! offset from UTC, and the day of the week in Japan Standard Time.

use crate::text::text_view;
use chrono::{DateTime, NaiveDate, NaiveTime};
use std::fmt::Write;
use vstd::prelude::*;

verus! {

/// A day of the week.
#[derive(Clone, Copy, Debug, PartialEq, Eq, Hash, Structural)]
pub enum Weekday {
    Mon,
    Tue,
    Wed,
    Thu,
    Fri,
    Sat,
    Sun,
}

/// Japan Standard Time, in seconds east of UTC.
pub const JAPAN_OFFSET: i32 = 32_400;

/// Japan Standard Time, in milliseconds east of UTC.
pub const JAPAN_OFFSET_MILLIS: i64 = 32_400_000;

/// The length of a day in milliseconds.
pub const MILLIS_PER_DAY: i64 = 86_400_000;

/// The largest distance from the epoch, in milliseconds, that a moment can
/// have.
pub const MILLIS_LIMIT: i64 = 9_000_000_000_000_000;

/// Offsets from UTC lie strictly within a day, in seconds.
pub const OFFSET_LIMIT: i32 = 86_400;

/// The weekday numbered `index`, Monday being 0.
pub open spec fn weekday_at(index: int) -> Weekday {
    if index == 0 {
        Weekday::Mon
    } else if index == 1 {
        Weekday::Tue
    } else if index == 2 {
        Weekday::Wed
    } else if index == 3 {
        Weekday::Thu
    } else if index == 4 {
        Weekday::Fri
    } else if index == 5 {
        Weekday::Sat
    } else {
        Weekday::Sun
    }
}

/// The weekday of the day numbered `day`, day 0 being 1 January 1970, a Thursday.
pub open spec fn weekday_of_day(day: int) -> Weekday {
    weekday_at((day + 3) % 7)
}

/// The number of the day, counted from 1 January 1970, that the moment
/// `millis` falls on in Japan Standard Time.
pub open spec fn japan_day(millis: int) -> int {
    (millis + JAPAN_OFFSET_MILLIS) / (MILLIS_PER_DAY as int)
}

/// The weekday that the moment `millis` falls on in Japan Standard Time.
pub open spec fn japan_weekday(millis: int) -> Weekday {
    weekday_of_day(japan_day(millis))
}

/// Whether a clock reading can make a `WallTime`: it is no further from the
/// epoch than a moment within the limit can be shown.
pub open spec fn valid_reading(millis: int) -> bool {
    -MILLIS_LIMIT - MILLIS_PER_DAY <= millis <= MILLIS_LIMIT + MILLIS_PER_DAY
}

/// Whether a moment and an offset can make a `ZonedTime`: the moment is
/// within the limit and the offset is less than a day.
pub open spec fn valid_time(millis: int, offset: int) -> bool {
    -MILLIS_LIMIT <= millis <= MILLIS_LIMIT && -OFFSET_LIMIT < offset < OFFSET_LIMIT
}

/// The reading of a clock, in milliseconds since midnight of 1 January 1970 on
/// that clock, with no word on the zone it stands in.
#[derive(Clone, Copy, Debug, PartialEq, Eq, Structural)]
pub struct WallTime {
    millis: i64,
}

impl View for WallTime {
    type V = int;

    /// The reading in milliseconds.
    closed spec fn view(&self) -> int {
        self.millis as int
    }
}

impl WallTime {
    #[verifier::type_invariant]
    closed spec fn in_range(self) -> bool {
        valid_reading(self.millis as int)
    }

    /// The reading `millis`, where it is within the limit.
    pub fn new(millis: i64) -> (time: Option<WallTime>)
        ensures
            time is Some <==> valid_reading(millis as int),
            time matches Some(t) ==> t@ == millis,
    {
        if -MILLIS_LIMIT - MILLIS_PER_DAY <= millis && millis <= MILLIS_LIMIT + MILLIS_PER_DAY {
            Some(WallTime { millis })
        } else {
            None
        }
    }

    /// The reading in milliseconds.
    pub fn millis(&self) -> (millis: i64)
        ensures
            millis == self@,
            valid_reading(self@),
    {
        proof {
            use_type_invariant(self);
        }
        self.millis
    }

    /// The moment at which a clock in Japan shows this reading, where that
    /// moment is within the limit.
    pub fn in_japan(&self) -> (time: Option<ZonedTime>)
        ensures
            time is Some <==> valid_time(self@ - JAPAN_OFFSET_MILLIS, JAPAN_OFFSET as int),
            time matches Some(t) ==> t@ == japan_time(self@ - JAPAN_OFFSET_MILLIS),
    {
        proof {
            use_type_invariant(self);
        }
        ZonedTime::new(self.millis - JAPAN_OFFSET_MILLIS, JAPAN_OFFSET)
    }
}

/// A moment with the offset from UTC under which it is shown.
#[derive(Clone, Copy, Debug, PartialEq, Eq, Structural)]
pub struct ZonedTime {
    millis: i64,
    offset: i32,
}

/// The moment `millis` shown in Japan Standard Time.
pub open spec fn japan_time(millis: int) -> TimeView {
    TimeView { millis, offset: JAPAN_OFFSET as int }
}

/// A `ZonedTime` as two numbers.
pub struct TimeView {
    /// Milliseconds since the Unix epoch.
    pub millis: int,
    /// Seconds east of UTC.
    pub offset: int,
}

impl TimeView {
    /// The moment as a clock in Japan shows it, in milliseconds.
    pub open spec fn japan_millis(self) -> int {
        self.millis + JAPAN_OFFSET_MILLIS
    }

    /// The same moment shown in Japan Standard Time.
    pub open spec fn in_japan(self) -> TimeView {
        japan_time(self.millis)
    }

    /// The weekday of the moment in Japan Standard Time.
    pub open spec fn weekday(self) -> Weekday {
        japan_weekday(self.millis)
    }
}


impl View for ZonedTime {
    type V = TimeView;

    closed spec fn view(&self) -> TimeView {
        TimeView { millis: self.millis as int, offset: self.offset as int }
    }
}

impl ZonedTime {
    #[verifier::type_invariant]
    closed spec fn in_range(self) -> bool {
        valid_time(self.millis as int, self.offset as int)
    }

    /// The moment `millis` under `offset`, where both are within the limits.
    pub fn new(millis: i64, offset: i32) -> (time: Option<ZonedTime>)
        ensures
            time is Some <==> valid_time(millis as int, offset as int),
            time matches Some(t) ==> t@ == (TimeView {
                millis: millis as int,
                offset: offset as int,
            }),
    {
        if -MILLIS_LIMIT <= millis && millis <= MILLIS_LIMIT && -OFFSET_LIMIT < offset && offset
            < OFFSET_LIMIT {
            Some(ZonedTime { millis, offset })
        } else {
            None
        }
    }

    /// The moment `millis` in Japan Standard Time.
    pub fn in_japan(millis: i64) -> (time: Option<ZonedTime>)
        ensures
            time is Some <==> valid_time(millis as int, JAPAN_OFFSET as int),
            time matches Some(t) ==> t@ == japan_time(millis as int),
    {
        ZonedTime::new(millis, JAPAN_OFFSET)
    }

    /// The same moment shown in Japan Standard Time.
    pub fn to_japan(&self) -> (time: ZonedTime)
        ensures
            time@ == self@.in_japan(),
    {
        proof {
            use_type_invariant(self);
        }
        ZonedTime { millis: self.millis, offset: JAPAN_OFFSET }
    }

    /// Milliseconds since the Unix epoch.
    pub fn millis(&self) -> (millis: i64)
        ensures
            millis == self@.millis,
            valid_time(self@.millis, self@.offset),
    {
        proof {
            use_type_invariant(self);
        }
        self.millis
    }

    /// Seconds east of UTC.
    pub fn offset(&self) -> (offset: i32)
        ensures
            offset == self@.offset,
    {
        self.offset
    }

    /// The moment as a clock in Japan shows it.
    pub fn japan_wall_time(&self) -> (reading: WallTime)
        ensures
            reading@ == self@.japan_millis(),
    {
        proof {
            use_type_invariant(self);
        }
        WallTime { millis: self.millis + JAPAN_OFFSET_MILLIS }
    }

    /// The weekday of the moment in Japan Standard Time.
    pub fn weekday(&self) -> (day: Weekday)
        ensures
            day == self@.weekday(),
    {
        proof {
            use_type_invariant(self);
        }
        weekday_in_japan(self.millis)
    }
}

/// The weekday that the moment `millis` falls on in Japan Standard Time.
pub fn weekday_in_japan(millis: i64) -> (day: Weekday)
    ensures
        day == japan_weekday(millis as int),
{
    let shifted: i128 = millis as i128 + JAPAN_OFFSET_MILLIS as i128;
    let days: i128 = match shifted.checked_div_euclid(MILLIS_PER_DAY as i128) {
        Some(d) => d,
        None => 0,
    };
    let index: i128 = match (days + 3).checked_rem_euclid(7) {
        Some(r) => r,
        None => 0,
    };
    if index == 0 {
        Weekday::Mon
    } else if index == 1 {
        Weekday::Tue
    } else if index == 2 {
        Weekday::Wed
    } else if index == 3 {
        Weekday::Thu
    } else if index == 4 {
        Weekday::Fri
    } else if index == 5 {
        Weekday::Sat
    } else {
        Weekday::Sun
    }
}


/// The largest distance from the epoch, in milliseconds, of the midnight of
/// a day that a release can fall on. The calendar of `chrono`, whose years
/// run from 262144 BCE to 262142 CE, names no day beyond it.
pub const CALENDAR_LIMIT: i64 = 8_400_000_000_000_000;

/// The date that `text` holds when read by the pattern `format`, as the
/// milliseconds from the epoch to its midnight in UTC; or the words of the
/// parser on why it holds none.
pub uninterp spec fn parsed_date(text: Seq<char>, format: Seq<char>) -> Result<int, Seq<char>>;

/// The moment and the offset from UTC, in seconds, that `text` holds when
/// read as a date of RFC 2822; or the words of the parser on why it holds
/// none.
pub uninterp spec fn parsed_rfc2822(text: Seq<char>) -> Result<(int, int), Seq<char>>;

/// The clock reading `millis` written by the pattern `format`; nothing where
/// the calendar cannot name the reading or `format` is no pattern.
pub uninterp spec fn formatted_reading(millis: int, format: Seq<char>) -> Option<Seq<char>>;

/// What a parser of dates gave, with the words of an error as a sequence of
/// characters.
pub open spec fn date_view(parsed: Result<i64, String>) -> Result<int, Seq<char>> {
    match parsed {
        Ok(millis) => Ok(millis as int),
        Err(words) => Err(words@),
    }
}

/// Calls `NaiveDate::parse_from_str` of `chrono` and hands the date on as
/// its midnight in UTC. Believed: the result is the one that `parsed_date`
/// names, with the parser's own words for an error; and a date that was read
/// is a day within `CALENDAR_LIMIT`, as every day is that the calendar of
/// `chrono` names.
#[verifier::external_body]
pub(crate) fn parse_date(text: &str, format: &str) -> (parsed: Result<i64, String>)
    ensures
        date_view(parsed) == parsed_date(text@, format@),
        parsed matches Ok(millis) ==> calendar_day(millis as int),
{
    match NaiveDate::parse_from_str(text, format) {
        Ok(date) => Ok(date.and_time(NaiveTime::MIN).and_utc().timestamp_millis()),
        Err(error) => Err(error.to_string()),
    }
}

/// Calls `DateTime::parse_from_rfc2822` of `chrono`. Believed: the result
/// is the one that `parsed_rfc2822` names, with the parser's own words for an
/// error.
#[verifier::external_body]
pub(crate) fn parse_rfc2822(text: &str) -> (parsed: Result<(i64, i32), String>)
    ensures
        match parsed {
            Ok((millis, offset)) => parsed_rfc2822(text@) == Ok::<(int, int), Seq<char>>(
                (millis as int, offset as int),
            ),
            Err(words) => parsed_rfc2822(text@) == Err::<(int, int), Seq<char>>(words@),
        },
{
    match DateTime::parse_from_rfc2822(text) {
        Ok(date) => Ok((date.timestamp_millis(), date.offset().local_minus_utc())),
        Err(error) => Err(error.to_string()),
    }
}

/// Calls `DateTime::from_timestamp_millis` and `NaiveDateTime::format` of
/// `chrono` and writes what they give into a string. Believed: the text is
/// the one that `formatted_reading` names, and there is none where the
/// calendar cannot name the reading or the pattern cannot be written by.
#[verifier::external_body]
pub(crate) fn format_reading(millis: i64, format: &str) -> (written: Option<String>)
    ensures
        text_view(written) == formatted_reading(millis as int, format@),
{
    let reading = DateTime::from_timestamp_millis(millis)?.naive_utc();
    let mut written = String::new();
    match write!(written, "{}", reading.format(format)) {
        Ok(()) => Some(written),
        Err(_) => None,
    }
}

/// The moment at which the day of `midnight`, given as its midnight in UTC,
/// begins in Japan.
pub open spec fn japan_midnight(midnight: int) -> TimeView {
    japan_time(midnight - JAPAN_OFFSET_MILLIS)
}

/// The date of RFC 2822 that `text` holds: the moment and the offset that
/// the parser reads, where they are within the limits of a `ZonedTime`; else
/// the words of the parser, or that the date is out of range.
pub open spec fn spec_from_rfc2822(text: Seq<char>) -> Result<TimeView, Seq<char>> {
    match parsed_rfc2822(text) {
        Ok((millis, offset)) => if valid_time(millis, offset) {
            Ok(TimeView { millis, offset })
        } else {
            Err("date is out of range"@)
        },
        Err(words) => Err(words),
    }
}

/// Whether the day whose midnight in UTC is `midnight` is one that a release
/// can fall on.
pub open spec fn calendar_day(midnight: int) -> bool {
    -CALENDAR_LIMIT <= midnight <= CALENDAR_LIMIT
}

/// Whether the date that `text` holds by the pattern `format`, where it
/// holds one, is a day that a release can fall on.
pub open spec fn reads_calendar_day(text: Seq<char>, format: Seq<char>) -> bool {
    parsed_date(text, format) matches Ok(midnight) ==> calendar_day(midnight)
}

/// The moment a day after `time`, under the same offset.
pub open spec fn day_after(time: TimeView) -> TimeView {
    TimeView { millis: time.millis + MILLIS_PER_DAY, offset: time.offset }
}

impl ZonedTime {
    /// The moment at which the day of `midnight`, given as its midnight in
    /// UTC, begins in Japan; none where the calendar cannot name that day.
    pub fn at_japan_midnight(midnight: i64) -> (time: Option<ZonedTime>)
        ensures
            time is Some <==> calendar_day(midnight as int),
            time matches Some(t) ==> t@ == japan_midnight(midnight as int),
    {
        if -CALENDAR_LIMIT <= midnight && midnight <= CALENDAR_LIMIT {
            Some(ZonedTime { millis: midnight - JAPAN_OFFSET_MILLIS, offset: JAPAN_OFFSET })
        } else {
            None
        }
    }

    /// The moment a day later, under the same offset; none where that is
    /// beyond the limit of moments.
    pub fn next_day(&self) -> (time: Option<ZonedTime>)
        ensures
            time is Some <==> self@.millis + MILLIS_PER_DAY <= MILLIS_LIMIT,
            time matches Some(t) ==> t@ == day_after(self@),
    {
        proof {
            use_type_invariant(self);
        }
        if self.millis <= MILLIS_LIMIT - MILLIS_PER_DAY {
            Some(ZonedTime { millis: self.millis + MILLIS_PER_DAY, offset: self.offset })
        } else {
            None
        }
    }

    /// The date of RFC 2822 that `text` holds, or the words on why it holds
    /// none.
    pub fn from_rfc2822(text: &str) -> (parsed: Result<ZonedTime, String>)
        ensures
            match parsed {
                Ok(time) => spec_from_rfc2822(text@) == Ok::<TimeView, Seq<char>>(time@),
                Err(words) => spec_from_rfc2822(text@) == Err::<TimeView, Seq<char>>(words@),
            },
    {
        match parse_rfc2822(text) {
            Ok((millis, offset)) => match ZonedTime::new(millis, offset) {
                Some(time) => Ok(time),
                None => Err("date is out of range".to_owned()),
            },
            Err(words) => Err(words),
        }
    }
}

impl WallTime {
    /// The reading written by the pattern `format`; nothing where the
    /// calendar cannot name the reading or `format` is no pattern.
    pub fn format(&self, format: &str) -> (written: Option<String>)
        ensures
            text_view(written) == formatted_reading(self@, format@),
    {
        format_reading(self.millis, format)
    }
}

} // verus!
