//! Calendar timestamps and elapsed-time durations, as plain values.
//!
//! A [`DateTimeValue`] is a Gregorian calendar timestamp without a timezone;
//! a [`DurationValue`] is a signed number of elapsed seconds. The weekday and
//! week-of-year rules are written out as spec functions, so everything a date
//! render reads is stated exactly.

use vstd::prelude::*;

verus! {

/// True for Gregorian leap years.
pub open spec fn is_leap_year(y: int) -> bool {
    y % 4 == 0 && (y % 100 != 0 || y % 400 == 0)
}

/// The number of days in a month.
pub open spec fn days_in_month(y: int, m: int) -> int {
    if m == 2 {
        if is_leap_year(y) {
            29
        } else {
            28
        }
    } else if m == 4 || m == 6 || m == 9 || m == 11 {
        30
    } else {
        31
    }
}

/// The number of days of the year before month `m` begins.
pub open spec fn days_before_month(y: int, m: int) -> int {
    let base: int = if m == 1 {
        0
    } else if m == 2 {
        31
    } else if m == 3 {
        59
    } else if m == 4 {
        90
    } else if m == 5 {
        120
    } else if m == 6 {
        151
    } else if m == 7 {
        181
    } else if m == 8 {
        212
    } else if m == 9 {
        243
    } else if m == 10 {
        273
    } else if m == 11 {
        304
    } else {
        334
    };
    if m > 2 && is_leap_year(y) {
        base + 1
    } else {
        base
    }
}

/// The day of the year, starting at 1 for January 1st.
pub open spec fn day_ordinal(y: int, m: int, d: int) -> int {
    days_before_month(y, m) + d
}

/// The month offsets of the day-of-week congruence.
pub open spec fn weekday_month_term(m: int) -> int {
    if m == 1 {
        0
    } else if m == 2 {
        3
    } else if m == 3 {
        2
    } else if m == 4 {
        5
    } else if m == 5 {
        0
    } else if m == 6 {
        3
    } else if m == 7 {
        5
    } else if m == 8 {
        1
    } else if m == 9 {
        4
    } else if m == 10 {
        6
    } else if m == 11 {
        2
    } else {
        4
    }
}

/// The day of the week, 0 for Sunday through 6 for Saturday.
pub open spec fn weekday_sun0(y: int, m: int, d: int) -> int {
    let yy = if m < 3 {
        y - 1
    } else {
        y
    };
    (yy + yy / 4 - yy / 100 + yy / 400 + weekday_month_term(m) + d) % 7
}

/// Days since the most recent Monday: 0 for Monday through 6 for Sunday.
pub open spec fn days_from_monday(wd_sun0: int) -> int {
    (wd_sun0 + 6) % 7
}

/// The week of the year with Monday as its first day, `0` to `53`; days
/// before the first Monday of the year fall in week `0`.
pub open spec fn week_of_year(y: int, m: int, d: int) -> int {
    (day_ordinal(y, m, d) - 1 + 7 - days_from_monday(weekday_sun0(y, m, d))) / 7
}

/// The hour on a 12-hour clock: `0` maps to `12`, `13` to `1`.
pub open spec fn hour12(h: int) -> int {
    if h % 12 == 0 {
        12
    } else {
        h % 12
    }
}

/// The full name of a weekday given as [`weekday_sun0`].
pub open spec fn weekday_name(wd: int) -> Seq<char> {
    if wd == 0 {
        "Sunday"@
    } else if wd == 1 {
        "Monday"@
    } else if wd == 2 {
        "Tuesday"@
    } else if wd == 3 {
        "Wednesday"@
    } else if wd == 4 {
        "Thursday"@
    } else if wd == 5 {
        "Friday"@
    } else {
        "Saturday"@
    }
}

/// The abbreviated name of a weekday given as [`weekday_sun0`].
pub open spec fn weekday_abbr(wd: int) -> Seq<char> {
    if wd == 0 {
        "Sun"@
    } else if wd == 1 {
        "Mon"@
    } else if wd == 2 {
        "Tue"@
    } else if wd == 3 {
        "Wed"@
    } else if wd == 4 {
        "Thu"@
    } else if wd == 5 {
        "Fri"@
    } else {
        "Sat"@
    }
}

/// The full name of a month, 1 for January through 12 for December.
pub open spec fn month_name(m: int) -> Seq<char> {
    if m == 1 {
        "January"@
    } else if m == 2 {
        "February"@
    } else if m == 3 {
        "March"@
    } else if m == 4 {
        "April"@
    } else if m == 5 {
        "May"@
    } else if m == 6 {
        "June"@
    } else if m == 7 {
        "July"@
    } else if m == 8 {
        "August"@
    } else if m == 9 {
        "September"@
    } else if m == 10 {
        "October"@
    } else if m == 11 {
        "November"@
    } else {
        "December"@
    }
}

/// The abbreviated name of a month, 1 for January through 12 for December.
pub open spec fn month_abbr(m: int) -> Seq<char> {
    if m == 1 {
        "Jan"@
    } else if m == 2 {
        "Feb"@
    } else if m == 3 {
        "Mar"@
    } else if m == 4 {
        "Apr"@
    } else if m == 5 {
        "May"@
    } else if m == 6 {
        "Jun"@
    } else if m == 7 {
        "Jul"@
    } else if m == 8 {
        "Aug"@
    } else if m == 9 {
        "Sep"@
    } else if m == 10 {
        "Oct"@
    } else if m == 11 {
        "Nov"@
    } else {
        "Dec"@
    }
}

/// The AM/PM marker for an hour of the day.
pub open spec fn ampm_str(h: int) -> Seq<char> {
    if h < 12 {
        "AM"@
    } else {
        "PM"@
    }
}

/// The full weekday name for a day given as [`weekday_sun0`].
pub fn weekday_name_str(wd: u32) -> (r: &'static str)
    requires
        wd <= 6,
    ensures
        r@ == weekday_name(wd as int),
{
    match wd {
        0 => "Sunday",
        1 => "Monday",
        2 => "Tuesday",
        3 => "Wednesday",
        4 => "Thursday",
        5 => "Friday",
        _ => "Saturday",
    }
}

/// The abbreviated weekday name for a day given as [`weekday_sun0`].
pub fn weekday_abbr_str(wd: u32) -> (r: &'static str)
    requires
        wd <= 6,
    ensures
        r@ == weekday_abbr(wd as int),
{
    match wd {
        0 => "Sun",
        1 => "Mon",
        2 => "Tue",
        3 => "Wed",
        4 => "Thu",
        5 => "Fri",
        _ => "Sat",
    }
}

/// The full month name, 1 for January through 12 for December.
pub fn month_name_str(m: u32) -> (r: &'static str)
    requires
        1 <= m <= 12,
    ensures
        r@ == month_name(m as int),
{
    match m {
        1 => "January",
        2 => "February",
        3 => "March",
        4 => "April",
        5 => "May",
        6 => "June",
        7 => "July",
        8 => "August",
        9 => "September",
        10 => "October",
        11 => "November",
        _ => "December",
    }
}

/// The abbreviated month name, 1 for January through 12 for December.
pub fn month_abbr_str(m: u32) -> (r: &'static str)
    requires
        1 <= m <= 12,
    ensures
        r@ == month_abbr(m as int),
{
    match m {
        1 => "Jan",
        2 => "Feb",
        3 => "Mar",
        4 => "Apr",
        5 => "May",
        6 => "Jun",
        7 => "Jul",
        8 => "Aug",
        9 => "Sep",
        10 => "Oct",
        11 => "Nov",
        _ => "Dec",
    }
}

/// The AM/PM marker for an hour of the day.
pub fn ampm_marker(h: u32) -> (r: &'static str)
    ensures
        r@ == ampm_str(h as int),
{
    if h < 12 {
        "AM"
    } else {
        "PM"
    }
}

/// The mathematical content of a [`DateTimeValue`].
pub struct DateTimeView {
    pub year: int,
    pub month: int,
    pub day: int,
    pub hour: int,
    pub minute: int,
    pub second: int,
}

/// A well-formed timestamp: a real Gregorian calendar day between the years 1
/// and 9999, and a time of day.
pub open spec fn valid_datetime(d: DateTimeView) -> bool {
    &&& 1 <= d.year <= 9999
    &&& 1 <= d.month <= 12
    &&& 1 <= d.day <= days_in_month(d.year, d.month)
    &&& 0 <= d.hour <= 23
    &&& 0 <= d.minute <= 59
    &&& 0 <= d.second <= 59
}

/// A Gregorian calendar timestamp without a timezone, always well-formed.
#[derive(Clone, Copy, PartialEq, Eq, Structural, Debug)]
pub struct DateTimeValue {
    year: u32,
    month: u32,
    day: u32,
    hour: u32,
    minute: u32,
    second: u32,
}

impl View for DateTimeValue {
    type V = DateTimeView;

    closed spec fn view(&self) -> DateTimeView {
        DateTimeView {
            year: self.year as int,
            month: self.month as int,
            day: self.day as int,
            hour: self.hour as int,
            minute: self.minute as int,
            second: self.second as int,
        }
    }
}

/// The number of days in a month, on machine integers.
pub fn month_days(y: u32, m: u32) -> (r: u32)
    requires
        1 <= m <= 12,
    ensures
        r == days_in_month(y as int, m as int),
{
    if m == 2 {
        if y % 4 == 0 && (y % 100 != 0 || y % 400 == 0) {
            29
        } else {
            28
        }
    } else if m == 4 || m == 6 || m == 9 || m == 11 {
        30
    } else {
        31
    }
}

impl DateTimeValue {
    /// Every constructed timestamp is well-formed.
    #[verifier::type_invariant]
    pub open spec fn wf(&self) -> bool {
        valid_datetime(self@)
    }

    /// A timestamp from its fields; nothing when they do not name a real
    /// Gregorian calendar day between the years 1 and 9999 and a time of day.
    pub fn new(year: u32, month: u32, day: u32, hour: u32, minute: u32, second: u32) -> (r: Option<
        Self,
    >)
        ensures
            match r {
                Some(d) => valid_datetime(
                    DateTimeView {
                        year: year as int,
                        month: month as int,
                        day: day as int,
                        hour: hour as int,
                        minute: minute as int,
                        second: second as int,
                    },
                ) && d@ == (DateTimeView {
                    year: year as int,
                    month: month as int,
                    day: day as int,
                    hour: hour as int,
                    minute: minute as int,
                    second: second as int,
                }),
                None => !valid_datetime(
                    DateTimeView {
                        year: year as int,
                        month: month as int,
                        day: day as int,
                        hour: hour as int,
                        minute: minute as int,
                        second: second as int,
                    },
                ),
            },
    {
        if 1 <= year && year <= 9999 && 1 <= month && month <= 12 && 1 <= day && day
            <= month_days(year, month) && hour <= 23 && minute <= 59 && second <= 59 {
            Some(DateTimeValue { year, month, day, hour, minute, second })
        } else {
            None
        }
    }

    /// The year.
    pub fn year(&self) -> (r: u32)
        ensures
            r == self@.year,
    {
        self.year
    }

    /// The month, 1 through 12.
    pub fn month(&self) -> (r: u32)
        ensures
            r == self@.month,
    {
        self.month
    }

    /// The day of the month.
    pub fn day(&self) -> (r: u32)
        ensures
            r == self@.day,
    {
        self.day
    }

    /// The hour of the day, 0 through 23.
    pub fn hour(&self) -> (r: u32)
        ensures
            r == self@.hour,
    {
        self.hour
    }

    /// The minute, 0 through 59.
    pub fn minute(&self) -> (r: u32)
        ensures
            r == self@.minute,
    {
        self.minute
    }

    /// The second, 0 through 59.
    pub fn second(&self) -> (r: u32)
        ensures
            r == self@.second,
    {
        self.second
    }

    /// The day of the week, 0 for Sunday through 6 for Saturday.
    pub fn weekday(&self) -> (r: u32)
        ensures
            r == weekday_sun0(self@.year, self@.month, self@.day),
            0 <= r <= 6,
    {
        proof {
            use_type_invariant(self);
        }
        let yy: u32 = if self.month < 3 {
            self.year - 1
        } else {
            self.year
        };
        let m_term: u32 = match self.month {
            1 => 0,
            2 => 3,
            3 => 2,
            4 => 5,
            5 => 0,
            6 => 3,
            7 => 5,
            8 => 1,
            9 => 4,
            10 => 6,
            11 => 2,
            _ => 4,
        };
        (yy + yy / 4 - yy / 100 + yy / 400 + m_term + self.day) % 7
    }

    /// The day of the year, starting at 1 for January 1st.
    pub fn ordinal(&self) -> (r: u32)
        ensures
            r == day_ordinal(self@.year, self@.month, self@.day),
            1 <= r <= 366,
    {
        proof {
            use_type_invariant(self);
        }
        let base: u32 = match self.month {
            1 => 0,
            2 => 31,
            3 => 59,
            4 => 90,
            5 => 120,
            6 => 151,
            7 => 181,
            8 => 212,
            9 => 243,
            10 => 273,
            11 => 304,
            _ => 334,
        };
        let leap_add: u32 = if self.month > 2 && self.year % 4 == 0 && (self.year % 100 != 0
            || self.year % 400 == 0) {
            1
        } else {
            0
        };
        base + leap_add + self.day
    }

    /// The week of the year, as [`week_of_year`] describes.
    pub fn week(&self) -> (r: u32)
        ensures
            r == week_of_year(self@.year, self@.month, self@.day),
            r <= 53,
    {
        proof {
            use_type_invariant(self);
        }
        let wd = self.weekday();
        let ord = self.ordinal();
        (ord - 1 + 7 - (wd + 6) % 7) / 7
    }
}

/// An elapsed time as a signed number of seconds; its view is that count.
#[derive(Clone, Copy, PartialEq, Eq, Structural, Debug)]
pub struct DurationValue {
    seconds: i64,
}

impl View for DurationValue {
    type V = int;

    closed spec fn view(&self) -> int {
        self.seconds as int
    }
}

impl DurationValue {
    /// A duration of `seconds` elapsed seconds (negative for a deficit).
    pub fn of_seconds(seconds: i64) -> (r: Self)
        ensures
            r@ == seconds as int,
    {
        DurationValue { seconds }
    }

    /// The number of seconds, as given to [`DurationValue::of_seconds`].
    pub fn seconds(&self) -> (r: i64)
        ensures
            r as int == self@,
    {
        self.seconds
    }

    /// The sign and magnitude of the duration.
    pub fn sign_magnitude(&self) -> (r: (bool, u64))
        ensures
            r.0 == (self@ < 0),
            r.1 as int == if self@ < 0 {
                -self@
            } else {
                self@
            },
    {
        if self.seconds >= 0 {
            (false, self.seconds as u64)
        } else if self.seconds == i64::MIN {
            (true, 9223372036854775808u64)
        } else {
            (true, (-self.seconds) as u64)
        }
    }
}

/// Whole hours of a duration of `s` seconds, truncated toward zero.
pub open spec fn dur_hours(s: int) -> int {
    if s >= 0 {
        s / 3600
    } else {
        -((-s) / 3600)
    }
}

/// Minutes within the hour of a duration of `s` seconds, truncated toward zero.
pub open spec fn dur_minutes(s: int) -> int {
    if s >= 0 {
        (s / 60) % 60
    } else {
        -(((-s) / 60) % 60)
    }
}

/// Seconds within the minute of a duration of `s` seconds.
pub open spec fn dur_seconds(s: int) -> int {
    if s >= 0 {
        s % 60
    } else {
        -((-s) % 60)
    }
}

} // verus!
