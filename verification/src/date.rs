//! Calendar dates and times of day in the proleptic Gregorian calendar, with the conversions
//! that the release data and the update notices need (done by `chrono`).
use vstd::prelude::*;
use chrono::{Datelike, Timelike};
use crate::text::zero_padded;

verus! {

/// The earliest year a date can have.
pub const MIN_YEAR: i32 = -262143;

/// The latest year a date can have.
pub const MAX_YEAR: i32 = 262142;

pub open spec fn is_leap_year(y: int) -> bool {
    y % 4 == 0 && (y % 100 != 0 || y % 400 == 0)
}

pub open spec fn days_in_month(y: int, m: int) -> int {
    if m == 2 {
        if is_leap_year(y) {
            29
        } else {
            28
        }
    } else if m == 4 || m == 6 || m == 9 || m == 11 {
        30
    } else {
        31
    }
}

/// A calendar day that exists, in the supported range of years.
pub open spec fn valid_ymd(y: int, m: int, d: int) -> bool {
    &&& MIN_YEAR <= y <= MAX_YEAR
    &&& 1 <= m <= 12
    &&& 1 <= d <= days_in_month(y, m)
}

/// A time of day; a nanosecond count of a second or more marks a leap second, which only the
/// 59th second can hold.
pub open spec fn valid_hmsn(h: int, m: int, s: int, n: int) -> bool {
    &&& 0 <= h < 24
    &&& 0 <= m < 60
    &&& 0 <= s < 60
    &&& 0 <= n < 2_000_000_000
    &&& (n >= 1_000_000_000 ==> s == 59)
}

/// (year, month, day)
pub type DateView = (int, int, int);

/// (hour, minute, second, nanosecond)
pub type TimeView = (int, int, int, int);

pub type DateTimeView = (DateView, TimeView);

/// Chronological order of dates.
pub open spec fn date_lt(a: DateView, b: DateView) -> bool {
    a.0 < b.0 || (a.0 == b.0 && (a.1 < b.1 || (a.1 == b.1 && a.2 < b.2)))
}

pub open spec fn date_le(a: DateView, b: DateView) -> bool {
    date_lt(a, b) || a == b
}

/// Days in the years before year `y`, counted from the start of year 1.
pub open spec fn days_before_year(y: int) -> int {
    365 * (y - 1) + (y - 1) / 4 - (y - 1) / 100 + (y - 1) / 400
}

/// Days in the months of year `y` before month `m`.
pub open spec fn days_before_month(y: int, m: int) -> int
    decreases m,
{
    if m <= 1 {
        0
    } else {
        days_before_month(y, m - 1) + days_in_month(y, m - 1)
    }
}

/// The position of a day on a continuous count of days (1 for 0001-01-01).
pub open spec fn day_number(d: DateView) -> int {
    days_before_year(d.0) + days_before_month(d.0, d.1) + d.2
}

/// Seconds on a continuous scale; leap-second nanoseconds are not counted.
pub open spec fn instant_secs(v: DateTimeView) -> int {
    day_number(v.0) * 86400 + v.1.0 * 3600 + v.1.1 * 60 + v.1.2
}

/// `day_number` of 1970-01-01, the Unix epoch.
pub open spec fn unix_epoch_day() -> int {
    day_number((1970, 1, 1))
}

/// `day_number` of the first day a date can be: 1 January of `MIN_YEAR`.
pub open spec fn first_day() -> int {
    day_number((MIN_YEAR as int, 1, 1))
}

/// `day_number` of the last day a date can be: 31 December of `MAX_YEAR`.
pub open spec fn last_day() -> int {
    day_number((MAX_YEAR as int, 12, 31))
}

/// A point on the continuous scale of seconds (`instant_secs`) falls on a day that a date can
/// be.
pub open spec fn instant_in_range(secs: int) -> bool {
    first_day() <= secs / 86400 <= last_day()
}

/// A calendar date (what `chrono::NaiveDate` holds). Its fields are in the order that
/// compares dates chronologically.
#[derive(Clone, Copy, Debug, PartialEq, Eq, PartialOrd, Ord, Structural)]
pub struct Date {
    year: i32,
    month: u32,
    day: u32,
}

impl View for Date {
    type V = DateView;

    closed spec fn view(&self) -> DateView {
        (self.year as int, self.month as int, self.day as int)
    }
}

impl Date {
    #[verifier::type_invariant]
    pub open spec fn wf(&self) -> bool {
        valid_ymd(self@.0, self@.1, self@.2)
    }

    /// The date with the given year, month and day, if that day exists.
    pub fn from_ymd_opt(year: i32, month: u32, day: u32) -> (res: Option<Date>)
        ensures
            match res {
                Some(d) => valid_ymd(year as int, month as int, day as int) && d@ == (
                    year as int,
                    month as int,
                    day as int,
                ),
                None => !valid_ymd(year as int, month as int, day as int),
            },
    {
        match chrono_from_ymd_opt(year, month, day) {
            Some((y, m, d)) => Some(Date { year: y, month: m, day: d }),
            None => None,
        }
    }

    pub fn year(&self) -> (r: i32)
        ensures
            r as int == self@.0,
    {
        self.year
    }

    pub fn month(&self) -> (r: u32)
        ensures
            r as int == self@.1,
    {
        self.month
    }

    pub fn day(&self) -> (r: u32)
        ensures
            r as int == self@.2,
    {
        self.day
    }

    /// Whether `self` comes strictly before `other`.
    pub fn lt(&self, other: &Date) -> (r: bool)
        ensures
            r == date_lt(self@, other@),
    {
        self.year < other.year || (self.year == other.year && (self.month < other.month || (
        self.month == other.month && self.day < other.day)))
    }

    /// Whether `self` comes before `other` or is the same day.
    pub fn le(&self, other: &Date) -> (r: bool)
        ensures
            r == date_le(self@, other@),
    {
        self.lt(other) || (self.year == other.year && self.month == other.month && self.day
            == other.day)
    }

    pub fn same_day(&self, other: &Date) -> (r: bool)
        ensures
            r == (self@ == other@),
            r == (*self == *other),
    {
        proof {
            Date::lemma_view_injective(*self, *other);
        }
        self.year == other.year && self.month == other.month && self.day == other.day
    }

    /// Two dates with the same year, month and day are the same value.
    pub proof fn lemma_view_injective(a: Date, b: Date)
        ensures
            (a@ == b@) == (a == b),
    {
    }

    /// The date with year, month and day that are known to form an existing day.
    pub(crate) fn from_valid_ymd(year: i32, month: u32, day: u32) -> (d: Date)
        requires
            valid_ymd(year as int, month as int, day as int),
        ensures
            d@ == (year as int, month as int, day as int),
    {
        Date { year, month, day }
    }

    /// The number of days from `other` to `self` (`self - other` in whole days).
    pub fn days_since(&self, other: &Date) -> (r: i64)
        ensures
            r as int == day_number(self@) - day_number(other@),
    {
        proof {
            use_type_invariant(self);
            use_type_invariant(other);
        }
        chrono_days_between(self, other)
    }
}

/// A time of day (what `chrono::NaiveTime` holds).
#[derive(Clone, Copy, Debug, PartialEq, Eq, Structural)]
pub struct Time {
    hour: u32,
    minute: u32,
    second: u32,
    nanosecond: u32,
}

impl View for Time {
    type V = TimeView;

    closed spec fn view(&self) -> TimeView {
        (self.hour as int, self.minute as int, self.second as int, self.nanosecond as int)
    }
}

impl Time {
    #[verifier::type_invariant]
    pub open spec fn wf(&self) -> bool {
        valid_hmsn(self@.0, self@.1, self@.2, self@.3)
    }

    /// The time with the given hour, minute and second (and no fraction), if it exists.
    pub fn from_hms_opt(hour: u32, minute: u32, second: u32) -> (res: Option<Time>)
        ensures
            match res {
                Some(t) => hour < 24 && minute < 60 && second < 60 && t@ == (
                    hour as int,
                    minute as int,
                    second as int,
                    0int,
                ),
                None => !(hour < 24 && minute < 60 && second < 60),
            },
    {
        if hour < 24 && minute < 60 && second < 60 {
            Some(Time { hour, minute, second, nanosecond: 0 })
        } else {
            None
        }
    }

    pub fn hour(&self) -> (r: u32)
        ensures
            r as int == self@.0,
    {
        self.hour
    }

    pub fn minute(&self) -> (r: u32)
        ensures
            r as int == self@.1,
    {
        self.minute
    }

    pub fn second(&self) -> (r: u32)
        ensures
            r as int == self@.2,
    {
        self.second
    }

    pub fn nanosecond(&self) -> (r: u32)
        ensures
            r as int == self@.3,
    {
        self.nanosecond
    }

    /// The time with hour, minute, second and nanosecond that are known to form a time.
    pub(crate) fn from_valid_parts(hour: u32, minute: u32, second: u32, nanosecond: u32) -> (t:
        Time)
        requires
            valid_hmsn(hour as int, minute as int, second as int, nanosecond as int),
        ensures
            t@ == (hour as int, minute as int, second as int, nanosecond as int),
    {
        Time { hour, minute, second, nanosecond }
    }
}

/// A date and a time of day, without a time zone of its own: either local time or UTC, as the
/// place that holds it says.
#[derive(Clone, Copy, Debug, PartialEq, Eq, Structural)]
pub struct CalendarDateTime {
    pub date: Date,
    pub time: Time,
}

impl View for CalendarDateTime {
    type V = DateTimeView;

    open spec fn view(&self) -> DateTimeView {
        (self.date@, self.time@)
    }
}

/// Plain values of a date and time, as the conversions hand them over:
/// (year, month, day, hour, minute, second, nanosecond).
pub type DateTimeParts = (i32, u32, u32, u32, u32, u32, u32);

pub open spec fn parts_view(p: DateTimeParts) -> DateTimeView {
    ((p.0 as int, p.1 as int, p.2 as int), (p.3 as int, p.4 as int, p.5 as int, p.6 as int))
}

pub open spec fn valid_parts(p: DateTimeParts) -> bool {
    valid_ymd(p.0 as int, p.1 as int, p.2 as int) && valid_hmsn(
        p.3 as int,
        p.4 as int,
        p.5 as int,
        p.6 as int,
    )
}

impl CalendarDateTime {
    pub fn new(date: Date, time: Time) -> (r: CalendarDateTime)
        ensures
            r.date == date,
            r.time == time,
    {
        CalendarDateTime { date, time }
    }

    pub(crate) fn from_parts(p: DateTimeParts) -> (r: CalendarDateTime)
        requires
            valid_parts(p),
        ensures
            r@ == parts_view(p),
    {
        CalendarDateTime {
            date: Date { year: p.0, month: p.1, day: p.2 },
            time: Time { hour: p.3, minute: p.4, second: p.5, nanosecond: p.6 },
        }
    }

    /// The date part (what `date_naive` gives).
    pub fn date_naive(&self) -> (r: Date)
        ensures
            r == self.date,
    {
        self.date
    }

    /// This local date and time, read in the time zone `offset_secs` seconds east of UTC,
    /// converted to UTC; `None` exactly when the result falls on a day outside the supported
    /// dates.
    pub fn local_to_utc(&self, offset_secs: i32) -> (r: Option<CalendarDateTime>)
        requires
            -86_400 < offset_secs < 86_400,
            offset_secs % 60 == 0,
        ensures
            r matches Some(u) ==> instant_secs(u@) == instant_secs(self@) - offset_secs && u@.1.3
                == self@.1.3,
            r is Some <==> instant_in_range(instant_secs(self@) - offset_secs),
    {
        proof {
            use_type_invariant(&self.date);
            use_type_invariant(&self.time);
        }
        match chrono_local_to_utc(self, offset_secs) {
            Some(p) => Some(CalendarDateTime::from_parts(p)),
            None => None,
        }
    }

    /// The UTC date and time `secs` seconds after the Unix epoch; `None` exactly when that falls
    /// on a day outside the supported dates.
    pub fn from_timestamp_secs(secs: i64) -> (r: Option<CalendarDateTime>)
        ensures
            r matches Some(u) ==> instant_secs(u@) == unix_epoch_day() * 86400 + secs && u@.1.3
                == 0,
            r is Some <==> instant_in_range(unix_epoch_day() * 86400 + secs),
    {
        match chrono_from_timestamp_secs(secs) {
            Some(p) => Some(CalendarDateTime::from_parts(p)),
            None => None,
        }
    }
}

/// The text of a year as chrono's `%Y` writes it: four digits for years 0 to 9999, otherwise a
/// sign followed by at least four digits.
pub open spec fn year_text(y: int) -> Seq<char> {
    if 0 <= y <= 9999 {
        zero_padded(y as nat, 4)
    } else if y > 0 {
        seq!['+'] + zero_padded(y as nat, 4)
    } else {
        seq!['-'] + zero_padded((-y) as nat, 4)
    }
}

/// A date as `%Y<sep>%m<sep>%d` writes it.
pub open spec fn ymd_text(d: DateView, sep: char) -> Seq<char> {
    year_text(d.0) + seq![sep] + zero_padded(d.1 as nat, 2) + seq![sep] + zero_padded(
        d.2 as nat,
        2,
    )
}

/// The format string `%Y<sep>%m<sep>%d`.
pub open spec fn ymd_format(sep: char) -> Seq<char> {
    seq!['%', 'Y', sep, '%', 'm', sep, '%', 'd']
}

/// The year field of a date text, as `%Y` reads it: exactly four digits, or a sign followed by
/// one or more digits.
pub open spec fn year_field_value(t: Seq<char>) -> Option<int> {
    if t.len() == 4 && crate::text::all_ascii_digits(t) {
        Some(crate::text::digits_value(t) as int)
    } else if t.len() >= 2 && (t[0] == '+' || t[0] == '-') && crate::text::all_ascii_digits(
        t.drop_first(),
    ) {
        if t[0] == '+' {
            Some(crate::text::digits_value(t.drop_first()) as int)
        } else {
            Some(-(crate::text::digits_value(t.drop_first()) as int))
        }
    } else {
        None
    }
}

/// A two-digit field.
pub open spec fn two_digit_value(t: Seq<char>) -> Option<int> {
    if t.len() == 2 && crate::text::all_ascii_digits(t) {
        Some(crate::text::digits_value(t) as int)
    } else {
        None
    }
}

/// The year, month and day written in `s` when it is `year <sep> MM <sep> DD` with the
/// fields as `year_field_value` and `two_digit_value` describe, and nothing else.
pub open spec fn ymd_text_value(s: Seq<char>, sep: char) -> Option<DateView> {
    if s.len() >= 7 && s[s.len() - 3] == sep && s[s.len() - 6] == sep {
        let y = year_field_value(s.subrange(0, s.len() - 6));
        let m = two_digit_value(s.subrange(s.len() - 5, s.len() - 3));
        let d = two_digit_value(s.subrange(s.len() - 2, s.len() as int));
        if y is Some && m is Some && d is Some {
            Some((y->0, m->0, d->0))
        } else {
            None
        }
    } else {
        None
    }
}

/// Reading a date text written by `ymd_text` gives back the date.
pub proof fn lemma_ymd_text_value(d: DateView, sep: char)
    requires
        valid_ymd(d.0, d.1, d.2),
        !crate::text::is_ascii_digit(sep),
    ensures
        ymd_text_value(ymd_text(d, sep), sep) == Some(d),
{
    let y = year_text(d.0);
    let m = zero_padded(d.1 as nat, 2);
    let dd = zero_padded(d.2 as nat, 2);
    crate::text::lemma_zero_padded(d.1 as nat, 2);
    crate::text::lemma_zero_padded(d.2 as nat, 2);
    let s = ymd_text(d, sep);
    assert(s =~= y + seq![sep] + m + seq![sep] + dd);
    let n = s.len();
    if 0 <= d.0 <= 9999 {
        crate::text::lemma_zero_padded(d.0 as nat, 4);
    } else if d.0 > 0 {
        crate::text::lemma_zero_padded(d.0 as nat, 4);
        assert(y.drop_first() =~= zero_padded(d.0 as nat, 4));
    } else {
        crate::text::lemma_zero_padded((-d.0) as nat, 4);
        assert(y.drop_first() =~= zero_padded((-d.0) as nat, 4));
    }
    assert(y.len() >= 4);
    assert(s.subrange(0, n - 6) =~= y);
    assert(s.subrange(n - 5, n - 3) =~= m);
    assert(s.subrange(n - 2, n as int) =~= dd);
    assert(s[n - 3] == sep);
    assert(s[n - 6] == sep);
}

/// What `chrono::NaiveDate::parse_from_str(s, fmt)` returns, by its (year, month, day).
pub uninterp spec fn spec_chrono_parse_date(s: Seq<char>, fmt: Seq<char>) -> Option<DateView>;

/// What `chrono::NaiveDateTime::parse_from_str(s, fmt)` returns.
pub uninterp spec fn spec_chrono_parse_datetime(s: Seq<char>, fmt: Seq<char>) -> Option<
    DateTimeView,
>;

/// What `chrono::NaiveTime::parse_from_str(s, fmt)` returns.
pub uninterp spec fn spec_chrono_parse_time(s: Seq<char>, fmt: Seq<char>) -> Option<TimeView>;

/// What `chrono::DateTime::parse_from_rfc3339(s)` returns, converted to UTC.
pub uninterp spec fn spec_chrono_parse_rfc3339_utc(s: Seq<char>) -> Option<DateTimeView>;

/// Calls `chrono::NaiveDate::from_ymd_opt`: the date if that calendar day exists and its year
/// lies in chrono's range (`MIN_YEAR` to `MAX_YEAR`), else `None`.
#[verifier::external_body]
fn chrono_from_ymd_opt(year: i32, month: u32, day: u32) -> (res: Option<(i32, u32, u32)>)
    ensures
        res == (if valid_ymd(year as int, month as int, day as int) {
            Some((year, month, day))
        } else {
            None
        }),
{
    chrono::NaiveDate::from_ymd_opt(year, month, day).map(|d| (d.year(), d.month(), d.day()))
}

/// Calls `chrono::NaiveDate::parse_from_str`. Claimed: the result is named by
/// `spec_chrono_parse_date`, a returned date exists, and for the formats `%Y.%m.%d` and
/// `%Y-%m-%d` a text of exactly the shape `ymd_text_value` reads gives that date when it
/// exists and an error otherwise (`%Y` takes four unsigned digits or a signed number, `%m`
/// and `%d` are range-checked, then the day is checked as `from_ymd_opt` does). Not claimed:
/// what other texts or formats give.
#[verifier::external_body]
pub(crate) fn chrono_parse_date(s: &str, fmt: &str) -> (res: Option<(i32, u32, u32)>)
    ensures
        res matches Some(t) ==> spec_chrono_parse_date(s@, fmt@) == Some(
            (t.0 as int, t.1 as int, t.2 as int),
        ) && valid_ymd(t.0 as int, t.1 as int, t.2 as int),
        res is None ==> spec_chrono_parse_date(s@, fmt@) is None,
        forall|sep: char|
            (sep == '.' || sep == '-') && fmt@ == #[trigger] ymd_format(sep) && ymd_text_value(
                s@,
                sep,
            ) is Some ==> {
                let v = ymd_text_value(s@, sep)->0;
                if valid_ymd(v.0, v.1, v.2) {
                    res matches Some(t) && (t.0 as int, t.1 as int, t.2 as int) == v
                } else {
                    res is None
                }
            },
{
    chrono::NaiveDate::parse_from_str(s, fmt).ok().map(|d| (d.year(), d.month(), d.day()))
}

/// Calls `chrono::NaiveDate::format(fmt)` and renders it to a `String`, for the formats
/// `%Y.%m.%d` and `%Y-%m-%d` (other formats could make the rendering panic). Claimed: the text
/// is `ymd_text`: chrono writes a year from 0 to 9999 as four digits and any other year with a
/// sign and at least four digits (`{:+05}`), and month and day as two digits.
#[verifier::external_body]
pub(crate) fn chrono_format_date(d: &Date, fmt: &str) -> (res: String)
    requires
        fmt@ == ymd_format('.') || fmt@ == ymd_format('-'),
    ensures
        res@ == ymd_text(d@, fmt@[2]),
{
    let date = chrono::NaiveDate::from_ymd_opt(d.year, d.month, d.day).unwrap();
    date.format(fmt).to_string()
}

/// Calls `chrono::NaiveDateTime::parse_from_str`. Claimed: the result is named by
/// `spec_chrono_parse_datetime`, and a returned date and time exist.
#[verifier::external_body]
pub(crate) fn chrono_parse_datetime(s: &str, fmt: &str) -> (res: Option<DateTimeParts>)
    ensures
        res matches Some(p) ==> spec_chrono_parse_datetime(s@, fmt@) == Some(parts_view(p))
            && valid_parts(p),
        res is None ==> spec_chrono_parse_datetime(s@, fmt@) is None,
{
    chrono::NaiveDateTime::parse_from_str(s, fmt).ok().map(
        |t| (t.year(), t.month(), t.day(), t.hour(), t.minute(), t.second(), t.nanosecond()),
    )
}

/// Calls `chrono::NaiveTime::parse_from_str`. Claimed: the result is named by
/// `spec_chrono_parse_time`, and a returned time exists.
#[verifier::external_body]
pub(crate) fn chrono_parse_time(s: &str, fmt: &str) -> (res: Option<(u32, u32, u32, u32)>)
    ensures
        res matches Some(t) ==> spec_chrono_parse_time(s@, fmt@) == Some(
            (t.0 as int, t.1 as int, t.2 as int, t.3 as int),
        ) && valid_hmsn(t.0 as int, t.1 as int, t.2 as int, t.3 as int),
        res is None ==> spec_chrono_parse_time(s@, fmt@) is None,
{
    chrono::NaiveTime::parse_from_str(s, fmt).ok().map(
        |t| (t.hour(), t.minute(), t.second(), t.nanosecond()),
    )
}

/// Calls `chrono::DateTime::parse_from_rfc3339` and converts the result with `to_utc`.
/// Claimed: the result is named by `spec_chrono_parse_rfc3339_utc`, and it is a date and
/// time that exist.
#[verifier::external_body]
pub(crate) fn chrono_parse_rfc3339_utc(s: &str) -> (res: Option<DateTimeParts>)
    ensures
        res matches Some(p) ==> spec_chrono_parse_rfc3339_utc(s@) == Some(parts_view(p))
            && valid_parts(p),
        res is None ==> spec_chrono_parse_rfc3339_utc(s@) is None,
{
    chrono::DateTime::parse_from_rfc3339(s).ok().map(|d| d.to_utc()).map(
        |t| (t.year(), t.month(), t.day(), t.hour(), t.minute(), t.second(), t.nanosecond()),
    )
}

/// Calls `NaiveDateTime::and_local_timezone(FixedOffset::east_opt(offset_secs))`, then
/// `latest()` and `to_utc()`. Claimed: chrono subtracts the offset from the seconds of the day,
/// keeps the fraction and moves to the day before or after when the seconds leave the day; so
/// a result is `offset_secs` seconds before the local time on the continuous scale, and the
/// result is present exactly when its day lies within chrono's range (`checked_sub_offset`
/// fails only when `pred_opt` or `succ_opt` leaves it). The offset is a multiple of 60, so a
/// leap second stays on a 59th second.
#[verifier::external_body]
fn chrono_local_to_utc(local: &CalendarDateTime, offset_secs: i32) -> (res: Option<
    DateTimeParts,
>)
    requires
        -86_400 < offset_secs < 86_400,
        offset_secs % 60 == 0,
        local.date.wf(),
        local.time.wf(),
    ensures
        res matches Some(p) ==> valid_parts(p) && instant_secs(parts_view(p)) == instant_secs(
            local@,
        ) - offset_secs && p.6 as int == local@.1.3,
        res is Some <==> instant_in_range(instant_secs(local@) - offset_secs),
{
    let d = chrono::NaiveDate::from_ymd_opt(local.date.year, local.date.month, local.date.day);
    let (t, l) = (local.time, chrono::FixedOffset::east_opt(offset_secs).unwrap());
    let t = chrono::NaiveTime::from_hms_nano_opt(t.hour, t.minute, t.second, t.nanosecond);
    let local = chrono::NaiveDateTime::new(d.unwrap(), t.unwrap());
    local.and_local_timezone(l).latest().map(|dt| dt.to_utc()).map(
        |t| (t.year(), t.month(), t.day(), t.hour(), t.minute(), t.second(), t.nanosecond()),
    )
}

/// Calls `chrono::DateTime::from_timestamp_secs`: the UTC date and time `secs` non-leap
/// seconds after 1970-01-01 00:00:00, with no fraction; `None` exactly when the day
/// (`secs.div_euclid(86_400)` after the epoch day) is no date chrono can hold
/// (`from_num_days_from_ce_opt` fails only outside `MIN_YEAR` to `MAX_YEAR`).
#[verifier::external_body]
fn chrono_from_timestamp_secs(secs: i64) -> (res: Option<DateTimeParts>)
    ensures
        res matches Some(p) ==> valid_parts(p) && instant_secs(parts_view(p)) == unix_epoch_day()
            * 86400 + secs && p.6 == 0,
        res is Some <==> instant_in_range(unix_epoch_day() * 86400 + secs),
{
    chrono::DateTime::from_timestamp_secs(secs).map(
        |t| (t.year(), t.month(), t.day(), t.hour(), t.minute(), t.second(), t.nanosecond()),
    )
}

/// Calls `chrono::NaiveDate::signed_duration_since` (what `a - b` does) and takes
/// `num_days()`: the number of days between the two dates on the continuous day count.
#[verifier::external_body]
fn chrono_days_between(a: &Date, b: &Date) -> (res: i64)
    requires
        a.wf(),
        b.wf(),
    ensures
        res as int == day_number(a@) - day_number(b@),
{
    let a = chrono::NaiveDate::from_ymd_opt(a.year, a.month, a.day).unwrap();
    let b = chrono::NaiveDate::from_ymd_opt(b.year, b.month, b.day).unwrap();
    a.signed_duration_since(b).num_days()
}

} // verus!
