use vstd::prelude::*;

use crate::error::{CosiError, DateIssue};

verus! {

/// The earliest year a calendar date of the store can carry.
pub const MIN_YEAR: i32 = -262143;

/// The latest year a calendar date of the store can carry.
pub const MAX_YEAR: i32 = 262142;

pub open spec fn is_leap_year(y: int) -> bool {
    y % 4 == 0 && (y % 100 != 0 || y % 400 == 0)
}

pub open spec fn days_in_month(y: int, m: int) -> int {
    if m == 2 {
        if is_leap_year(y) {
            29
        } else {
            28
        }
    } else if m == 4 || m == 6 || m == 9 || m == 11 {
        30
    } else {
        31
    }
}

/// A day of the proleptic Gregorian calendar.
#[derive(Clone, Copy, Debug, PartialEq, Eq, Structural)]
pub struct Date {
    pub year: i32,
    pub month: u32,
    pub day: u32,
}

/// A calendar day and a time of day to the second.
#[derive(Clone, Copy, Debug, PartialEq, Eq, Structural)]
pub struct DateTime {
    pub date: Date,
    pub hour: u32,
    pub minute: u32,
    pub second: u32,
}

pub open spec fn digit_char(n: int) -> char {
    (('0' as int) + n) as char
}

pub open spec fn is_digit(c: char) -> bool {
    '0' <= c && c <= '9'
}

pub open spec fn digit_value(c: char) -> int {
    (c as int) - ('0' as int)
}

/// The value of the two digits at `i` and `i + 1`.
pub open spec fn two_digit_value(s: Seq<char>, i: int) -> int {
    digit_value(s[i]) * 10 + digit_value(s[i + 1])
}

/// `n` digits from `i` on.
pub open spec fn digits_at(s: Seq<char>, i: int, n: int) -> bool {
    forall|k: int| i <= k < i + n ==> #[trigger] is_digit(s[k])
}

/// Two decimal digits, zero-padded.
pub open spec fn two_digit_text(n: int) -> Seq<char> {
    seq![digit_char(n / 10), digit_char(n % 10)]
}

/// Four decimal digits, zero-padded.
pub open spec fn four_digit_text(n: int) -> Seq<char> {
    two_digit_text(n / 100) + two_digit_text(n % 100)
}

impl Date {
    /// A day that exists, in the range of years the store supports.
    pub open spec fn wf(self) -> bool {
        &&& MIN_YEAR <= self.year <= MAX_YEAR
        &&& 1 <= self.month <= 12
        &&& 1 <= self.day <= days_in_month(self.year as int, self.month as int)
    }

    /// A year written with four digits.
    pub open spec fn four_digit_year(self) -> bool {
        0 <= self.year <= 9999
    }

    /// `YYYY-MM-DD`.
    pub open spec fn iso_text(self) -> Seq<char> {
        four_digit_text(self.year as int) + seq!['-'] + two_digit_text(self.month as int) + seq!['-']
            + two_digit_text(self.day as int)
    }
}

impl DateTime {
    pub open spec fn wf(self) -> bool {
        &&& self.date.wf()
        &&& self.hour < 24
        &&& self.minute < 60
        &&& self.second < 60
    }

    /// `YYYY-MM-DD HH:MM:SS`.
    pub open spec fn iso_text(self) -> Seq<char> {
        self.date.iso_text() + seq![' '] + two_digit_text(self.hour as int) + seq![':']
            + two_digit_text(self.minute as int) + seq![':'] + two_digit_text(self.second as int)
    }
}

/// The date a `YYYY-MM-DD` text names, when it has that exact shape and
/// names an existing day.
pub open spec fn iso_date_value(s: Seq<char>) -> Option<Date> {
    if s.len() == 10 && s[4] == '-' && s[7] == '-' && digits_at(s, 0, 4) && digits_at(s, 5, 2)
        && digits_at(s, 8, 2) {
        let d = Date {
            year: (two_digit_value(s, 0) * 100 + two_digit_value(s, 2)) as i32,
            month: two_digit_value(s, 5) as u32,
            day: two_digit_value(s, 8) as u32,
        };
        if d.wf() {
            Some(d)
        } else {
            None
        }
    } else {
        None
    }
}

/// The date and time a `YYYY-MM-DD HH:MM:SS` text names, when it has that
/// exact shape and names a valid time.
pub open spec fn iso_datetime_value(s: Seq<char>) -> Option<DateTime> {
    if s.len() == 19 && s[10] == ' ' && s[13] == ':' && s[16] == ':' && digits_at(s, 11, 2)
        && digits_at(s, 14, 2) && digits_at(s, 17, 2) {
        match iso_date_value(s.take(10)) {
            Some(d) => {
                let t = DateTime {
                    date: d,
                    hour: two_digit_value(s, 11) as u32,
                    minute: two_digit_value(s, 14) as u32,
                    second: two_digit_value(s, 17) as u32,
                };
                if t.wf() {
                    Some(t)
                } else {
                    None
                }
            },
            None => None,
        }
    } else {
        None
    }
}

/// The text chrono writes for a calendar date.
pub uninterp spec fn date_display(y: int, m: int, d: int) -> Seq<char>;

/// The date chrono reads from a text with the pattern `%Y-%m-%d`.
pub uninterp spec fn date_parse(s: Seq<char>) -> Option<(int, int, int)>;

/// The text chrono writes for a date and time.
pub uninterp spec fn datetime_display(t: (int, int, int, int, int, int)) -> Seq<char>;

/// The date and time chrono reads from a text with the pattern
/// `%Y-%m-%d %H:%M:%S`.
pub uninterp spec fn datetime_parse(s: Seq<char>) -> Option<(int, int, int, int, int, int)>;

/// The date a stored text is read as: the day a `YYYY-MM-DD` text names,
/// and otherwise whatever chrono makes of it.
pub open spec fn read_date(s: Seq<char>) -> Option<Date> {
    if iso_date_value(s) is Some {
        iso_date_value(s)
    } else {
        match date_parse(s) {
            Some((y, m, d)) => Some(Date { year: y as i32, month: m as u32, day: d as u32 }),
            None => None,
        }
    }
}

/// The date and time a stored text is read as.
pub open spec fn read_datetime(s: Seq<char>) -> Option<DateTime> {
    if iso_datetime_value(s) is Some {
        iso_datetime_value(s)
    } else {
        match datetime_parse(s) {
            Some((y, mo, d, h, mi, sec)) => Some(
                DateTime {
                    date: Date { year: y as i32, month: mo as u32, day: d as u32 },
                    hour: h as u32,
                    minute: mi as u32,
                    second: sec as u32,
                },
            ),
            None => None,
        }
    }
}

impl Date {
    /// The text a date is stored as.
    pub open spec fn text(self) -> Seq<char> {
        if self.four_digit_year() {
            self.iso_text()
        } else {
            date_display(self.year as int, self.month as int, self.day as int)
        }
    }
}

impl DateTime {
    /// The text a date and time is stored as.
    pub open spec fn text(self) -> Seq<char> {
        if self.date.four_digit_year() {
            self.iso_text()
        } else {
            datetime_display(self.parts())
        }
    }

    pub open spec fn parts(self) -> (int, int, int, int, int, int) {
        (
            self.date.year as int,
            self.date.month as int,
            self.date.day as int,
            self.hour as int,
            self.minute as int,
            self.second as int,
        )
    }
}

/// Relies on chrono's `NaiveDate` `Display`: `YYYY-MM-DD`, zero-padded, for
/// years 0 to 9999.
#[verifier::external_body]
fn chrono_date_text(d: Date) -> (r: String)
    requires
        d.wf(),
    ensures
        r@ == date_display(d.year as int, d.month as int, d.day as int),
        d.four_digit_year() ==> r@ == d.iso_text(),
        r@ == d.text(),
{
    chrono::NaiveDate::from_ymd_opt(d.year, d.month, d.day).unwrap().to_string()
}

/// Relies on chrono's `NaiveDate::parse_from_str` with `%Y-%m-%d`: it only
/// yields days that exist, and it reads a zero-padded `YYYY-MM-DD` text as
/// the day it names.
#[verifier::external_body]
fn chrono_parse_date(s: &str) -> (r: Option<Date>)
    ensures
        r == read_date(s@),
        r matches Some(d) ==> d.wf(),
        r is None ==> date_parse(s@) is None,
{
    chrono::NaiveDate::parse_from_str(s, "%Y-%m-%d").ok().map(
        |d|
            Date {
                year: chrono::Datelike::year(&d),
                month: chrono::Datelike::month(&d),
                day: chrono::Datelike::day(&d),
            },
    )
}

/// Relies on chrono's `NaiveDateTime` `Display`: `YYYY-MM-DD HH:MM:SS`,
/// zero-padded, for years 0 to 9999 and whole seconds.
#[verifier::external_body]
fn chrono_datetime_text(t: DateTime) -> (r: String)
    requires
        t.wf(),
    ensures
        r@ == datetime_display(t.parts()),
        t.date.four_digit_year() ==> r@ == t.iso_text(),
        r@ == t.text(),
{
    chrono::NaiveDate::from_ymd_opt(t.date.year, t.date.month, t.date.day).unwrap().and_hms_opt(
        t.hour,
        t.minute,
        t.second,
    ).unwrap().to_string()
}

/// Relies on chrono's `NaiveDateTime::parse_from_str` with
/// `%Y-%m-%d %H:%M:%S`: it only yields valid times, and it reads a
/// zero-padded `YYYY-MM-DD HH:MM:SS` text as the time it names.
#[verifier::external_body]
fn chrono_parse_datetime(s: &str) -> (r: Option<DateTime>)
    ensures
        r == read_datetime(s@),
        r matches Some(t) ==> t.wf(),
        r is None ==> datetime_parse(s@) is None,
{
    chrono::NaiveDateTime::parse_from_str(s, "%Y-%m-%d %H:%M:%S").ok().map(
        |t|
            DateTime {
                date: Date {
                    year: chrono::Datelike::year(&t),
                    month: chrono::Datelike::month(&t),
                    day: chrono::Datelike::day(&t),
                },
                hour: chrono::Timelike::hour(&t),
                minute: chrono::Timelike::minute(&t),
                second: chrono::Timelike::second(&t),
            },
    )
}

impl Date {
    /// Whether this day exists in the supported range of years.
    pub fn is_valid(&self) -> (r: bool)
        ensures
            r == self.wf(),
    {
        if self.year < MIN_YEAR || self.year > MAX_YEAR || self.month < 1 || self.month > 12
            || self.day < 1 {
            return false;
        }
        let leap = self.year % 4 == 0 && (self.year % 100 != 0 || self.year % 400 == 0);
        let last: u32 = if self.month == 2 {
            if leap {
                29
            } else {
                28
            }
        } else if self.month == 4 || self.month == 6 || self.month == 9 || self.month == 11 {
            30
        } else {
            31
        };
        assert(leap == is_leap_year(self.year as int));
        self.day <= last
    }

    /// The stored text of this date.
    pub fn to_text(&self) -> (r: String)
        requires
            self.wf(),
        ensures
            r@ == date_display(self.year as int, self.month as int, self.day as int),
            self.four_digit_year() ==> r@ == self.iso_text(),
            r@ == self.text(),
    {
        chrono_date_text(*self)
    }

    /// Reads a stored date text.
    pub fn parse(s: &str) -> (r: Result<Date, CosiError>)
        ensures
            r is Ok <==> read_date(s@) is Some,
            r matches Ok(d) ==> d.wf() && read_date(s@) == Some(d),
            r matches Err(e) ==> e == CosiError::MalformedRecord,
    {
        match chrono_parse_date(s) {
            Some(d) => Ok(d),
            None => Err(CosiError::MalformedRecord),
        }
    }
}

impl DateTime {
    /// Whether this date and time exists.
    pub fn is_valid(&self) -> (r: bool)
        ensures
            r == self.wf(),
    {
        self.date.is_valid() && self.hour < 24 && self.minute < 60 && self.second < 60
    }

    /// The stored text of this date and time.
    pub fn to_text(&self) -> (r: String)
        requires
            self.wf(),
        ensures
            r@ == datetime_display(self.parts()),
            self.date.four_digit_year() ==> r@ == self.iso_text(),
            r@ == self.text(),
    {
        chrono_datetime_text(*self)
    }

    /// Reads a stored date-and-time text.
    pub fn parse(s: &str) -> (r: Result<DateTime, CosiError>)
        ensures
            r is Ok <==> read_datetime(s@) is Some,
            r matches Ok(t) ==> t.wf() && read_datetime(s@) == Some(t),
            r matches Err(e) ==> e == CosiError::MalformedRecord,
    {
        match chrono_parse_datetime(s) {
            Some(t) => Ok(t),
            None => Err(CosiError::MalformedRecord),
        }
    }
}

proof fn lemma_two_digits(n: int)
    requires
        0 <= n < 100,
    ensures
        is_digit(two_digit_text(n)[0]),
        is_digit(two_digit_text(n)[1]),
        two_digit_value(two_digit_text(n), 0) == n,
{
}

/// A date with a four-digit year is read back from its text as itself.
pub proof fn lemma_date_text_round_trip(d: Date)
    requires
        d.wf(),
        d.four_digit_year(),
    ensures
        read_date(d.iso_text()) == Some(d),
{
    let s = d.iso_text();
    lemma_two_digits(d.year as int / 100);
    lemma_two_digits(d.year as int % 100);
    lemma_two_digits(d.month as int);
    lemma_two_digits(d.day as int);
    assert(s[0] == two_digit_text(d.year as int / 100)[0]);
    assert(s[1] == two_digit_text(d.year as int / 100)[1]);
    assert(s[2] == two_digit_text(d.year as int % 100)[0]);
    assert(s[3] == two_digit_text(d.year as int % 100)[1]);
    assert(s[5] == two_digit_text(d.month as int)[0]);
    assert(s[6] == two_digit_text(d.month as int)[1]);
    assert(s[8] == two_digit_text(d.day as int)[0]);
    assert(s[9] == two_digit_text(d.day as int)[1]);
    assert(digits_at(s, 0, 4));
    assert(digits_at(s, 5, 2));
    assert(digits_at(s, 8, 2));
}

/// A date and time with a four-digit year is read back from its text as itself.
pub proof fn lemma_datetime_text_round_trip(t: DateTime)
    requires
        t.wf(),
        t.date.four_digit_year(),
    ensures
        read_datetime(t.iso_text()) == Some(t),
{
    let s = t.iso_text();
    lemma_date_text_round_trip(t.date);
    assert(s.take(10) =~= t.date.iso_text());
    lemma_two_digits(t.hour as int);
    lemma_two_digits(t.minute as int);
    lemma_two_digits(t.second as int);
    assert(s[11] == two_digit_text(t.hour as int)[0]);
    assert(s[12] == two_digit_text(t.hour as int)[1]);
    assert(s[14] == two_digit_text(t.minute as int)[0]);
    assert(s[15] == two_digit_text(t.minute as int)[1]);
    assert(s[17] == two_digit_text(t.second as int)[0]);
    assert(s[18] == two_digit_text(t.second as int)[1]);
    assert(digits_at(s, 11, 2));
    assert(digits_at(s, 14, 2));
    assert(digits_at(s, 17, 2));
}

} // verus!
