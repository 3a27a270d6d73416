//! Creation timestamps: a civil date and time of day held as plain numbers,
//! read from the local clock and written as `YYYY-MM-DD HH:MM:SS` text.

use chrono::{Datelike, Timelike};
use vstd::prelude::*;

verus! {

/// The format in which a timestamp is written and read.
pub const DATE_FORMAT: &'static str = "%Y-%m-%d %H:%M:%S";

/// Whether a year of the proleptic Gregorian calendar has a 29th of February.
pub open spec fn is_leap_year(year: int) -> bool {
    year % 4 == 0 && (year % 100 != 0 || year % 400 == 0)
}

/// The number of days of a month.
pub open spec fn days_in_month(year: int, month: int) -> int {
    if month == 2 {
        if is_leap_year(year) {
            29
        } else {
            28
        }
    } else if month == 4 || month == 6 || month == 9 || month == 11 {
        30
    } else {
        31
    }
}

/// The character for a decimal digit.
pub open spec fn digit(d: int) -> char {
    (48 + d) as char
}

/// Whether a character is a decimal digit.
pub open spec fn is_digit(c: char) -> bool {
    48 <= c as int <= 57
}

/// The number that a decimal digit stands for.
pub open spec fn digit_value(c: char) -> int {
    c as int - 48
}

/// The number written in the two digits from `at` on.
pub open spec fn two_digits(text: Seq<char>, at: int) -> int {
    digit_value(text[at]) * 10 + digit_value(text[at + 1])
}

/// The number written in the four digits from `at` on.
pub open spec fn four_digits(text: Seq<char>, at: int) -> int {
    digit_value(text[at]) * 1000 + digit_value(text[at + 1]) * 100 + digit_value(text[at + 2])
        * 10 + digit_value(text[at + 3])
}

/// A local date and time of day. A leap second is the second 59 with a
/// nanosecond count of 1,000,000,000 or more.
#[derive(Clone, Copy, Debug, PartialEq, Eq, Structural)]
pub struct Timestamp {
    pub year: i32,
    pub month: u32,
    pub day: u32,
    pub hour: u32,
    pub minute: u32,
    pub second: u32,
    pub nanosecond: u32,
}

impl Timestamp {
    /// The fields name a day of the proleptic Gregorian calendar and a time
    /// of that day.
    pub open spec fn is_civil(self) -> bool {
        &&& 1 <= self.month <= 12
        &&& 1 <= self.day <= days_in_month(self.year as int, self.month as int)
        &&& self.hour < 24
        &&& self.minute < 60
        &&& self.second < 60
        &&& self.nanosecond < 2_000_000_000
        &&& self.nanosecond >= 1_000_000_000 ==> self.second == 59
    }

    /// A civil timestamp in the years that are written with four digits.
    pub open spec fn has_layout(self) -> bool {
        self.is_civil() && 0 <= self.year <= 9999
    }

    /// The second as it is written: 60 for a leap second.
    pub open spec fn written_second(self) -> int {
        if self.nanosecond >= 1_000_000_000 {
            self.second + 1
        } else {
            self.second as int
        }
    }

    /// The text `YYYY-MM-DD HH:MM:SS` of a timestamp in the years 0 to 9999.
    pub open spec fn layout(self) -> Seq<char> {
        let year = self.year as int;
        let month = self.month as int;
        let day = self.day as int;
        let hour = self.hour as int;
        let minute = self.minute as int;
        let second = self.written_second();
        seq![
            digit(year / 1000),
            digit(year / 100 % 10),
            digit(year / 10 % 10),
            digit(year % 10),
            '-',
            digit(month / 10),
            digit(month % 10),
            '-',
            digit(day / 10),
            digit(day % 10),
            ' ',
            digit(hour / 10),
            digit(hour % 10),
            ':',
            digit(minute / 10),
            digit(minute % 10),
            ':',
            digit(second / 10),
            digit(second % 10),
        ]
    }

    /// The timestamp to the second: the part below a second dropped, a leap
    /// second kept as one.
    pub open spec fn to_the_second(self) -> Timestamp {
        Timestamp {
            nanosecond: if self.nanosecond >= 1_000_000_000 {
                1_000_000_000
            } else {
                0
            },
            ..self
        }
    }
}

/// The text has the shape `dddd-dd-dd dd:dd:dd`.
pub open spec fn in_layout(text: Seq<char>) -> bool {
    &&& text.len() == 19
    &&& is_digit(text[0]) && is_digit(text[1]) && is_digit(text[2]) && is_digit(text[3])
    &&& text[4] == '-'
    &&& is_digit(text[5]) && is_digit(text[6])
    &&& text[7] == '-'
    &&& is_digit(text[8]) && is_digit(text[9])
    &&& text[10] == ' '
    &&& is_digit(text[11]) && is_digit(text[12])
    &&& text[13] == ':'
    &&& is_digit(text[14]) && is_digit(text[15])
    &&& text[16] == ':'
    &&& is_digit(text[17]) && is_digit(text[18])
}

/// The timestamp whose fields are the numbers of a text in the layout. The
/// second 60 stands for a leap second.
pub open spec fn layout_fields(text: Seq<char>) -> Timestamp {
    Timestamp {
        year: four_digits(text, 0) as i32,
        month: two_digits(text, 5) as u32,
        day: two_digits(text, 8) as u32,
        hour: two_digits(text, 11) as u32,
        minute: two_digits(text, 14) as u32,
        second: if two_digits(text, 17) == 60 {
            59
        } else {
            two_digits(text, 17) as u32
        },
        nanosecond: if two_digits(text, 17) == 60 {
            1_000_000_000
        } else {
            0
        },
    }
}

/// The text is in the layout and its numbers name a date and a time of day.
pub open spec fn names_a_date(text: Seq<char>) -> bool {
    in_layout(text) && two_digits(text, 17) <= 60 && layout_fields(text).is_civil()
}

/// The text that `chrono` writes in the format `DATE_FORMAT` for the date
/// and time with these fields, or `None` where `chrono` cannot hold them. It
/// stands for the civil timestamps before the year 0 and after the year
/// 9999.
pub uninterp spec fn date_text(
    year: int,
    month: int,
    day: int,
    hour: int,
    minute: int,
    second: int,
    nanosecond: int,
) -> Option<Seq<char>>;

/// The date and time that `chrono` reads in the format `DATE_FORMAT` from a
/// text, or `None` where it reads none. It stands for the texts that are not
/// in the layout `dddd-dd-dd dd:dd:dd`.
pub uninterp spec fn parsed_date(text: Seq<char>) -> Option<Timestamp>;

/// The text written for a timestamp: none unless it is civil, the layout in
/// the years 0 to 9999.
pub open spec fn written(date: Timestamp) -> Option<Seq<char>> {
    if !date.is_civil() {
        None
    } else if date.has_layout() {
        Some(date.layout())
    } else {
        date_text(
            date.year as int,
            date.month as int,
            date.day as int,
            date.hour as int,
            date.minute as int,
            date.second as int,
            date.nanosecond as int,
        )
    }
}

/// The timestamp read from a text: from a text in the layout, its numbers
/// if they name a date and a time of day, and else none.
pub open spec fn read(text: Seq<char>) -> Option<Timestamp> {
    if names_a_date(text) {
        Some(layout_fields(text))
    } else if in_layout(text) {
        None
    } else {
        parsed_date(text)
    }
}

/// The view of an optional string.
pub open spec fn text_of(s: Option<String>) -> Option<Seq<char>> {
    match s {
        Some(s) => Some(s@),
        None => None,
    }
}

/// Reads the local clock: `chrono::Local::now()`, taken as the date and
/// time of day that the local wall clock shows. Nothing is claimed of the
/// moment; the fields are those of a calendar day and a time of that day, as
/// `chrono` documents for `Datelike` and `Timelike`. `chrono` panics where
/// the system clock stands before 1970.
#[verifier::external_body]
pub(crate) fn local_now() -> (now: Timestamp)
    ensures
        now.is_civil(),
{
    let t = chrono::Local::now().naive_local();
    Timestamp {
        year: t.year(),
        month: t.month(),
        day: t.day(),
        hour: t.hour(),
        minute: t.minute(),
        second: t.second(),
        nanosecond: t.nanosecond(),
    }
}

/// Writes a timestamp with `chrono::NaiveDateTime::format`. Fields that are
/// not civil give `None`: `NaiveDate::from_ymd_opt` refuses a day that the
/// calendar does not have, `NaiveDate::and_hms_nano_opt` a time that the day
/// does not have. For a civil timestamp in the years 0 to 9999 the text is
/// the zero-padded layout that `chrono` documents for `%Y`, `%m`, `%d`, `%H`,
/// `%M` and `%S`, a leap second written as 60. The result for a civil
/// timestamp in another year is named by `date_text`.
#[verifier::external_body]
pub(crate) fn format_civil(date: &Timestamp) -> (text: Option<String>)
    ensures
        !date.is_civil() ==> text.is_none(),
        date.has_layout() ==> text_of(text) == Some(date.layout()),
        date.is_civil() && !date.has_layout() ==> text_of(text) == date_text(
            date.year as int,
            date.month as int,
            date.day as int,
            date.hour as int,
            date.minute as int,
            date.second as int,
            date.nanosecond as int,
        ),
{
    let day = chrono::NaiveDate::from_ymd_opt(date.year, date.month, date.day)?;
    let stamp = day.and_hms_nano_opt(date.hour, date.minute, date.second, date.nanosecond)?;
    Some(stamp.format(DATE_FORMAT).to_string())
}

/// Reads a timestamp with `chrono::NaiveDateTime::parse_from_str`. From a
/// text `dddd-dd-dd dd:dd:dd`, `chrono` reads the six numbers: where they
/// name a date and a time of day, the result holds them, the nanoseconds
/// taken as 0 and the second 60 as a leap second; where they name none, the
/// text is rejected. The result for any other text is named by
/// `parsed_date`. A text that `chrono` rejects gives `None`.
#[verifier::external_body]
pub(crate) fn parse_civil(text: &str) -> (date: Option<Timestamp>)
    ensures
        names_a_date(text@) ==> date == Some(layout_fields(text@)),
        in_layout(text@) && !names_a_date(text@) ==> date.is_none(),
        !in_layout(text@) ==> date == parsed_date(text@),
{
    match chrono::NaiveDateTime::parse_from_str(text, DATE_FORMAT) {
        Ok(t) => Some(
            Timestamp {
                year: t.year(),
                month: t.month(),
                day: t.day(),
                hour: t.hour(),
                minute: t.minute(),
                second: t.second(),
                nanosecond: t.nanosecond(),
            },
        ),
        Err(_) => None,
    }
}

/// A text that could not be read as a timestamp.
#[derive(Clone, Copy, Debug, PartialEq, Eq, Structural)]
pub struct DateError;

impl Timestamp {
    /// The current local date and time.
    pub fn now() -> (now: Timestamp)
        ensures
            now.is_civil(),
    {
        local_now()
    }
}

/// The text of a timestamp: local time, to the second. `None` where the
/// fields name no date and time.
pub fn serialize(date: &Timestamp) -> (text: Option<String>)
    ensures
        text_of(text) == written(*date),
{
    format_civil(date)
}

/// The timestamp that a text holds.
pub fn deserialize(text: &str) -> (date: Result<Timestamp, DateError>)
    ensures
        match date {
            Ok(d) => read(text@) == Some(d),
            Err(_) => read(text@).is_none(),
        },
{
    match parse_civil(text) {
        Some(d) => Ok(d),
        None => Err(DateError),
    }
}

/// A digit's character is a digit and stands for it.
proof fn lemma_digit(d: int)
    requires
        0 <= d <= 9,
    ensures
        is_digit(digit(d)),
        digit_value(digit(d)) == d,
{
}

/// The two characters written for a number below 100 are digits that make
/// the number.
proof fn lemma_two_digits(text: Seq<char>, at: int, n: int)
    requires
        0 <= n < 100,
        0 <= at,
        at + 1 < text.len(),
        text[at] == digit(n / 10),
        text[at + 1] == digit(n % 10),
    ensures
        is_digit(text[at]),
        is_digit(text[at + 1]),
        two_digits(text, at) == n,
{
    lemma_digit(n / 10);
    lemma_digit(n % 10);
}

/// The four characters written for a number below 10000 are digits that
/// make the number.
proof fn lemma_four_digits(text: Seq<char>, at: int, n: int)
    requires
        0 <= n <= 9999,
        0 <= at,
        at + 3 < text.len(),
        text[at] == digit(n / 1000),
        text[at + 1] == digit(n / 100 % 10),
        text[at + 2] == digit(n / 10 % 10),
        text[at + 3] == digit(n % 10),
    ensures
        is_digit(text[at]),
        is_digit(text[at + 1]),
        is_digit(text[at + 2]),
        is_digit(text[at + 3]),
        four_digits(text, at) == n,
{
    let tens = n / 10;
    let hundreds = n / 100;
    let thousands = n / 1000;
    assert(n == tens * 10 + n % 10);
    assert(hundreds == tens / 10);
    assert(tens == hundreds * 10 + tens % 10);
    assert(thousands == hundreds / 10);
    assert(hundreds == thousands * 10 + hundreds % 10);
    lemma_digit(thousands);
    lemma_digit(hundreds % 10);
    lemma_digit(tens % 10);
    lemma_digit(n % 10);
}

/// What is written for a timestamp with a four-digit layout is read back as
/// the same timestamp to the second.
pub proof fn lemma_read_written(date: Timestamp)
    requires
        date.has_layout(),
    ensures
        written(date) == Some(date.layout()),
        read(date.layout()) == Some(date.to_the_second()),
        date.to_the_second().has_layout(),
{
    let text = date.layout();
    lemma_four_digits(text, 0, date.year as int);
    lemma_two_digits(text, 5, date.month as int);
    lemma_two_digits(text, 8, date.day as int);
    lemma_two_digits(text, 11, date.hour as int);
    lemma_two_digits(text, 14, date.minute as int);
    lemma_two_digits(text, 17, date.written_second());
    assert(in_layout(text));
    assert(layout_fields(text) == date.to_the_second());
}

} // verus!
