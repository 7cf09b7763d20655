//! Calendar dates in the fixed display form `DD-Mon-YY` ("05-Jan-24").
//! Parsing, formatting and the local date come from chrono.
use vstd::prelude::*;
use chrono::Datelike;
use crate::text::digit_char;

verus! {

/// A calendar date held as plain numbers.
#[derive(Clone, Copy, Debug, PartialEq, Eq)]
pub struct DisplayDate {
    pub year: i32,
    pub month: u32,
    pub day: u32,
}

pub open spec fn is_leap_year(y: int) -> bool {
    (y % 4 == 0 && y % 100 != 0) || y % 400 == 0
}

pub open spec fn days_in_month(y: int, m: int) -> int {
    if m == 2 {
        if is_leap_year(y) { 29 } else { 28 }
    } else if m == 4 || m == 6 || m == 9 || m == 11 {
        30
    } else {
        31
    }
}

/// English three-letter month abbreviation.
pub open spec fn month_abbrev(m: int) -> Seq<char> {
    if m == 1 { "Jan"@ }
    else if m == 2 { "Feb"@ }
    else if m == 3 { "Mar"@ }
    else if m == 4 { "Apr"@ }
    else if m == 5 { "May"@ }
    else if m == 6 { "Jun"@ }
    else if m == 7 { "Jul"@ }
    else if m == 8 { "Aug"@ }
    else if m == 9 { "Sep"@ }
    else if m == 10 { "Oct"@ }
    else if m == 11 { "Nov"@ }
    else { "Dec"@ }
}

/// Two decimal digits, zero padded.
pub open spec fn two_digits(n: int) -> Seq<char> {
    seq![digit_char((n / 10) as nat), digit_char((n % 10) as nat)]
}

/// The display text of a date: day, month abbreviation and year modulo 100.
pub open spec fn display_text(y: int, m: int, d: int) -> Seq<char> {
    two_digits(d) + "-"@ + month_abbrev(m) + "-"@ + two_digits(y % 100)
}

/// What chrono parses from a text in the display format, as (year, month, day).
pub uninterp spec fn parsed_date(s: Seq<char>) -> Option<(int, int, int)>;

impl DisplayDate {
    pub open spec fn view(&self) -> (int, int, int) {
        (self.year as int, self.month as int, self.day as int)
    }

    /// A real date of the proleptic Gregorian calendar, in chrono's year range.
    pub open spec fn valid(&self) -> bool {
        &&& -262_143 <= self.year <= 262_142
        &&& 1 <= self.month <= 12
        &&& 1 <= self.day <= days_in_month(self.year as int, self.month as int)
    }

    pub open spec fn text(&self) -> Seq<char> {
        display_text(self.year as int, self.month as int, self.day as int)
    }

    /// The display text of this date.
    pub fn to_text(&self) -> (r: String)
        requires
            self.valid(),
        ensures
            r@ == self.text(),
    {
        format_display_date(self)
    }
}

/// Relies on chrono's `NaiveDate::parse_from_str` with the format
/// `%d-%b-%y`: the date it reads, which chrono only builds when valid.
#[verifier::external_body]
pub(crate) fn parse_display_date(s: &str) -> (r: Option<DisplayDate>)
    ensures
        match r {
            Some(d) => parsed_date(s@) == Some(d@) && d.valid(),
            None => parsed_date(s@) is None,
        },
{
    chrono::NaiveDate::parse_from_str(s, "%d-%b-%y")
        .ok()
        .map(|d| DisplayDate { year: d.year(), month: d.month(), day: d.day() })
}

/// Relies on chrono's `NaiveDate::from_ymd_opt` and `format("%d-%b-%y")`:
/// two-digit day, English month abbreviation, year modulo 100 in two digits.
#[verifier::external_body]
fn format_display_date(d: &DisplayDate) -> (r: String)
    requires
        d.valid(),
    ensures
        r@ == d.text(),
{
    chrono::NaiveDate::from_ymd_opt(d.year, d.month, d.day)
        .unwrap()
        .format("%d-%b-%y")
        .to_string()
}

/// Relies on chrono's `Local::now().date_naive()`: today's date in the
/// local time zone, which chrono holds as a valid date.
#[verifier::external_body]
pub(crate) fn today_local() -> (r: DisplayDate)
    ensures
        r.valid(),
{
    let d = chrono::Local::now().date_naive();
    DisplayDate { year: d.year(), month: d.month(), day: d.day() }
}

/// Relies on chrono's `Utc::now().timestamp()`: seconds since the Unix epoch.
#[verifier::external_body]
pub fn get_current_timestamp() -> (r: i64)
{
    chrono::Utc::now().timestamp()
}

} // verus!
