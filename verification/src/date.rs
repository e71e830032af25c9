//! Calendar dates held as plain year / month / day numbers, with the
//! canonical `YYYY-MM-DD` text form used throughout the rendered document.

use crate::strutil::{digit_char, push_char, to_digit_char};
use chrono::Datelike;
use vstd::prelude::*;
use vstd::string::StringExecFns;

verus! {

/// A calendar date in the proleptic Gregorian calendar. Valid dates are
/// exactly those accepted by [`Date::valid`]; every `Date` handed out by this
/// crate satisfies it.
#[derive(Clone, Copy, Debug, PartialEq, Eq, Structural)]
pub struct Date {
    pub year: u32,
    pub month: u32,
    pub day: u32,
}

pub open spec fn is_leap_year(y: int) -> bool {
    y % 4 == 0 && (y % 100 != 0 || y % 400 == 0)
}

pub open spec fn days_in_month(y: int, m: int) -> int {
    if m == 2 {
        if is_leap_year(y) {
            29
        } else {
            28
        }
    } else if m == 4 || m == 6 || m == 9 || m == 11 {
        30
    } else {
        31
    }
}

impl Date {
    /// A valid calendar date whose year fits the four-digit canonical text form.
    pub open spec fn valid(self) -> bool {
        &&& self.year <= 9999
        &&& 1 <= self.month <= 12
        &&& 1 <= self.day <= days_in_month(self.year as int, self.month as int)
    }

    /// Builds a date from its components, accepting exactly the valid dates.
    pub fn from_ymd_opt(year: u32, month: u32, day: u32) -> (r: Option<Date>)
        ensures
            r == if (Date { year, month, day }).valid() {
                Some(Date { year, month, day })
            } else {
                None::<Date>
            },
    {
        let d = Date { year, month, day };
        if d.check_valid() {
            Some(d)
        } else {
            None
        }
    }

    /// Decides validity, matching the spec-level [`Date::valid`].
    pub fn check_valid(&self) -> (r: bool)
        ensures
            r == self.valid(),
    {
        if self.year > 9999 || self.month < 1 || self.month > 12 || self.day < 1 {
            false
        } else {
            self.day <= days_in_month_exec(self.year, self.month)
        }
    }
}

fn days_in_month_exec(y: u32, m: u32) -> (r: u32)
    requires
        1 <= m <= 12,
    ensures
        r == days_in_month(y as int, m as int),
{
    if m == 2 {
        if y % 4 == 0 && (y % 100 != 0 || y % 400 == 0) {
            29
        } else {
            28
        }
    } else if m == 4 || m == 6 || m == 9 || m == 11 {
        30
    } else {
        31
    }
}

/// The canonical `YYYY-MM-DD` form of a date: zero-padded, four-digit year.
pub open spec fn date_chars(d: Date) -> Seq<char> {
    seq![
        digit_char(d.year as int / 1000),
        digit_char((d.year as int / 100) % 10),
        digit_char((d.year as int / 10) % 10),
        digit_char(d.year as int % 10),
        '-',
        digit_char(d.month as int / 10),
        digit_char(d.month as int % 10),
        '-',
        digit_char(d.day as int / 10),
        digit_char(d.day as int % 10),
    ]
}

/// Renders a date in its canonical `YYYY-MM-DD` form.
pub fn serialize_naive_date(date: &Date) -> (r: String)
    requires
        date.valid(),
    ensures
        r@ == date_chars(*date),
{
    let mut s = String::new();
    push_char(&mut s, to_digit_char(date.year / 1000));
    push_char(&mut s, to_digit_char((date.year / 100) % 10));
    push_char(&mut s, to_digit_char((date.year / 10) % 10));
    push_char(&mut s, to_digit_char(date.year % 10));
    push_char(&mut s, '-');
    push_char(&mut s, to_digit_char(date.month / 10));
    push_char(&mut s, to_digit_char(date.month % 10));
    push_char(&mut s, '-');
    push_char(&mut s, to_digit_char(date.day / 10));
    push_char(&mut s, to_digit_char(date.day % 10));
    proof {
        assert(s@ =~= date_chars(*date));
    }
    s
}

/// The three-letter English weekday abbreviation of a valid calendar date.
/// It depends on the year, month and day alone.
pub uninterp spec fn weekday_abbrev_of(y: int, m: int, d: int) -> Seq<char>;

/// Relies on chrono: `NaiveDate::from_ymd_opt` returns `Some` for every valid
/// calendar date in this year range, `Datelike::weekday` gives its day of the
/// week, and `Display` on `chrono::Weekday` prints the three-letter English
/// abbreviation (`Mon`, `Tue`, ...). The result depends on the date alone.
#[verifier::external_body]
fn weekday_abbrev(y: u32, m: u32, d: u32) -> (r: String)
    requires
        (Date { year: y, month: m, day: d }).valid(),
    ensures
        r@ == weekday_abbrev_of(y as int, m as int, d as int),
{
    let date = chrono::NaiveDate::from_ymd_opt(y as i32, m, d).unwrap();
    let wd = date.weekday();
    format!("{wd}")
}

/// Renders a date in the extended form `YYYY-MM-DD <Weekday>`, where the
/// weekday is the standard three-letter English abbreviation, as given by
/// [`weekday_abbrev_of`].
pub fn serialize_naive_date_weekday(date: &Date) -> (r: String)
    requires
        date.valid(),
    ensures
        r@ == date_chars(*date) + seq![' '] + weekday_abbrev_of(
            date.year as int,
            date.month as int,
            date.day as int,
        ),
{
    let mut s = serialize_naive_date(date);
    push_char(&mut s, ' ');
    let w = weekday_abbrev(date.year, date.month, date.day);
    s.append(w.as_str());
    s
}

pub open spec fn is_digit_char(c: char) -> bool {
    48 <= c as int <= 57
}

pub open spec fn digit_val(c: char) -> int {
    c as int - 48
}

/// Whether a character sequence has the exact shape `YYYY-MM-DD`.
pub open spec fn date_text_ok(s: Seq<char>) -> bool {
    &&& s.len() == 10
    &&& s[4] == '-'
    &&& s[7] == '-'
    &&& is_digit_char(s[0])
    &&& is_digit_char(s[1])
    &&& is_digit_char(s[2])
    &&& is_digit_char(s[3])
    &&& is_digit_char(s[5])
    &&& is_digit_char(s[6])
    &&& is_digit_char(s[8])
    &&& is_digit_char(s[9])
}

/// The date read off a well-shaped `YYYY-MM-DD` character sequence.
pub open spec fn date_of_text(s: Seq<char>) -> Date {
    Date {
        year: (digit_val(s[0]) * 1000 + digit_val(s[1]) * 100 + digit_val(s[2]) * 10 + digit_val(
            s[3],
        )) as u32,
        month: (digit_val(s[5]) * 10 + digit_val(s[6])) as u32,
        day: (digit_val(s[8]) * 10 + digit_val(s[9])) as u32,
    }
}

/// A date text parses exactly when it is well shaped and names a valid date.
pub open spec fn parse_date_spec(s: Seq<char>) -> Option<Date> {
    if date_text_ok(s) && date_of_text(s).valid() {
        Some(date_of_text(s))
    } else {
        None
    }
}

proof fn lemma_digit_char_val(x: int)
    requires
        0 <= x <= 9,
    ensures
        is_digit_char(digit_char(x)),
        digit_val(digit_char(x)) == x,
{
}

/// Serialization and parsing agree: the canonical text of a valid date parses
/// back to exactly that date.
pub proof fn lemma_date_text_roundtrip(d: Date)
    requires
        d.valid(),
    ensures
        parse_date_spec(date_chars(d)) == Some(d),
{
    let s = date_chars(d);
    lemma_digit_char_val(d.year as int / 1000);
    lemma_digit_char_val((d.year as int / 100) % 10);
    lemma_digit_char_val((d.year as int / 10) % 10);
    lemma_digit_char_val(d.year as int % 10);
    lemma_digit_char_val(d.month as int / 10);
    lemma_digit_char_val(d.month as int % 10);
    lemma_digit_char_val(d.day as int / 10);
    lemma_digit_char_val(d.day as int % 10);
    assert(date_text_ok(s));
    let y = d.year as int;
    let m = d.month as int;
    let a = d.day as int;
    assert((y / 1000) * 1000 + ((y / 100) % 10) * 100 + ((y / 10) % 10) * 10 + y % 10 == y);
    assert((m / 10) * 10 + m % 10 == m);
    assert((a / 10) * 10 + a % 10 == a);
    assert(date_of_text(s) == d);
}

fn char_digit(c: char) -> (r: Option<u32>)
    ensures
        r == if is_digit_char(c) {
            Some(digit_val(c) as u32)
        } else {
            None::<u32>
        },
{
    let u = c as u32;
    if 48 <= u && u <= 57 {
        Some(u - 48)
    } else {
        None
    }
}

/// Parses the canonical `YYYY-MM-DD` form into a date, rejecting every other
/// shape and every invalid calendar date.
pub fn parse_date(s: &str) -> (r: Option<Date>)
    ensures
        r == parse_date_spec(s@),
{
    if s.unicode_len() != 10 {
        return None;
    }
    if s.get_char(4) != '-' || s.get_char(7) != '-' {
        return None;
    }
    let d0 = char_digit(s.get_char(0));
    let d1 = char_digit(s.get_char(1));
    let d2 = char_digit(s.get_char(2));
    let d3 = char_digit(s.get_char(3));
    let m0 = char_digit(s.get_char(5));
    let m1 = char_digit(s.get_char(6));
    let a0 = char_digit(s.get_char(8));
    let a1 = char_digit(s.get_char(9));
    match (d0, d1, d2, d3, m0, m1, a0, a1) {
        (
            Some(d0),
            Some(d1),
            Some(d2),
            Some(d3),
            Some(m0),
            Some(m1),
            Some(a0),
            Some(a1),
        ) => {
            let date = Date {
                year: d0 * 1000 + d1 * 100 + d2 * 10 + d3,
                month: m0 * 10 + m1,
                day: a0 * 10 + a1,
            };
            if date.check_valid() {
                Some(date)
            } else {
                None
            }
        },
        _ => None,
    }
}

} // verus!
