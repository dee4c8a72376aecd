//! Calendar dates given on the command line, read by `chrono`.
use vstd::prelude::*;
use chrono::Datelike;
use crate::decimal::two_digits;
use crate::error::QuantixError;
use crate::text::{dec_text, repeat_text};

verus! {

/// A calendar date, as `chrono::NaiveDate` holds it.
#[derive(Clone, Copy, Debug, PartialEq, Eq)]
pub struct CalendarDate {
    pub year: i32,
    pub month: u32,
    pub day: u32,
}

/// A leap year of the proleptic Gregorian calendar.
pub open spec fn is_leap_year(year: int) -> bool {
    year % 4 == 0 && (year % 100 != 0 || year % 400 == 0)
}

/// The number of days of a month.
pub open spec fn days_in_month(year: int, month: int) -> int {
    if month == 2 {
        if is_leap_year(year) {
            29
        } else {
            28
        }
    } else if month == 4 || month == 6 || month == 9 || month == 11 {
        30
    } else {
        31
    }
}

/// A date that `chrono::NaiveDate` can hold: a real day of a year between
/// -262143 and 262142.
pub open spec fn valid_date(d: CalendarDate) -> bool {
    &&& -262143 <= d.year <= 262142
    &&& 1 <= d.month <= 12
    &&& 1 <= d.day <= days_in_month(d.year as int, d.month as int)
}

/// The year as `NaiveDate`'s `Display` writes it: four digits for the years
/// 0 to 9999, else a sign and at least four digits.
pub open spec fn year_text(year: int) -> Seq<char> {
    if 0 <= year <= 9999 {
        two_digits((year / 100) as nat) + two_digits((year % 100) as nat)
    } else {
        let a = if year < 0 {
            -year
        } else {
            year
        };
        let digits = dec_text(a as nat);
        (if year < 0 {
            seq!['-']
        } else {
            seq!['+']
        }) + if digits.len() < 4 {
            repeat_text(seq!['0'], (4 - digits.len()) as nat) + digits
        } else {
            digits
        }
    }
}

/// `YYYY-MM-DD`, as `NaiveDate`'s `Display` writes a date.
pub open spec fn date_text(d: CalendarDate) -> Seq<char> {
    year_text(d.year as int) + seq!['-'] + two_digits(d.month as nat) + seq!['-'] + two_digits(
        d.day as nat,
    )
}

/// `chrono::NaiveDate`'s `Display`: as its source writes it, the year (four
/// digits for 0 to 9999, else signed), the two-digit month and the two-digit
/// day, joined by `-`.
#[verifier::external_body]
pub(crate) fn format_naive_date(d: &CalendarDate) -> (r: String)
    requires
        valid_date(*d),
    ensures
        r@ == date_text(*d),
{
    chrono::NaiveDate::from_ymd_opt(d.year, d.month, d.day).unwrap().to_string()
}

/// What `chrono::NaiveDate::parse_from_str(s, fmt)` returns: the year,
/// month and day of the date read, or the text of the parse error.
pub uninterp spec fn chrono_date_parse(s: Seq<char>, fmt: Seq<char>) -> Result<
    (int, int, int),
    Seq<char>,
>;

/// A date as year, month and day.
pub open spec fn date_triple(d: CalendarDate) -> (int, int, int) {
    (d.year as int, d.month as int, d.day as int)
}

/// The outcome of a parse as the name above states it.
pub open spec fn parse_outcome(r: Result<CalendarDate, String>) -> Result<
    (int, int, int),
    Seq<char>,
> {
    match r {
        Ok(d) => Ok((d.year as int, d.month as int, d.day as int)),
        Err(e) => Err(e@),
    }
}

/// `chrono::NaiveDate::parse_from_str`: the contract names its outcome, the
/// date's year, month and day or the `Display` text of its `ParseError`,
/// and states that a date read is one that `NaiveDate` can hold; which
/// texts it accepts under which format is not stated.
#[verifier::external_body]
pub(crate) fn parse_naive_date(s: &str, fmt: &str) -> (r: Result<CalendarDate, String>)
    ensures
        parse_outcome(r) == chrono_date_parse(s@, fmt@),
        r matches Ok(d) ==> valid_date(d),
{
    match chrono::NaiveDate::parse_from_str(s, fmt) {
        Ok(d) => Ok(CalendarDate { year: d.year(), month: d.month(), day: d.day() }),
        Err(e) => Err(e.to_string()),
    }
}

/// The message refusing a market date.
pub open spec fn market_date_message(value: Seq<char>) -> Seq<char> {
    "无效日期格式: "@ + value + "，请使用 YYYY-MM-DD"@
}

/// The market date `value`, given what the date parser made of it.
pub fn market_date_from_parse(value: &str, parsed: Result<CalendarDate, String>) -> (r: Result<
    CalendarDate,
    QuantixError,
>)
    ensures
        parsed is Ok ==> r == Ok::<CalendarDate, QuantixError>(parsed->Ok_0),
        parsed is Err ==> (r matches Err(QuantixError::Other(m)) && m@ == market_date_message(
            value@,
        )),
{
    match parsed {
        Ok(d) => Ok(d),
        Err(_) => {
            let mut m = "无效日期格式: ".to_string();
            m.append(value);
            m.append("，请使用 YYYY-MM-DD");
            Err(QuantixError::Other(m))
        },
    }
}

/// The optional `YYYY-MM-DD` date of a market command.
pub fn parse_market_date(raw: Option<&str>) -> (r: Result<Option<CalendarDate>, QuantixError>)
    ensures
        raw is None ==> r == Ok::<Option<CalendarDate>, QuantixError>(None),
        raw matches Some(v) ==> match chrono_date_parse(v@, "%Y-%m-%d"@) {
            Ok(ymd) => r matches Ok(Some(d)) && (d.year as int, d.month as int, d.day as int)
                == ymd,
            Err(_) => r matches Err(QuantixError::Other(m)) && m@ == market_date_message(v@),
        },
{
    match raw {
        None => Ok(None),
        Some(value) => {
            let parsed = parse_naive_date(value, "%Y-%m-%d");
            match market_date_from_parse(value, parsed) {
                Ok(d) => Ok(Some(d)),
                Err(e) => Err(e),
            }
        },
    }
}

/// The message refusing a factor date.
pub open spec fn factor_date_message(value: Seq<char>, err: Seq<char>) -> Seq<char> {
    "invalid factor date `"@ + value + "`: "@ + err
}

/// The factor date `value`, given what the date parser made of it.
pub fn factor_date_from_parse(value: &str, parsed: Result<CalendarDate, String>) -> (r: Result<
    CalendarDate,
    QuantixError,
>)
    ensures
        parsed is Ok ==> r == Ok::<CalendarDate, QuantixError>(parsed->Ok_0),
        parsed matches Err(e) ==> (r matches Err(QuantixError::DataParse(m)) && m@
            == factor_date_message(value@, e@)),
{
    match parsed {
        Ok(d) => Ok(d),
        Err(e) => {
            let mut m = "invalid factor date `".to_string();
            m.append(value);
            m.append("`: ");
            m.append(e.as_str());
            Err(QuantixError::DataParse(m))
        },
    }
}

/// The `YYYY-MM-DD` date of a factor command.
pub fn parse_factor_date(value: &str) -> (r: Result<CalendarDate, QuantixError>)
    ensures
        match chrono_date_parse(value@, "%Y-%m-%d"@) {
            Ok(ymd) => r matches Ok(d) && (d.year as int, d.month as int, d.day as int) == ymd,
            Err(e) => r matches Err(QuantixError::DataParse(m)) && m@ == factor_date_message(
                value@,
                e,
            ),
        },
{
    let parsed = parse_naive_date(value, "%Y-%m-%d");
    factor_date_from_parse(value, parsed)
}

} // verus!
