//! Calendar and clock values: days, months, times of day, durations.

pub mod calendar_date;
pub mod calendar_date_time;
pub mod calendar_year_month;
pub mod day_of_month;
pub mod duration;
pub mod hour_of_day;
pub mod minute_of_hour;
pub mod month_of_year;
pub mod time_of_day;
pub mod time_point;
pub mod time_unit;
pub mod time_unit_conversion_factor;
pub mod utc;

pub use self::calendar_date::CalendarDate;
pub use self::calendar_date_time::CalendarDateTime;
pub use self::calendar_year_month::CalendarYearMonth;
pub use self::day_of_month::DayOfMonth;
pub use self::duration::Duration;
pub use self::hour_of_day::HourOfDay;
pub use self::minute_of_hour::MinuteOfHour;
pub use self::month_of_year::MonthOfYear;
pub use self::time_of_day::TimeOfDay;
pub use self::time_point::TimePoint;
pub use self::time_unit::TimeUnit;
pub use self::time_unit::TimeUnitType;
pub use self::time_unit_conversion_factor::TimeUnitConversionFactor;

use vstd::prelude::*;
use vstd::string::StringExecFns;

verus! {

/// The day of the week, numbered from Sunday as 1 to Saturday as 7.
#[derive(Debug, Clone, Copy, PartialEq, Eq, Structural, PartialOrd, Hash)]
pub enum DayOfWeek {
    Sunday,
    Monday,
    Tuesday,
    Wednesday,
    Thursday,
    Friday,
    Saturday,
}

impl DayOfWeek {
    /// The day's number, 1 to 7.
    pub open spec fn number(self) -> int {
        match self {
            DayOfWeek::Sunday => 1,
            DayOfWeek::Monday => 2,
            DayOfWeek::Tuesday => 3,
            DayOfWeek::Wednesday => 4,
            DayOfWeek::Thursday => 5,
            DayOfWeek::Friday => 6,
            DayOfWeek::Saturday => 7,
        }
    }

    /// The day with the given number, for a number from 1 to 7.
    pub open spec fn of_number(n: int) -> Option<DayOfWeek> {
        if n == 1 {
            Some(DayOfWeek::Sunday)
        } else if n == 2 {
            Some(DayOfWeek::Monday)
        } else if n == 3 {
            Some(DayOfWeek::Tuesday)
        } else if n == 4 {
            Some(DayOfWeek::Wednesday)
        } else if n == 5 {
            Some(DayOfWeek::Thursday)
        } else if n == 6 {
            Some(DayOfWeek::Friday)
        } else if n == 7 {
            Some(DayOfWeek::Saturday)
        } else {
            None
        }
    }

    /// The day's number.
    pub fn to_u32(&self) -> (r: u32)
        ensures
            r == self.number(),
    {
        match *self {
            DayOfWeek::Sunday => 1,
            DayOfWeek::Monday => 2,
            DayOfWeek::Tuesday => 3,
            DayOfWeek::Wednesday => 4,
            DayOfWeek::Thursday => 5,
            DayOfWeek::Friday => 6,
            DayOfWeek::Saturday => 7,
        }
    }

    /// The day's number as an `i64`; always there.
    pub fn to_i64(&self) -> (r: Option<i64>)
        ensures
            r is Some,
            r->Some_0 == self.number(),
    {
        Some(self.to_u32() as i64)
    }

    /// The day's number as a `u64`; always there.
    pub fn to_u64(&self) -> (r: Option<u64>)
        ensures
            r is Some,
            r->Some_0 == self.number(),
    {
        Some(self.to_u32() as u64)
    }

    /// The day with the given number, or `None` outside 1 to 7.
    pub fn from_u32(n: u32) -> (r: Option<Self>)
        ensures
            r == Self::of_number(n as int),
    {
        match n {
            1 => Some(DayOfWeek::Sunday),
            2 => Some(DayOfWeek::Monday),
            3 => Some(DayOfWeek::Tuesday),
            4 => Some(DayOfWeek::Wednesday),
            5 => Some(DayOfWeek::Thursday),
            6 => Some(DayOfWeek::Friday),
            7 => Some(DayOfWeek::Saturday),
            _ => None,
        }
    }

    /// The day with the given number, or `None` outside 1 to 7.
    pub fn from_i64(n: i64) -> (r: Option<Self>)
        ensures
            r == Self::of_number(n as int),
    {
        if 1 <= n && n <= 7 {
            Self::from_u32(n as u32)
        } else {
            None
        }
    }

    /// The day with the given number, or `None` outside 1 to 7.
    pub fn from_u64(n: u64) -> (r: Option<Self>)
        ensures
            r == Self::of_number(n as int),
    {
        if 1 <= n && n <= 7 {
            Self::from_u32(n as u32)
        } else {
            None
        }
    }
}

/// The month of the year, numbered from January as 1 to December as 12.
#[derive(Debug, Clone, Copy, PartialEq, Eq, Structural, PartialOrd, Hash)]
pub enum Month {
    January,
    February,
    March,
    April,
    May,
    June,
    July,
    August,
    September,
    October,
    November,
    December,
}

impl Month {
    /// The month's number, 1 to 12.
    pub open spec fn number(self) -> int {
        match self {
            Month::January => 1,
            Month::February => 2,
            Month::March => 3,
            Month::April => 4,
            Month::May => 5,
            Month::June => 6,
            Month::July => 7,
            Month::August => 8,
            Month::September => 9,
            Month::October => 10,
            Month::November => 11,
            Month::December => 12,
        }
    }

    /// The month with the given number, for a number from 1 to 12.
    pub open spec fn of_number(n: int) -> Option<Month> {
        if n == 1 {
            Some(Month::January)
        } else if n == 2 {
            Some(Month::February)
        } else if n == 3 {
            Some(Month::March)
        } else if n == 4 {
            Some(Month::April)
        } else if n == 5 {
            Some(Month::May)
        } else if n == 6 {
            Some(Month::June)
        } else if n == 7 {
            Some(Month::July)
        } else if n == 8 {
            Some(Month::August)
        } else if n == 9 {
            Some(Month::September)
        } else if n == 10 {
            Some(Month::October)
        } else if n == 11 {
            Some(Month::November)
        } else if n == 12 {
            Some(Month::December)
        } else {
            None
        }
    }

    /// The month's number.
    pub fn to_u32(&self) -> (r: u32)
        ensures
            r == self.number(),
    {
        match *self {
            Month::January => 1,
            Month::February => 2,
            Month::March => 3,
            Month::April => 4,
            Month::May => 5,
            Month::June => 6,
            Month::July => 7,
            Month::August => 8,
            Month::September => 9,
            Month::October => 10,
            Month::November => 11,
            Month::December => 12,
        }
    }

    /// The month's number as an `i64`; always there.
    pub fn to_i64(&self) -> (r: Option<i64>)
        ensures
            r is Some,
            r->Some_0 == self.number(),
    {
        Some(self.to_u32() as i64)
    }

    /// The month's number as a `u64`; always there.
    pub fn to_u64(&self) -> (r: Option<u64>)
        ensures
            r is Some,
            r->Some_0 == self.number(),
    {
        Some(self.to_u32() as u64)
    }

    /// The month with the given number, or `None` outside 1 to 12.
    pub fn from_u32(n: u32) -> (r: Option<Self>)
        ensures
            r == Self::of_number(n as int),
    {
        match n {
            1 => Some(Month::January),
            2 => Some(Month::February),
            3 => Some(Month::March),
            4 => Some(Month::April),
            5 => Some(Month::May),
            6 => Some(Month::June),
            7 => Some(Month::July),
            8 => Some(Month::August),
            9 => Some(Month::September),
            10 => Some(Month::October),
            11 => Some(Month::November),
            12 => Some(Month::December),
            _ => None,
        }
    }

    /// The month with the given number, or `None` outside 1 to 12.
    pub fn from_i64(n: i64) -> (r: Option<Self>)
        ensures
            r == Self::of_number(n as int),
    {
        if 1 <= n && n <= 12 {
            Self::from_u32(n as u32)
        } else {
            None
        }
    }

    /// The month with the given number, or `None` outside 1 to 12.
    pub fn from_u64(n: u64) -> (r: Option<Self>)
        ensures
            r == Self::of_number(n as int),
    {
        if 1 <= n && n <= 12 {
            Self::from_u32(n as u32)
        } else {
            None
        }
    }
}

/// The year is a leap year of the Gregorian calendar: a multiple of 4 that is
/// no multiple of 100, or a multiple of 400.
pub open spec fn is_leap_year_spec(year: int) -> bool {
    year % 4 == 0 && (year % 100 != 0 || year % 400 == 0)
}

/// The year is a leap year.
pub fn is_leap_year(year: i32) -> (r: bool)
    ensures
        r == is_leap_year_spec(year as int),
{
    year % 4 == 0 && (year % 100 != 0 || (year % 100 == 0 && year % 400 == 0))
}

/// The character of a decimal digit.
pub open spec fn digit_char(d: int) -> char {
    if d == 0 {
        '0'
    } else if d == 1 {
        '1'
    } else if d == 2 {
        '2'
    } else if d == 3 {
        '3'
    } else if d == 4 {
        '4'
    } else if d == 5 {
        '5'
    } else if d == 6 {
        '6'
    } else if d == 7 {
        '7'
    } else if d == 8 {
        '8'
    } else {
        '9'
    }
}

/// The decimal digits of a natural number, without leading zeros; the single
/// digit 0 for zero.
pub open spec fn digits_text(n: nat) -> Seq<char>
    decreases n,
{
    if n < 10 {
        seq![digit_char(n as int)]
    } else {
        digits_text(n / 10).push(digit_char((n % 10) as int))
    }
}

/// An integer written in decimal, with a minus sign before a negative one.
pub open spec fn integer_text(n: int) -> Seq<char> {
    if n < 0 {
        seq!['-'] + digits_text((-n) as nat)
    } else {
        digits_text(n as nat)
    }
}

/// A number below 100 written in two decimal digits.
pub open spec fn two_digits_spec(n: int) -> Seq<char> {
    seq![digit_char(n / 10), digit_char(n % 10)]
}

fn digit_str(d: u32) -> (r: &'static str)
    requires
        d < 10,
    ensures
        r@ == seq![digit_char(d as int)],
{
    proof {
        reveal_strlit("0");
        reveal_strlit("1");
        reveal_strlit("2");
        reveal_strlit("3");
        reveal_strlit("4");
        reveal_strlit("5");
        reveal_strlit("6");
        reveal_strlit("7");
        reveal_strlit("8");
        reveal_strlit("9");
    }
    let r = match d {
        0 => "0",
        1 => "1",
        2 => "2",
        3 => "3",
        4 => "4",
        5 => "5",
        6 => "6",
        7 => "7",
        8 => "8",
        _ => "9",
    };
    assert(r@ =~= seq![digit_char(d as int)]);
    r
}

/// A natural number written in decimal.
pub fn natural_to_string(n: u64) -> (r: String)
    ensures
        r@ == digits_text(n as nat),
    decreases n,
{
    if n < 10 {
        String::from_str(digit_str(n as u32))
    } else {
        let r = natural_to_string(n / 10).concat(digit_str((n % 10) as u32));
        assert(r@ =~= digits_text(n as nat));
        r
    }
}

/// An integer written in decimal, with a minus sign before a negative one.
pub fn integer_to_string(n: i64) -> (r: String)
    ensures
        r@ == integer_text(n as int),
{
    if n < 0 {
        let magnitude: u64 = ((-(n + 1)) as u64) + 1;
        let digits = natural_to_string(magnitude);
        let r = String::from_str("-").concat(digits.as_str());
        proof {
            reveal_strlit("-");
            assert(r@ =~= integer_text(n as int));
        }
        r
    } else {
        natural_to_string(n as u64)
    }
}

/// A number below 100 written in two decimal digits.
pub fn two_digits(n: u32) -> (r: String)
    requires
        n < 100,
    ensures
        r@ == two_digits_spec(n as int),
{
    let tens = String::from_str(digit_str(n / 10));
    let r = tens.concat(digit_str(n % 10));
    assert(r@ =~= two_digits_spec(n as int));
    r
}

} // verus!
