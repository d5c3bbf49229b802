use vstd::prelude::*;
use vstd::string::StringExecFns;
use vstd::string::StringSliceAdditionalSpecFns;

use crate::error::DateError;

verus! {

/// One Gregorian calendar day.
///
/// A valid value satisfies [`Date::wf`]: the month is in 1..=12, the day is
/// in 1..=[`days_in_month`], and the year fits in four decimal digits.
/// Parsing only ever produces valid values; projection from a richer
/// timestamp trusts its source.
#[derive(Clone, Copy, Debug, PartialEq, Eq, Hash, Structural)]
pub struct Date {
    /// 1...31
    pub day: u8,
    /// 1...12
    pub mon: u8,
    /// 1000...9999
    pub year: u16,
}

/// The Gregorian leap-year rule: divisible by 4, except centuries not
/// divisible by 400.
pub open spec fn is_leap_year(year: int) -> bool {
    year % 4 == 0 && (year % 100 != 0 || year % 400 == 0)
}

/// How many days the given month has in the given year.
/// Only meaningful for months in 1..=12.
pub open spec fn days_in_month(mon: int, year: int) -> int {
    if mon == 2 {
        if is_leap_year(year) {
            29
        } else {
            28
        }
    } else if mon == 4 || mon == 6 || mon == 9 || mon == 11 {
        30
    } else {
        31
    }
}

/// The ASCII code of `'0'`.
pub const BYTE_ZERO: u8 = 48;

/// The ASCII code of `'9'`.
pub const BYTE_NINE: u8 = 57;

/// The ASCII code of `'-'`.
pub const BYTE_DASH: u8 = 45;

/// Whether the byte is an ASCII decimal digit.
pub open spec fn is_digit(b: u8) -> bool {
    BYTE_ZERO <= b <= BYTE_NINE
}

/// The numeric value of an ASCII decimal digit byte.
pub open spec fn digit_val(b: u8) -> int {
    b - BYTE_ZERO
}

/// The year encoded by the four digit bytes at offsets 0..=3.
pub open spec fn year_of(bytes: Seq<u8>) -> int {
    digit_val(bytes[0]) * 1000 + digit_val(bytes[1]) * 100 + digit_val(bytes[2]) * 10 + digit_val(
        bytes[3],
    )
}

/// The month encoded by the two digit bytes at offsets 5..=6.
pub open spec fn month_of(bytes: Seq<u8>) -> int {
    digit_val(bytes[5]) * 10 + digit_val(bytes[6])
}

/// The day encoded by the two digit bytes at offsets 8..=9.
pub open spec fn day_of(bytes: Seq<u8>) -> int {
    digit_val(bytes[8]) * 10 + digit_val(bytes[9])
}

/// What parsing the layout `YYYY-MM-DD` out of the first ten bytes yields:
/// either the validated date or the first failure, checked in this order:
/// length, year digits, first separator, month digits, second separator,
/// day digits, month range, day range. Bytes beyond offset 9 are ignored.
pub open spec fn spec_parse(bytes: Seq<u8>) -> Result<Date, DateError> {
    if bytes.len() < 10 {
        Err(DateError::TooShort)
    } else if !(is_digit(bytes[0]) && is_digit(bytes[1]) && is_digit(bytes[2]) && is_digit(
        bytes[3],
    )) {
        Err(DateError::InvalidCharYear)
    } else if bytes[4] != BYTE_DASH {
        Err(DateError::InvalidCharDateSep)
    } else if !(is_digit(bytes[5]) && is_digit(bytes[6])) {
        Err(DateError::InvalidCharMonth)
    } else if bytes[7] != BYTE_DASH {
        Err(DateError::InvalidCharDateSep)
    } else if !(is_digit(bytes[8]) && is_digit(bytes[9])) {
        Err(DateError::InvalidCharDay)
    } else if !(1 <= month_of(bytes) <= 12) {
        Err(DateError::OutOfRangeMonth)
    } else if !(1 <= day_of(bytes) <= days_in_month(month_of(bytes), year_of(bytes))) {
        Err(DateError::OutOfRangeDay)
    } else {
        Ok(
            Date {
                day: day_of(bytes) as u8,
                mon: month_of(bytes) as u8,
                year: year_of(bytes) as u16,
            },
        )
    }
}

/// The ASCII digit character with the given value, for values 0..=9.
pub open spec fn digit_char(v: int) -> char {
    if v == 0 {
        '0'
    } else if v == 1 {
        '1'
    } else if v == 2 {
        '2'
    } else if v == 3 {
        '3'
    } else if v == 4 {
        '4'
    } else if v == 5 {
        '5'
    } else if v == 6 {
        '6'
    } else if v == 7 {
        '7'
    } else if v == 8 {
        '8'
    } else {
        '9'
    }
}

/// The canonical ten-character text `YYYY-MM-DD` of a date, zero-padded.
/// Only meaningful for well-formed dates.
pub open spec fn spec_format(d: Date) -> Seq<char> {
    seq![
        digit_char(d.year as int / 1000),
        digit_char((d.year as int / 100) % 10),
        digit_char((d.year as int / 10) % 10),
        digit_char(d.year as int % 10),
        '-',
        digit_char(d.mon as int / 10),
        digit_char(d.mon as int % 10),
        '-',
        digit_char(d.day as int / 10),
        digit_char(d.day as int % 10),
    ]
}

/// The canonical text of a date as its ten ASCII bytes; byte-for-byte the
/// UTF-8 encoding of [`spec_format`].
pub open spec fn spec_format_bytes(d: Date) -> Seq<u8> {
    seq![
        (BYTE_ZERO + d.year as int / 1000) as u8,
        (BYTE_ZERO + (d.year as int / 100) % 10) as u8,
        (BYTE_ZERO + (d.year as int / 10) % 10) as u8,
        (BYTE_ZERO + d.year as int % 10) as u8,
        BYTE_DASH,
        (BYTE_ZERO + d.mon as int / 10) as u8,
        (BYTE_ZERO + d.mon as int % 10) as u8,
        BYTE_DASH,
        (BYTE_ZERO + d.day as int / 10) as u8,
        (BYTE_ZERO + d.day as int % 10) as u8,
    ]
}

/// Append the ASCII digit character with value `v` to `s`.
fn push_digit(s: &mut String, v: u8)
    requires
        v <= 9,
    ensures
        final(s)@ == old(s)@ + seq![digit_char(v as int)],
{
    proof {
        reveal_strlit("0");
        reveal_strlit("1");
        reveal_strlit("2");
        reveal_strlit("3");
        reveal_strlit("4");
        reveal_strlit("5");
        reveal_strlit("6");
        reveal_strlit("7");
        reveal_strlit("8");
        reveal_strlit("9");
    }
    if v == 0 {
        s.append("0");
    } else if v == 1 {
        s.append("1");
    } else if v == 2 {
        s.append("2");
    } else if v == 3 {
        s.append("3");
    } else if v == 4 {
        s.append("4");
    } else if v == 5 {
        s.append("5");
    } else if v == 6 {
        s.append("6");
    } else if v == 7 {
        s.append("7");
    } else if v == 8 {
        s.append("8");
    } else {
        s.append("9");
    }
    assert(final(s)@ =~= old(s)@ + seq![digit_char(v as int)]);
}

/// Append `-` to `s`.
fn push_dash(s: &mut String)
    ensures
        final(s)@ == old(s)@ + seq!['-'],
{
    proof {
        reveal_strlit("-");
    }
    s.append("-");
    assert(final(s)@ =~= old(s)@ + seq!['-']);
}

impl PartialOrd for Date {
    /// Dates are totally ordered by `(year, mon, day)`, year first, which is
    /// consistent with calendar chronology.
    fn partial_cmp(&self, other: &Date) -> (r: Option<core::cmp::Ordering>) {
        if self.year != other.year {
            if self.year < other.year {
                Some(core::cmp::Ordering::Less)
            } else {
                Some(core::cmp::Ordering::Greater)
            }
        } else if self.mon != other.mon {
            if self.mon < other.mon {
                Some(core::cmp::Ordering::Less)
            } else {
                Some(core::cmp::Ordering::Greater)
            }
        } else if self.day != other.day {
            if self.day < other.day {
                Some(core::cmp::Ordering::Less)
            } else {
                Some(core::cmp::Ordering::Greater)
            }
        } else {
            Some(core::cmp::Ordering::Equal)
        }
    }
}

impl vstd::std_specs::cmp::PartialOrdSpecImpl for Date {
    open spec fn obeys_partial_cmp_spec() -> bool {
        true
    }

    open spec fn partial_cmp_spec(&self, other: &Date) -> Option<core::cmp::Ordering> {
        if self.lt_spec(*other) {
            Some(core::cmp::Ordering::Less)
        } else if other.lt_spec(*self) {
            Some(core::cmp::Ordering::Greater)
        } else {
            Some(core::cmp::Ordering::Equal)
        }
    }
}

/// Whether the byte is an ASCII decimal digit.
fn digit(b: u8) -> (r: bool)
    ensures
        r == is_digit(b),
{
    BYTE_ZERO <= b && b <= BYTE_NINE
}

impl Date {
    /// The invariant of every successfully parsed value.
    pub open spec fn wf(self) -> bool {
        &&& 1 <= self.mon <= 12
        &&& 1 <= self.day <= days_in_month(self.mon as int, self.year as int)
        &&& self.year <= 9999
    }

    /// Chronological precedence: `(year, mon, day)` compared
    /// lexicographically, year first.
    pub open spec fn lt_spec(self, other: Date) -> bool {
        ||| self.year < other.year
        ||| (self.year == other.year && self.mon < other.mon)
        ||| (self.year == other.year && self.mon == other.mon && self.day < other.day)
    }

    /// Parse a date from the first ten bytes of `bytes`, laid out as
    /// `YYYY-MM-DD`; no check is performed on extra bytes at the end, so a
    /// longer timestamp string may be fed in whole.
    pub fn parse_bytes_partial(bytes: &[u8]) -> (r: Result<Self, DateError>)
        ensures
            r == spec_parse(bytes@),
            r matches Ok(d) ==> d.wf(),
    {
        if bytes.len() < 10 {
            return Err(DateError::TooShort);
        }
        let b0 = bytes[0];
        let b1 = bytes[1];
        let b2 = bytes[2];
        let b3 = bytes[3];
        if !(digit(b0) && digit(b1) && digit(b2) && digit(b3)) {
            return Err(DateError::InvalidCharYear);
        }
        let year: u16 = (b0 - BYTE_ZERO) as u16 * 1000 + (b1 - BYTE_ZERO) as u16 * 100 + (b2
            - BYTE_ZERO) as u16 * 10 + (b3 - BYTE_ZERO) as u16;

        if bytes[4] != BYTE_DASH {
            return Err(DateError::InvalidCharDateSep);
        }
        let b5 = bytes[5];
        let b6 = bytes[6];
        if !(digit(b5) && digit(b6)) {
            return Err(DateError::InvalidCharMonth);
        }
        let month: u8 = (b5 - BYTE_ZERO) * 10 + (b6 - BYTE_ZERO);

        if bytes[7] != BYTE_DASH {
            return Err(DateError::InvalidCharDateSep);
        }
        let b8 = bytes[8];
        let b9 = bytes[9];
        if !(digit(b8) && digit(b9)) {
            return Err(DateError::InvalidCharDay);
        }
        let day: u8 = (b8 - BYTE_ZERO) * 10 + (b9 - BYTE_ZERO);

        if month < 1 || month > 12 {
            return Err(DateError::OutOfRangeMonth);
        }
        let max_days = Self::max_days_in_month(month, year);
        if day < 1 || day > max_days {
            return Err(DateError::OutOfRangeDay);
        }
        Ok(Date { day, mon: month, year })
    }

    /// Parse a date from the start of a text string; trailing characters
    /// beyond the ten-character layout are tolerated exactly as in
    /// [`Date::parse_bytes_partial`].
    pub fn from_str(s: &str) -> (r: Result<Self, DateError>)
        ensures
            r == spec_parse(s.spec_bytes()),
            r matches Ok(d) ==> d.wf(),
    {
        Date::parse_bytes_partial(s.as_bytes())
    }

    /// The canonical text of the date: exactly ten characters in the layout
    /// `YYYY-MM-DD`, zero-padded. Formatting a validated date never fails.
    pub fn format(&self) -> (r: String)
        requires
            self.wf(),
        ensures
            r@ == spec_format(*self),
    {
        let mut r = String::new();
        push_digit(&mut r, (self.year / 1000) as u8);
        push_digit(&mut r, (self.year / 100 % 10) as u8);
        push_digit(&mut r, (self.year / 10 % 10) as u8);
        push_digit(&mut r, (self.year % 10) as u8);
        push_dash(&mut r);
        push_digit(&mut r, self.mon / 10);
        push_digit(&mut r, self.mon % 10);
        push_dash(&mut r);
        push_digit(&mut r, self.day / 10);
        push_digit(&mut r, self.day % 10);
        assert(r@ =~= spec_format(*self));
        r
    }

    /// The number of days in the given month of the given year, accounting
    /// for leap years in the Gregorian calendar.
    pub fn max_days_in_month(mon: u8, year: u16) -> (r: u8)
        requires
            1 <= mon <= 12,
        ensures
            r == days_in_month(mon as int, year as int),
    {
        if mon == 2 {
            if year % 4 == 0 && (year % 100 != 0 || year % 400 == 0) {
                29
            } else {
                28
            }
        } else if mon == 4 || mon == 6 || mon == 9 || mon == 11 {
            30
        } else {
            31
        }
    }
}

} // verus!
