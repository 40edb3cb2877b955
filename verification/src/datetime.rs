use vstd::prelude::*;

verus! {

/// A calendar timestamp in local time, as the sorting rules read it:
/// plain date and time-of-day fields.
#[derive(Clone, Copy, Debug, PartialEq, Eq, Structural)]
pub struct Timestamp {
    pub year: u16,
    pub month: u8,
    pub day: u8,
    pub hour: u8,
    pub minute: u8,
    pub second: u8,
}

pub open spec fn is_leap_year(y: int) -> bool {
    y % 4 == 0 && (y % 100 != 0 || y % 400 == 0)
}

pub open spec fn days_in_month_s(y: int, m: int) -> int {
    if m == 2 {
        if is_leap_year(y) {
            29
        } else {
            28
        }
    } else if m == 4 || m == 6 || m == 9 || m == 11 {
        30
    } else {
        31
    }
}

pub fn days_in_month(y: u16, m: u8) -> (r: u8)
    requires
        1 <= m <= 12,
    ensures
        r == days_in_month_s(y as int, m as int),
{
    if m == 2 {
        if y % 4 == 0 && (y % 100 != 0 || y % 400 == 0) {
            29
        } else {
            28
        }
    } else if m == 4 || m == 6 || m == 9 || m == 11 {
        30
    } else {
        31
    }
}

impl Timestamp {
    /// A timestamp is valid when its fields name a real calendar date and
    /// a real time of day.
    pub open spec fn valid(self) -> bool {
        &&& 1 <= self.month <= 12
        &&& 1 <= self.day <= days_in_month_s(self.year as int, self.month as int)
        &&& self.hour <= 23
        &&& self.minute <= 59
        &&& self.second <= 59
    }

    /// Builds a timestamp, accepting only real calendar dates and times.
    pub fn new(year: u16, month: u8, day: u8, hour: u8, minute: u8, second: u8) -> (r: Option<
        Timestamp,
    >)
        ensures
            r matches Some(t) ==> t == (Timestamp { year, month, day, hour, minute, second })
                && t.valid(),
            r is None ==> !(Timestamp { year, month, day, hour, minute, second }).valid(),
    {
        if 1 <= month && month <= 12 && 1 <= day && day <= days_in_month(year, month) && hour <= 23
            && minute <= 59 && second <= 59 {
            Option::Some(Timestamp { year, month, day, hour, minute, second })
        } else {
            Option::None
        }
    }
}

/// The numeric value of a decimal digit character, or -1 for any other character.
pub open spec fn digit_val(c: char) -> int {
    if c == '0' {
        0
    } else if c == '1' {
        1
    } else if c == '2' {
        2
    } else if c == '3' {
        3
    } else if c == '4' {
        4
    } else if c == '5' {
        5
    } else if c == '6' {
        6
    } else if c == '7' {
        7
    } else if c == '8' {
        8
    } else if c == '9' {
        9
    } else {
        -1
    }
}

pub open spec fn is_digit(c: char) -> bool {
    digit_val(c) >= 0
}

/// Reads one decimal digit character.
pub fn digit_of(c: char) -> (r: Option<u8>)
    ensures
        r matches Some(v) ==> digit_val(c) == v,
        (r is Some) == is_digit(c),
{
    match c {
        '0' => Option::Some(0),
        '1' => Option::Some(1),
        '2' => Option::Some(2),
        '3' => Option::Some(3),
        '4' => Option::Some(4),
        '5' => Option::Some(5),
        '6' => Option::Some(6),
        '7' => Option::Some(7),
        '8' => Option::Some(8),
        '9' => Option::Some(9),
        _ => Option::None,
    }
}

/// The value of the two digits of `s` at `i` and `i + 1`.
pub open spec fn num2(s: Seq<char>, i: int) -> int {
    digit_val(s[i]) * 10 + digit_val(s[i + 1])
}

/// The value of the four digits of `s` starting at `i`.
pub open spec fn num4(s: Seq<char>, i: int) -> int {
    digit_val(s[i]) * 1000 + digit_val(s[i + 1]) * 100 + digit_val(s[i + 2]) * 10 + digit_val(
        s[i + 3],
    )
}

/// Whether `s` has the exact `YYYYxMMxDD yHHzMMzSS` shape: nineteen characters,
/// digits in the numeric positions, the given separators in between.
pub open spec fn datetime_shape(s: Seq<char>, date_sep: char, mid_sep: char) -> bool {
    &&& s.len() == 19
    &&& is_digit(s[0]) && is_digit(s[1]) && is_digit(s[2]) && is_digit(s[3])
    &&& s[4] == date_sep
    &&& is_digit(s[5]) && is_digit(s[6])
    &&& s[7] == date_sep
    &&& is_digit(s[8]) && is_digit(s[9])
    &&& s[10] == mid_sep
    &&& is_digit(s[11]) && is_digit(s[12])
    &&& s[13] == ':'
    &&& is_digit(s[14]) && is_digit(s[15])
    &&& s[16] == ':'
    &&& is_digit(s[17]) && is_digit(s[18])
}

/// The timestamp denoted by a string of the shape above.
pub open spec fn datetime_fields(s: Seq<char>) -> Timestamp {
    Timestamp {
        year: num4(s, 0) as u16,
        month: num2(s, 5) as u8,
        day: num2(s, 8) as u8,
        hour: num2(s, 11) as u8,
        minute: num2(s, 14) as u8,
        second: num2(s, 17) as u8,
    }
}

/// What parsing a datetime string yields: the denoted timestamp where the
/// shape fits and the fields are a real date and time, nothing otherwise.
pub open spec fn parsed_datetime(s: Seq<char>, date_sep: char, mid_sep: char) -> Option<Timestamp> {
    if datetime_shape(s, date_sep, mid_sep) && datetime_fields(s).valid() {
        Option::Some(datetime_fields(s))
    } else {
        Option::None
    }
}

fn two_digits(s: &str, i: usize) -> (r: Option<u8>)
    requires
        i + 2 <= s@.len() < usize::MAX,
    ensures
        r matches Some(v) ==> is_digit(s@[i as int]) && is_digit(s@[i + 1]) && v == num2(
            s@,
            i as int,
        ),
        (r is Some) == (is_digit(s@[i as int]) && is_digit(s@[i + 1])),
{
    let d1 = digit_of(s.get_char(i));
    let d2 = digit_of(s.get_char(i + 1));
    match (d1, d2) {
        (Option::Some(a), Option::Some(b)) => Option::Some(a * 10 + b),
        _ => Option::None,
    }
}

fn four_digits(s: &str, i: usize) -> (r: Option<u16>)
    requires
        i + 4 <= s@.len() < usize::MAX,
    ensures
        r matches Some(v) ==> is_digit(s@[i as int]) && is_digit(s@[i + 1]) && is_digit(s@[i + 2])
            && is_digit(s@[i + 3]) && v == num4(s@, i as int),
        (r is Some) == (is_digit(s@[i as int]) && is_digit(s@[i + 1]) && is_digit(s@[i + 2])
            && is_digit(s@[i + 3])),
{
    let d1 = digit_of(s.get_char(i));
    let d2 = digit_of(s.get_char(i + 1));
    let d3 = digit_of(s.get_char(i + 2));
    let d4 = digit_of(s.get_char(i + 3));
    match (d1, d2, d3, d4) {
        (Option::Some(a), Option::Some(b), Option::Some(c), Option::Some(d)) => Option::Some(
            (a as u16) * 1000 + (b as u16) * 100 + (c as u16) * 10 + (d as u16),
        ),
        _ => Option::None,
    }
}

/// Parses a `YYYYxMMxDD yHHzMMzSS` string into a timestamp, rejecting any
/// string that does not have that shape or does not name a real date.
pub fn parse_datetime(s: &str, date_sep: char, mid_sep: char) -> (r: Option<Timestamp>)
    ensures
        r == parsed_datetime(s@, date_sep, mid_sep),
{
    if s.unicode_len() != 19 {
        return Option::None;
    }
    if s.get_char(4) != date_sep || s.get_char(7) != date_sep || s.get_char(10) != mid_sep
        || s.get_char(13) != ':' || s.get_char(16) != ':' {
        return Option::None;
    }
    let year = four_digits(s, 0);
    let month = two_digits(s, 5);
    let day = two_digits(s, 8);
    let hour = two_digits(s, 11);
    let minute = two_digits(s, 14);
    let second = two_digits(s, 17);
    match (year, month, day, hour, minute, second) {
        (
            Option::Some(y),
            Option::Some(mo),
            Option::Some(d),
            Option::Some(h),
            Option::Some(mi),
            Option::Some(se),
        ) => Timestamp::new(y, mo, d, h, mi, se),
        _ => Option::None,
    }
}

/// Parses the timestamp text used by image metadata date tags.
pub fn parse_exif_datetime(s: &str) -> (r: Option<Timestamp>)
    ensures
        r == parsed_datetime(s@, ':', ' '),
{
    parse_datetime(s, ':', ' ')
}

/// Parses the timestamp text used by sidecar creation-date tags.
pub fn parse_xmp_datetime(s: &str) -> (r: Option<Timestamp>)
    ensures
        r == parsed_datetime(s@, '-', 'T'),
{
    parse_datetime(s, '-', 'T')
}

/// Equality of optional timestamps.
pub fn opt_ts_eq(a: &Option<Timestamp>, b: &Option<Timestamp>) -> (r: bool)
    ensures
        r == (a == b),
{
    match (a, b) {
        (Option::None, Option::None) => true,
        (Option::Some(x), Option::Some(y)) => *x == *y,
        _ => false,
    }
}

} // verus!
