use vstd::prelude::*;

verus! {

/// A capture date-time read from embedded metadata, as plain calendar
/// fields. Produced only by parsing the exact `YYYY-MM-DD HH:MM:SS` form,
/// so a parsed value always satisfies `wf`.
#[derive(Clone, Copy, PartialEq, Eq, Structural, Debug)]
pub struct CaptureTimestamp {
    pub year: u32,
    pub month: u32,
    pub day: u32,
    pub hour: u32,
    pub minute: u32,
    pub second: u32,
}

/// Gregorian leap-year rule.
pub open spec fn spec_is_leap_year(y: int) -> bool {
    y % 4 == 0 && (y % 100 != 0 || y % 400 == 0)
}

/// Number of days of month `m` of year `y`.
pub open spec fn spec_days_in_month(y: int, m: int) -> int {
    if m == 2 {
        if spec_is_leap_year(y) {
            29
        } else {
            28
        }
    } else if m == 4 || m == 6 || m == 9 || m == 11 {
        30
    } else {
        31
    }
}

impl CaptureTimestamp {
    /// A well-formed calendar date-time: in-range month, day, hour, minute
    /// and second, with a four-digit year.
    pub open spec fn wf(self) -> bool {
        &&& self.year <= 9999
        &&& 1 <= self.month <= 12
        &&& 1 <= self.day <= spec_days_in_month(self.year as int, self.month as int)
        &&& self.hour <= 23
        &&& self.minute <= 59
        &&& self.second <= 59
    }
}

/// Whether `c` is an ASCII decimal digit.
pub open spec fn is_digit(c: char) -> bool {
    48 <= c as int <= 57
}

/// Numeric value of an ASCII decimal digit.
pub open spec fn digit_val(c: char) -> int {
    c as int - 48
}

/// The two-digit number at positions `i`, `i + 1` of `s`.
pub open spec fn two_digit_val(s: Seq<char>, i: int) -> int {
    digit_val(s[i]) * 10 + digit_val(s[i + 1])
}

/// The four-digit number at positions `i` .. `i + 3` of `s`.
pub open spec fn four_digit_val(s: Seq<char>, i: int) -> int {
    digit_val(s[i]) * 1000 + digit_val(s[i + 1]) * 100 + digit_val(s[i + 2]) * 10 + digit_val(
        s[i + 3],
    )
}

/// Whether `s` has the exact shape `YYYY-MM-DD HH:MM:SS`: nineteen
/// characters, digits and separators in fixed positions.
pub open spec fn well_shaped(s: Seq<char>) -> bool {
    &&& s.len() == 19
    &&& is_digit(s[0]) && is_digit(s[1]) && is_digit(s[2]) && is_digit(s[3])
    &&& s[4] == '-'
    &&& is_digit(s[5]) && is_digit(s[6])
    &&& s[7] == '-'
    &&& is_digit(s[8]) && is_digit(s[9])
    &&& s[10] == ' '
    &&& is_digit(s[11]) && is_digit(s[12])
    &&& s[13] == ':'
    &&& is_digit(s[14]) && is_digit(s[15])
    &&& s[16] == ':'
    &&& is_digit(s[17]) && is_digit(s[18])
}

/// Whether the fields of a well-shaped string form a valid calendar
/// date-time.
pub open spec fn fields_valid(s: Seq<char>) -> bool {
    let y = four_digit_val(s, 0);
    let m = two_digit_val(s, 5);
    let d = two_digit_val(s, 8);
    let h = two_digit_val(s, 11);
    let mi = two_digit_val(s, 14);
    let se = two_digit_val(s, 17);
    &&& 1 <= m <= 12
    &&& 1 <= d <= spec_days_in_month(y, m)
    &&& h <= 23
    &&& mi <= 59
    &&& se <= 59
}

/// The timestamp denoted by a parsable string, or `None` when the string
/// is not of the exact `YYYY-MM-DD HH:MM:SS` shape or its fields are not
/// a valid calendar date-time.
pub open spec fn spec_parse(s: Seq<char>) -> Option<CaptureTimestamp> {
    if well_shaped(s) && fields_valid(s) {
        Some(
            CaptureTimestamp {
                year: four_digit_val(s, 0) as u32,
                month: two_digit_val(s, 5) as u32,
                day: two_digit_val(s, 8) as u32,
                hour: two_digit_val(s, 11) as u32,
                minute: two_digit_val(s, 14) as u32,
                second: two_digit_val(s, 17) as u32,
            },
        )
    } else {
        None
    }
}

/// Leap-year test.
pub fn is_leap_year(y: u32) -> (r: bool)
    ensures
        r == spec_is_leap_year(y as int),
{
    y % 4 == 0 && (y % 100 != 0 || y % 400 == 0)
}

/// Number of days of month `m` of year `y`.
pub fn days_in_month(y: u32, m: u32) -> (r: u32)
    ensures
        r == spec_days_in_month(y as int, m as int),
{
    if m == 2 {
        if is_leap_year(y) {
            29
        } else {
            28
        }
    } else if m == 4 || m == 6 || m == 9 || m == 11 {
        30
    } else {
        31
    }
}

/// Numeric value of a digit character.
fn digit_of(c: char) -> (r: Option<u32>)
    ensures
        (match r {
            Some(v) => is_digit(c) && v == digit_val(c),
            None => !is_digit(c),
        }),
{
    let v = c as u32;
    if 48 <= v && v <= 57 {
        Some(v - 48)
    } else {
        None
    }
}

/// The two-digit number at positions `i`, `i + 1`, or `None` when a
/// character there is not a digit.
fn two_digits_at(s: &str, i: usize) -> (r: Option<u32>)
    requires
        i + 1 < s@.len(),
        s@.len() <= usize::MAX,
    ensures
        (match r {
            Some(v) => is_digit(s@[i as int]) && is_digit(s@[i + 1]) && v == two_digit_val(
                s@,
                i as int,
            ),
            None => !(is_digit(s@[i as int]) && is_digit(s@[i + 1])),
        }),
{
    let d0 = digit_of(s.get_char(i));
    let d1 = digit_of(s.get_char(i + 1));
    match (d0, d1) {
        (Some(a), Some(b)) => Some(a * 10 + b),
        _ => None,
    }
}

/// Parses a capture timestamp from the exact format `YYYY-MM-DD HH:MM:SS`,
/// returning `None` on any malformed shape or out-of-range calendar field.
pub fn parse_capture_timestamp(s: &str) -> (r: Option<CaptureTimestamp>)
    ensures
        r == spec_parse(s@),
        r matches Some(t) ==> t.wf(),
{
    let n = s.unicode_len();
    if n != 19 {
        return None;
    }
    if s.get_char(4) != '-' || s.get_char(7) != '-' || s.get_char(10) != ' ' || s.get_char(13)
        != ':' || s.get_char(16) != ':' {
        return None;
    }
    let hi = two_digits_at(s, 0);
    let lo = two_digits_at(s, 2);
    let mo = two_digits_at(s, 5);
    let da = two_digits_at(s, 8);
    let ho = two_digits_at(s, 11);
    let mi = two_digits_at(s, 14);
    let se = two_digits_at(s, 17);
    match (hi, lo, mo, da, ho, mi, se) {
        (Some(yh), Some(yl), Some(m), Some(d), Some(h), Some(min), Some(sec)) => {
            let y = yh * 100 + yl;
            assert(y == four_digit_val(s@, 0));
            if 1 <= m && m <= 12 && 1 <= d && d <= days_in_month(y, m) && h <= 23 && min <= 59
                && sec <= 59 {
                Some(
                    CaptureTimestamp {
                        year: y,
                        month: m,
                        day: d,
                        hour: h,
                        minute: min,
                        second: sec,
                    },
                )
            } else {
                None
            }
        },
        _ => None,
    }
}

} // verus!
