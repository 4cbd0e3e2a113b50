//! RFC 3339 timestamps in UTC: what counts as one, and the current instant.

use crate::text::is_digit;
use vstd::prelude::*;

verus! {

/// The number that the two digits at `s[at]` and `s[at + 1]` spell.
pub open spec fn two_digits(s: Seq<char>, at: int) -> int {
    10 * (s[at] as u32 as int - 48) + (s[at + 1] as u32 as int - 48)
}

/// The number that the four digits from `s[at]` on spell.
pub open spec fn four_digits(s: Seq<char>, at: int) -> int {
    100 * two_digits(s, at) + two_digits(s, at + 2)
}

/// Whether `year` has a 29th of February in the Gregorian calendar.
pub open spec fn is_leap_year(year: int) -> bool {
    year % 4 == 0 && (year % 100 != 0 || year % 400 == 0)
}

/// The number of days of `month` (1 to 12) in `year`.
pub open spec fn days_in_month(year: int, month: int) -> int {
    if month == 2 {
        if is_leap_year(year) { 29 } else { 28 }
    } else if month == 4 || month == 6 || month == 9 || month == 11 {
        30
    } else {
        31
    }
}

/// How many digits `s` starts with.
pub open spec fn leading_digits(s: Seq<char>) -> nat
    decreases s.len(),
{
    if s.len() > 0 && is_digit(s.first()) {
        1 + leading_digits(s.drop_first())
    } else {
        0
    }
}

/// Whether `s` names the offset zero: `Z`, `z` or `+00:00`.
pub open spec fn is_utc_offset(s: Seq<char>) -> bool {
    s == seq!['Z'] || s == seq!['z'] || s == seq!['+', '0', '0', ':', '0', '0']
}

/// Whether `s` is what may follow the seconds: an optional fraction, which is
/// a dot and at least one digit, and then the offset zero.
pub open spec fn is_utc_tail(s: Seq<char>) -> bool {
    if s.len() > 0 && s.first() == '.' {
        let digits = leading_digits(s.drop_first());
        digits >= 1 && is_utc_offset(s.skip(1 + digits as int))
    } else {
        is_utc_offset(s)
    }
}

/// Whether the first nineteen characters of `s` have the shape
/// `dddd-dd-ddTdd:dd:dd`, with `t` accepted for `T`.
pub open spec fn has_date_time_shape(s: Seq<char>) -> bool {
    &&& s.len() >= 19
    &&& is_digit(s[0]) && is_digit(s[1]) && is_digit(s[2]) && is_digit(s[3])
    &&& s[4] == '-'
    &&& is_digit(s[5]) && is_digit(s[6])
    &&& s[7] == '-'
    &&& is_digit(s[8]) && is_digit(s[9])
    &&& (s[10] == 'T' || s[10] == 't')
    &&& is_digit(s[11]) && is_digit(s[12])
    &&& s[13] == ':'
    &&& is_digit(s[14]) && is_digit(s[15])
    &&& s[16] == ':'
    &&& is_digit(s[17]) && is_digit(s[18])
}

/// Whether the date and time that a well-shaped `s` spells exist: a month from
/// 1 to 12, a day of that month, an hour below 24, a minute below 60 and a
/// second up to 60, the leap second included.
pub open spec fn has_valid_fields(s: Seq<char>) -> bool {
    let year = four_digits(s, 0);
    let month = two_digits(s, 5);
    let day = two_digits(s, 8);
    &&& 1 <= month <= 12
    &&& 1 <= day <= days_in_month(year, month)
    &&& two_digits(s, 11) <= 23
    &&& two_digits(s, 14) <= 59
    &&& two_digits(s, 17) <= 60
}

/// Whether `s` is an RFC 3339 date-time whose offset is zero.
pub open spec fn is_rfc3339_utc(s: Seq<char>) -> bool {
    &&& has_date_time_shape(s)
    &&& has_valid_fields(s)
    &&& is_utc_tail(s.skip(19))
}

/// Executable form of [`is_digit`].
fn is_digit_char(c: char) -> (r: bool)
    ensures
        r == is_digit(c),
{
    '0' <= c && c <= '9'
}

/// Reads the two digits at `chars[at]` and `chars[at + 1]`.
fn read_two_digits(chars: &[char], at: usize) -> (r: Option<u32>)
    requires
        at + 1 < chars@.len(),
    ensures
        r is Some <==> is_digit(chars@[at as int]) && is_digit(chars@[at + 1]),
        r is Some ==> r->0 == two_digits(chars@, at as int) && r->0 <= 99,
{
    let a: char = chars[at];
    let b: char = chars[at + 1];
    if is_digit_char(a) && is_digit_char(b) {
        Some(10 * (a as u32 - 48) + (b as u32 - 48))
    } else {
        None
    }
}

/// Executable form of [`days_in_month`].
fn month_length(year: u32, month: u32) -> (r: u32)
    ensures
        r == days_in_month(year as int, month as int),
{
    if month == 2 {
        if year % 4 == 0 && (year % 100 != 0 || year % 400 == 0) {
            29
        } else {
            28
        }
    } else if month == 4 || month == 6 || month == 9 || month == 11 {
        30
    } else {
        31
    }
}

/// Whether `chars[from..]` names the offset zero.
fn check_utc_offset(chars: &[char], from: usize) -> (r: bool)
    requires
        from <= chars@.len(),
    ensures
        r == is_utc_offset(chars@.skip(from as int)),
{
    let rest: usize = chars.len() - from;
    let ghost tail = chars@.skip(from as int);
    assert(tail.len() == rest);
    assert(seq!['Z'].len() == 1 && seq!['z'].len() == 1);
    assert(seq!['+', '0', '0', ':', '0', '0'].len() == 6);
    if rest == 1 {
        let r = chars[from] == 'Z' || chars[from] == 'z';
        assert(r ==> (tail =~= seq!['Z'] || tail =~= seq!['z']));
        assert(!r ==> tail[0] != 'Z' && tail[0] != 'z');
        r
    } else if rest == 6 {
        let r = chars[from] == '+' && chars[from + 1] == '0' && chars[from + 2] == '0' && chars[from
            + 3] == ':' && chars[from + 4] == '0' && chars[from + 5] == '0';
        assert(r ==> tail =~= seq!['+', '0', '0', ':', '0', '0']);
        assert(!r ==> (tail[0] != '+' || tail[1] != '0' || tail[2] != '0' || tail[3] != ':'
            || tail[4] != '0' || tail[5] != '0'));
        r
    } else {
        false
    }
}

/// Whether `chars[from..]` is an optional fraction followed by the offset zero.
fn check_utc_tail(chars: &[char], from: usize) -> (r: bool)
    requires
        from <= chars@.len(),
    ensures
        r == is_utc_tail(chars@.skip(from as int)),
{
    let n: usize = chars.len();
    let ghost tail = chars@.skip(from as int);
    if from < n && chars[from] == '.' {
        let ghost frac = tail.drop_first();
        assert(frac =~= chars@.skip(from + 1));
        let mut i: usize = from + 1;
        assert(frac.skip(0) =~= frac);
        while i < n && is_digit_char(chars[i])
            invariant
                from < i <= n == chars@.len(),
                frac == chars@.skip(from + 1),
                leading_digits(frac) == (i - from - 1) + leading_digits(
                    frac.skip(i - from - 1),
                ),
            decreases n - i,
        {
            assert(frac.skip(i - from - 1).drop_first() =~= frac.skip(i - from));
            i = i + 1;
        }
        assert(leading_digits(frac) == i - from - 1);
        assert(tail.skip(1 + leading_digits(frac) as int) =~= chars@.skip(i as int));
        if i == from + 1 {
            false
        } else {
            check_utc_offset(chars, i)
        }
    } else {
        check_utc_offset(chars, from)
    }
}

/// Whether `text` is an RFC 3339 date-time whose offset is zero.
pub fn is_rfc3339_utc_text(text: &str) -> (r: bool)
    ensures
        r == is_rfc3339_utc(text@),
{
    let owned = crate::text::to_chars(text);
    let chars = owned.as_slice();
    if chars.len() < 19 {
        return false;
    }
    if chars[4] != '-' || chars[7] != '-' || (chars[10] != 'T' && chars[10] != 't') || chars[13]
        != ':' || chars[16] != ':' {
        return false;
    }
    let century = read_two_digits(chars, 0);
    let years = read_two_digits(chars, 2);
    let month = read_two_digits(chars, 5);
    let day = read_two_digits(chars, 8);
    let hour = read_two_digits(chars, 11);
    let minute = read_two_digits(chars, 14);
    let second = read_two_digits(chars, 17);
    match (century, years, month, day, hour, minute, second) {
        (Some(c), Some(y), Some(mo), Some(d), Some(h), Some(mi), Some(s)) => {
            let year: u32 = 100 * c + y;
            if mo < 1 || mo > 12 || d < 1 || d > month_length(year, mo) || h > 23 || mi > 59 || s
                > 60 {
                return false;
            }
            check_utc_tail(chars, 19)
        },
        _ => false,
    }
}

/// Calls `chrono::Utc::now` and renders the instant with
/// `DateTime::to_rfc3339`.
///
/// Nothing is promised of the text: it depends on the machine's clock, and
/// chrono writes a signed year of five digits or more once the clock is past
/// the year 9999. Callers test it with [`is_rfc3339_utc_text`]. Like chrono's
/// function, the call does not return if the clock is set before 1970.
#[verifier::external_body]
pub(crate) fn current_utc_timestamp() -> (text: String) {
    chrono::Utc::now().to_rfc3339()
}

} // verus!
