//! Wall-clock timestamps for history entries: converts a count of
//! milliseconds since the Unix epoch into the civil calendar date and time of
//! day it names (proleptic Gregorian, UTC), and renders it as an ISO-8601
//! string, `YYYY-MM-DDTHH:MM:SS.mmmZ`.
//!
//! The conversion is proved exact by round trip: the civil fields returned
//! always re-encode — via the spec-level calendar arithmetic — to the very
//! milliseconds that were given.

use vstd::prelude::*;
use vstd::arithmetic::div_mod::lemma_fundamental_div_mod;
use vstd::arithmetic::div_mod::lemma_fundamental_div_mod_converse;

verus! {

pub const MILLIS_PER_SECOND: u64 = 1000;
pub const MILLIS_PER_MINUTE: u64 = 60000;
pub const MILLIS_PER_HOUR: u64 = 3600000;
pub const MILLIS_PER_DAY: u64 = 86400000;

/// Gregorian leap year rule.
pub open spec fn is_leap_spec(year: int) -> bool {
    year % 4 == 0 && (year % 100 != 0 || year % 400 == 0)
}

/// Days in a year: 366 in a leap year, 365 otherwise.
pub open spec fn year_length(year: int) -> int {
    if is_leap_spec(year) {
        366
    } else {
        365
    }
}

/// Days in a month of a year (months count from 1).
pub open spec fn month_length(year: int, month: int) -> int {
    if month == 2 {
        if is_leap_spec(year) {
            29
        } else {
            28
        }
    } else if month == 4 || month == 6 || month == 9 || month == 11 {
        30
    } else {
        31
    }
}

/// Days between the epoch (1970-01-01) and the first day of `year`.
pub open spec fn days_before_year(year: int) -> int
    decreases year,
{
    if year <= 1970 {
        0
    } else {
        days_before_year(year - 1) + year_length(year - 1)
    }
}

/// Days between the first of `year` and the first day of its month `month`.
pub open spec fn days_before_month(year: int, month: int) -> int
    decreases month,
{
    if month <= 1 {
        0
    } else {
        days_before_month(year, month - 1) + month_length(year, month - 1)
    }
}

/// The day number (days since the epoch) of the civil date `year-month-day`.
pub open spec fn days_from_civil(year: int, month: int, day: int) -> int {
    days_before_year(year) + days_before_month(year, month) + day - 1
}

/// A civil date and time of day, UTC.
#[derive(Clone, Copy, PartialEq, Eq, Structural, Debug)]
pub struct CivilTime {
    pub year: u64,
    /// 1 to 12.
    pub month: u64,
    /// 1 to the month's length.
    pub day: u64,
    pub hour: u64,
    pub minute: u64,
    pub second: u64,
    pub milli: u64,
}

impl CivilTime {
    /// The fields name a real calendar date and time of day at or after the
    /// epoch.
    pub open spec fn is_valid(self) -> bool {
        &&& 1970 <= self.year
        &&& 1 <= self.month <= 12
        &&& 1 <= self.day <= month_length(self.year as int, self.month as int)
        &&& self.hour < 24
        &&& self.minute < 60
        &&& self.second < 60
        &&& self.milli < 1000
    }

    /// The milliseconds since the epoch that these fields name.
    pub open spec fn to_millis_spec(self) -> int {
        days_from_civil(self.year as int, self.month as int, self.day as int) * (
        MILLIS_PER_DAY as int) + self.hour * MILLIS_PER_HOUR + self.minute * MILLIS_PER_MINUTE
            + self.second * MILLIS_PER_SECOND + self.milli
    }
}

/// The leap year rule, as executable code.
pub fn is_leap(year: u64) -> (r: bool)
    ensures
        r == is_leap_spec(year as int),
{
    year % 4 == 0 && (year % 100 != 0 || year % 400 == 0)
}

/// Days in `year`, as executable code.
fn year_length_of(year: u64) -> (r: u64)
    ensures
        r == year_length(year as int),
{
    if is_leap(year) {
        366
    } else {
        365
    }
}

/// Days in `month` of `year`, as executable code.
fn month_length_of(year: u64, month: u64) -> (r: u64)
    ensures
        r == month_length(year as int, month as int),
{
    if month == 2 {
        if is_leap(year) {
            29
        } else {
            28
        }
    } else if month == 4 || month == 6 || month == 9 || month == 11 {
        30
    } else {
        31
    }
}

/// `days_before_year` never counts less than 365 days per elapsed year.
proof fn lemma_days_before_year_lower(year: int)
    requires
        year >= 1970,
    ensures
        days_before_year(year) >= 365 * (year - 1970),
    decreases year,
{
    if year > 1970 {
        lemma_days_before_year_lower(year - 1);
    }
}

/// The months of a year account for exactly its days.
proof fn lemma_months_cover_year(year: int)
    ensures
        days_before_month(year, 13) == year_length(year),
{
    assert(days_before_month(year, 1) == 0);
    assert(days_before_month(year, 2) == 31);
    assert(days_before_month(year, 3) == 31 + month_length(year, 2));
    assert(days_before_month(year, 4) == 62 + month_length(year, 2));
    assert(days_before_month(year, 5) == 92 + month_length(year, 2));
    assert(days_before_month(year, 6) == 123 + month_length(year, 2));
    assert(days_before_month(year, 7) == 153 + month_length(year, 2));
    assert(days_before_month(year, 8) == 184 + month_length(year, 2));
    assert(days_before_month(year, 9) == 215 + month_length(year, 2));
    assert(days_before_month(year, 10) == 245 + month_length(year, 2));
    assert(days_before_month(year, 11) == 276 + month_length(year, 2));
    assert(days_before_month(year, 12) == 306 + month_length(year, 2));
    assert(days_before_month(year, 13) == 337 + month_length(year, 2));
}

/// `days_before_year` never shrinks as years pass.
proof fn lemma_days_before_year_mono(y1: int, y2: int)
    requires
        y1 <= y2,
    ensures
        days_before_year(y1) <= days_before_year(y2),
    decreases y2 - y1,
{
    if y1 < y2 {
        lemma_days_before_year_mono(y1, y2 - 1);
    }
}

/// `days_before_month` never shrinks as months pass.
proof fn lemma_days_before_month_mono(year: int, m1: int, m2: int)
    requires
        m1 <= m2,
    ensures
        days_before_month(year, m1) <= days_before_month(year, m2),
    decreases m2 - m1,
{
    if m1 < m2 {
        lemma_days_before_month_mono(year, m1, m2 - 1);
    }
}

/// A valid date's offset into its year stays under the year's length.
proof fn lemma_day_of_year_bound(c: CivilTime)
    requires
        c.is_valid(),
    ensures
        0 <= days_before_month(c.year as int, c.month as int) + c.day - 1 < year_length(
            c.year as int,
        ),
{
    let y = c.year as int;
    let m = c.month as int;
    lemma_months_cover_year(y);
    lemma_days_before_month_mono(y, 1, m);
    lemma_days_before_month_mono(y, m + 1, 13);
    assert(days_before_month(y, m + 1) == days_before_month(y, m) + month_length(y, m));
}

/// The encoding into milliseconds is injective on valid civil times: two
/// valid civil times that name the same instant are field-for-field the same.
/// Together with `civil_of_millis`'s contract this pins its result down
/// completely — the returned fields are the one valid decomposition of the
/// given milliseconds.
pub proof fn lemma_civil_unique(a: CivilTime, b: CivilTime)
    requires
        a.is_valid(),
        b.is_valid(),
        a.to_millis_spec() == b.to_millis_spec(),
    ensures
        a == b,
{
    let day_a = days_from_civil(a.year as int, a.month as int, a.day as int);
    let day_b = days_from_civil(b.year as int, b.month as int, b.day as int);
    let tod_a = a.hour * MILLIS_PER_HOUR + a.minute * MILLIS_PER_MINUTE + a.second
        * MILLIS_PER_SECOND + a.milli;
    let tod_b = b.hour * MILLIS_PER_HOUR + b.minute * MILLIS_PER_MINUTE + b.second
        * MILLIS_PER_SECOND + b.milli;
    lemma_day_of_year_bound(a);
    lemma_day_of_year_bound(b);

    // The day numbers and times of day agree: both sides decompose one
    // value by the length of a day.
    let x = a.to_millis_spec();
    lemma_fundamental_div_mod_converse(x, MILLIS_PER_DAY as int, day_a, tod_a as int);
    lemma_fundamental_div_mod_converse(x, MILLIS_PER_DAY as int, day_b, tod_b as int);

    // Equal day numbers force equal years: a later year starts past every
    // day of an earlier one.
    if a.year < b.year {
        lemma_days_before_year_mono(a.year as int + 1, b.year as int);
        assert(false);
    }
    if b.year < a.year {
        lemma_days_before_year_mono(b.year as int + 1, a.year as int);
        assert(false);
    }

    // Within one year, equal day offsets force equal months, then equal days.
    if a.month < b.month {
        lemma_days_before_month_mono(a.year as int, a.month as int + 1, b.month as int);
        assert(false);
    }
    if b.month < a.month {
        lemma_days_before_month_mono(a.year as int, b.month as int + 1, a.month as int);
        assert(false);
    }

    // Equal times of day split identically into hours, minutes, seconds and
    // milliseconds.
    let rest_a = a.minute * MILLIS_PER_MINUTE + a.second * MILLIS_PER_SECOND + a.milli;
    let rest_b = b.minute * MILLIS_PER_MINUTE + b.second * MILLIS_PER_SECOND + b.milli;
    lemma_fundamental_div_mod_converse(
        tod_a as int,
        MILLIS_PER_HOUR as int,
        a.hour as int,
        rest_a as int,
    );
    lemma_fundamental_div_mod_converse(
        tod_b as int,
        MILLIS_PER_HOUR as int,
        b.hour as int,
        rest_b as int,
    );
    let tail_a = a.second * MILLIS_PER_SECOND + a.milli;
    let tail_b = b.second * MILLIS_PER_SECOND + b.milli;
    lemma_fundamental_div_mod_converse(
        rest_a as int,
        MILLIS_PER_MINUTE as int,
        a.minute as int,
        tail_a as int,
    );
    lemma_fundamental_div_mod_converse(
        rest_b as int,
        MILLIS_PER_MINUTE as int,
        b.minute as int,
        tail_b as int,
    );
    lemma_fundamental_div_mod_converse(
        tail_a as int,
        MILLIS_PER_SECOND as int,
        a.second as int,
        a.milli as int,
    );
    lemma_fundamental_div_mod_converse(
        tail_b as int,
        MILLIS_PER_SECOND as int,
        b.second as int,
        b.milli as int,
    );
}

/// Splits a count of milliseconds since the epoch into the civil date and
/// time of day it names. Exact: the returned fields are a real calendar date
/// and re-encode to the given milliseconds, and by `lemma_civil_unique` they
/// are the only valid fields that do.
pub fn civil_of_millis(millis: u64) -> (r: CivilTime)
    ensures
        r.is_valid(),
        r.to_millis_spec() == millis,
{
    let days: u64 = millis / MILLIS_PER_DAY;
    let mut rem: u64 = millis % MILLIS_PER_DAY;
    proof {
        lemma_fundamental_div_mod(millis as int, MILLIS_PER_DAY as int);
    }
    let hour: u64 = rem / MILLIS_PER_HOUR;
    proof {
        lemma_fundamental_div_mod(rem as int, MILLIS_PER_HOUR as int);
    }
    rem = rem % MILLIS_PER_HOUR;
    let minute: u64 = rem / MILLIS_PER_MINUTE;
    proof {
        lemma_fundamental_div_mod(rem as int, MILLIS_PER_MINUTE as int);
    }
    rem = rem % MILLIS_PER_MINUTE;
    let second: u64 = rem / MILLIS_PER_SECOND;
    proof {
        lemma_fundamental_div_mod(rem as int, MILLIS_PER_SECOND as int);
    }
    let milli: u64 = rem % MILLIS_PER_SECOND;

    let mut year: u64 = 1970;
    let mut day_rem: u64 = days;
    while day_rem >= year_length_of(year)
        invariant
            1970 <= year,
            days_before_year(year as int) + day_rem == days,
        decreases day_rem,
    {
        proof {
            lemma_days_before_year_lower(year as int);
        }
        day_rem = day_rem - year_length_of(year);
        year = year + 1;
    }
    let mut month: u64 = 1;
    while day_rem >= month_length_of(year, month)
        invariant
            1970 <= year,
            1 <= month <= 12,
            days_before_year(year as int) + days_before_month(year as int, month as int) + day_rem
                == days,
            day_rem < year_length(year as int) - days_before_month(year as int, month as int),
        decreases 12 - month,
    {
        proof {
            lemma_months_cover_year(year as int);
        }
        day_rem = day_rem - month_length_of(year, month);
        month = month + 1;
    }
    let day: u64 = day_rem + 1;
    CivilTime { year, month, day, hour, minute, second, milli }
}

/// The character for one decimal digit.
pub open spec fn digit(n: int) -> char {
    ((48 + n) as char)
}

/// A number under 100 as two decimal digits.
pub open spec fn two_digits(n: int) -> Seq<char> {
    seq![digit(n / 10), digit(n % 10)]
}

/// A number under 1000 as three decimal digits.
pub open spec fn three_digits(n: int) -> Seq<char> {
    seq![digit(n / 100), digit((n / 10) % 10), digit(n % 10)]
}

/// A number under 10000 as four decimal digits.
pub open spec fn four_digits(n: int) -> Seq<char> {
    seq![digit(n / 1000), digit((n / 100) % 10), digit((n / 10) % 10), digit(n % 10)]
}

impl CivilTime {
    /// The ISO-8601 rendering of this civil time, `YYYY-MM-DDTHH:MM:SS.mmmZ`.
    pub open spec fn render_spec(self) -> Seq<char> {
        four_digits(self.year as int) + seq!['-'] + two_digits(self.month as int) + seq!['-']
            + two_digits(self.day as int) + seq!['T'] + two_digits(self.hour as int) + seq![':']
            + two_digits(self.minute as int) + seq![':'] + two_digits(self.second as int)
            + seq!['.'] + three_digits(self.milli as int) + seq!['Z']
    }

    /// Renders this civil time as its ISO-8601 string. The four-digit year
    /// field caps the rendering at the year 9999.
    #[verifier::rlimit(60)]
    pub fn render(&self) -> (r: String)
        requires
            self.is_valid(),
            self.year <= 9999,
        ensures
            r@ == self.render_spec(),
    {
        let mut s = String::new();
        push_two_digits(&mut s, self.year / 100);
        push_two_digits(&mut s, self.year % 100);
        s.push('-');
        push_two_digits(&mut s, self.month);
        s.push('-');
        push_two_digits(&mut s, self.day);
        s.push('T');
        push_two_digits(&mut s, self.hour);
        s.push(':');
        push_two_digits(&mut s, self.minute);
        s.push(':');
        push_two_digits(&mut s, self.second);
        s.push('.');
        let m = self.milli;
        s.push(digit_char(m / 100));
        push_two_digits(&mut s, m % 100);
        s.push('Z');
        proof {
            lemma_fundamental_div_mod(self.year as int, 100);
            lemma_fundamental_div_mod(self.milli as int, 100);
            assert(two_digits(self.year as int / 100) + two_digits(self.year as int % 100)
                =~= four_digits(self.year as int));
            assert(seq![digit(self.milli as int / 100)] + two_digits(self.milli as int % 100)
                =~= three_digits(self.milli as int));
            assert(s@ =~= self.render_spec());
        }
        s
    }
}

/// The character for one decimal digit, as executable code.
fn digit_char(n: u64) -> (r: char)
    requires
        n < 10,
    ensures
        r == digit(n as int),
{
    match n {
        0 => '0',
        1 => '1',
        2 => '2',
        3 => '3',
        4 => '4',
        5 => '5',
        6 => '6',
        7 => '7',
        8 => '8',
        _ => '9',
    }
}

/// Appends a number under 100 as two decimal digits.
fn push_two_digits(s: &mut String, n: u64)
    requires
        n < 100,
    ensures
        final(s)@ == old(s)@ + two_digits(n as int),
{
    s.push(digit_char(n / 10));
    s.push(digit_char(n % 10));
    proof {
        assert(final(s)@ =~= old(s)@ + two_digits(n as int));
    }
}

} // verus!
