//! Timestamps: a count of seconds since the Unix epoch as a civil UTC time
//! and as its RFC 3339 text (`YYYY-MM-DDTHH:MM:SSZ`).
use vstd::prelude::*;
use crate::model_api::{decimal, u64_text};
use crate::text::{chars_of, concat_vec, string_of};

verus! {

/// Leap years of the proleptic Gregorian calendar.
pub open spec fn is_leap_year(y: int) -> bool {
    (y % 4 == 0 && y % 100 != 0) || y % 400 == 0
}

/// The number of days in year `y`.
pub open spec fn year_length(y: int) -> int {
    if is_leap_year(y) {
        366
    } else {
        365
    }
}

/// The number of days in month `m` (1 to 12) of year `y`.
pub open spec fn month_length(y: int, m: int) -> int {
    if m == 2 {
        if is_leap_year(y) {
            29
        } else {
            28
        }
    } else if m == 4 || m == 6 || m == 9 || m == 11 {
        30
    } else {
        31
    }
}

/// The days from 1970-01-01 to the first day of year `y` (from 1970 on).
pub open spec fn days_before_year(y: int) -> int
    decreases y - 1970,
{
    if y <= 1970 {
        0
    } else {
        days_before_year(y - 1) + year_length(y - 1)
    }
}

/// The days from the first day of year `y` to the first day of month `m`.
pub open spec fn days_before_month(y: int, m: int) -> int
    decreases m,
{
    if m <= 1 {
        0
    } else {
        days_before_month(y, m - 1) + month_length(y, m - 1)
    }
}

/// A moment as a UTC calendar date and time of day.
#[derive(Debug, Clone, Copy, PartialEq, Eq, Structural)]
pub struct CivilTime {
    pub year: u64,
    pub month: u64,
    pub day: u64,
    pub hour: u64,
    pub minute: u64,
    pub second: u64,
}

impl CivilTime {
    /// A real date from 1970 on, and a time of day without leap seconds.
    pub open spec fn is_valid(self) -> bool {
        &&& self.year >= 1970
        &&& 1 <= self.month <= 12
        &&& 1 <= self.day <= month_length(self.year as int, self.month as int)
        &&& self.hour < 24
        &&& self.minute < 60
        &&& self.second < 60
    }

    /// The seconds from the Unix epoch to this moment.
    pub open spec fn epoch_seconds(self) -> int {
        (days_before_year(self.year as int) + days_before_month(self.year as int, self.month as int)
            + self.day - 1) * 86400 + self.hour * 3600 + self.minute * 60 + self.second
    }

    /// The RFC 3339 text of this moment, each field zero-padded as
    /// `{:04}` / `{:02}` format it.
    pub open spec fn rfc3339(self) -> Seq<char> {
        padded(self.year as nat, 4) + seq!['-'] + padded(self.month as nat, 2) + seq!['-']
            + padded(self.day as nat, 2) + seq!['T'] + padded(self.hour as nat, 2) + seq![':']
            + padded(self.minute as nat, 2) + seq![':'] + padded(self.second as nat, 2) + seq!['Z']
    }

    /// The RFC 3339 text of this moment.
    pub fn to_rfc3339(&self) -> (s: String)
        ensures
            s@ == self.rfc3339(),
    {
        let mut out: Vec<char> = padded_chars(self.year, 4);
        out.push('-');
        out = concat_vec(&out, &padded_chars(self.month, 2));
        out.push('-');
        out = concat_vec(&out, &padded_chars(self.day, 2));
        out.push('T');
        out = concat_vec(&out, &padded_chars(self.hour, 2));
        out.push(':');
        out = concat_vec(&out, &padded_chars(self.minute, 2));
        out.push(':');
        out = concat_vec(&out, &padded_chars(self.second, 2));
        out.push('Z');
        proof {
            assert(out@ =~= self.rfc3339());
        }
        string_of(&out)
    }
}

/// The decimal digits of `n`, with zeros in front up to `width` characters.
pub open spec fn padded(n: nat, width: nat) -> Seq<char> {
    let d = decimal(n);
    if d.len() >= width {
        d
    } else {
        Seq::new((width - d.len()) as nat, |i: int| '0') + d
    }
}

fn padded_chars(n: u64, width: usize) -> (r: Vec<char>)
    ensures
        r@ == padded(n as nat, width as nat),
{
    let text = u64_text(n);
    let digits = chars_of(text.as_str());
    if digits.len() >= width {
        return digits;
    }
    let fill: usize = width - digits.len();
    let mut zeros: Vec<char> = Vec::new();
    let mut i: usize = 0;
    while i < fill
        invariant
            i <= fill,
            zeros@ == Seq::new(i as nat, |k: int| '0'),
        decreases fill - i,
    {
        zeros.push('0');
        i = i + 1;
        proof {
            assert(zeros@ =~= Seq::new(i as nat, |k: int| '0'));
        }
    }
    concat_vec(&zeros, &digits)
}

fn year_length_of(y: u64) -> (n: u64)
    ensures
        n == year_length(y as int),
{
    if (y % 4 == 0 && y % 100 != 0) || y % 400 == 0 {
        366
    } else {
        365
    }
}

fn month_length_of(y: u64, m: u64) -> (n: u64)
    ensures
        n == month_length(y as int, m as int),
{
    if m == 2 {
        if (y % 4 == 0 && y % 100 != 0) || y % 400 == 0 {
            29
        } else {
            28
        }
    } else if m == 4 || m == 6 || m == 9 || m == 11 {
        30
    } else {
        31
    }
}

proof fn lemma_months_fill_year(y: int)
    ensures
        days_before_month(y, 12) + month_length(y, 12) == year_length(y),
{
    reveal_with_fuel(days_before_month, 13);
}

proof fn lemma_month_lengths_positive(y: int, m: int)
    ensures
        month_length(y, m) >= 28,
{
}

proof fn lemma_years_increase(a: int, b: int)
    requires
        1970 <= a < b,
    ensures
        days_before_year(b) >= days_before_year(a) + year_length(a),
    decreases b - a,
{
    if b > a + 1 {
        lemma_years_increase(a, b - 1);
    }
}

proof fn lemma_months_increase(y: int, a: int, b: int)
    requires
        1 <= a < b,
    ensures
        days_before_month(y, b) >= days_before_month(y, a) + month_length(y, a),
    decreases b - a,
{
    if b > a + 1 {
        lemma_months_increase(y, a, b - 1);
        lemma_month_lengths_positive(y, b - 1);
    }
}

proof fn lemma_month_within_year(y: int, m: int)
    requires
        1 <= m <= 12,
    ensures
        0 <= days_before_month(y, m),
        days_before_month(y, m) + month_length(y, m) <= year_length(y),
{
    lemma_months_fill_year(y);
    if m < 12 {
        lemma_months_increase(y, m, 12);
    }
    if m > 1 {
        lemma_months_increase(y, 1, m);
    }
}

/// The day count of a valid civil time, from 1970-01-01.
spec fn day_count(t: CivilTime) -> int {
    days_before_year(t.year as int) + days_before_month(t.year as int, t.month as int) + t.day - 1
}

proof fn lemma_day_count_unique(a: CivilTime, b: CivilTime)
    requires
        a.is_valid(),
        b.is_valid(),
        day_count(a) == day_count(b),
    ensures
        a.year == b.year,
        a.month == b.month,
        a.day == b.day,
{
    lemma_month_within_year(a.year as int, a.month as int);
    lemma_month_within_year(b.year as int, b.month as int);
    if a.year < b.year {
        lemma_years_increase(a.year as int, b.year as int);
    } else if b.year < a.year {
        lemma_years_increase(b.year as int, a.year as int);
    }
    assert(a.year == b.year);
    if a.month < b.month {
        lemma_months_increase(a.year as int, a.month as int, b.month as int);
    } else if b.month < a.month {
        lemma_months_increase(a.year as int, b.month as int, a.month as int);
    }
}

/// A moment has one civil time: two valid civil times with the same count
/// of seconds since the epoch are the same, so the civil time (and the
/// RFC 3339 text) of a moment is determined by it.
pub proof fn law_civil_time_is_unique(a: CivilTime, b: CivilTime)
    requires
        a.is_valid(),
        b.is_valid(),
        a.epoch_seconds() == b.epoch_seconds(),
    ensures
        a == b,
{
    let ta = a.hour * 3600 + a.minute * 60 + a.second;
    let tb = b.hour * 3600 + b.minute * 60 + b.second;
    assert(a.epoch_seconds() == day_count(a) * 86400 + ta);
    assert(b.epoch_seconds() == day_count(b) * 86400 + tb);
    if day_count(a) < day_count(b) {
        assert(day_count(a) * 86400 + 86400 <= day_count(b) * 86400);
    } else if day_count(b) < day_count(a) {
        assert(day_count(b) * 86400 + 86400 <= day_count(a) * 86400);
    }
    assert(day_count(a) == day_count(b));
    lemma_day_count_unique(a, b);
    assert(ta == tb);
    if a.hour < b.hour {
        assert(a.hour * 3600 + 3600 <= b.hour * 3600);
    } else if b.hour < a.hour {
        assert(b.hour * 3600 + 3600 <= a.hour * 3600);
    }
    assert(a.hour == b.hour);
}

/// The civil UTC time `secs` seconds after the Unix epoch.
pub fn civil_time(secs: u64) -> (t: CivilTime)
    ensures
        t.is_valid(),
        t.epoch_seconds() == secs,
{
    let total_days: u64 = secs / 86400;
    let rem: u64 = secs % 86400;
    let mut days: u64 = total_days;
    let mut year: u64 = 1970;
    while days >= year_length_of(year)
        invariant
            year >= 1970,
            days <= total_days,
            year - 1970 + days <= total_days,
            total_days == secs / 86400,
            days_before_year(year as int) + days == total_days,
        decreases days,
    {
        days = days - year_length_of(year);
        year = year + 1;
    }
    let ghost year_days = days;
    let mut month: u64 = 1;
    while days >= month_length_of(year, month)
        invariant
            1 <= month <= 12,
            year >= 1970,
            days_before_month(year as int, month as int) + days == year_days,
            year_days < year_length(year as int),
        decreases days,
    {
        proof {
            if month == 12 {
                lemma_months_fill_year(year as int);
            }
        }
        days = days - month_length_of(year, month);
        month = month + 1;
        proof {
            lemma_month_lengths_positive(year as int, month as int);
        }
    }
    let t = CivilTime {
        year,
        month,
        day: days + 1,
        hour: rem / 3600,
        minute: (rem % 3600) / 60,
        second: rem % 60,
    };
    assert(secs == total_days * 86400 + rem);
    assert(rem == (rem / 3600) * 3600 + ((rem % 3600) / 60) * 60 + rem % 60);
    t
}

/// The RFC 3339 UTC timestamp of the moment `secs` seconds after the Unix
/// epoch.
pub fn rfc3339_from_epoch(secs: u64) -> (s: String)
    ensures
        exists|t: CivilTime| t.is_valid() && t.epoch_seconds() == secs && s@ == t.rfc3339(),
{
    let t = civil_time(secs);
    t.to_rfc3339()
}

} // verus!
