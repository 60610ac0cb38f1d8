//! Calendar [`Date`]: `YYYY-MM-DD`, no time, no zone. Invalid input fails closed.
use vstd::prelude::*;
use crate::dec::{digits, padded};
use crate::error::DateError;
use crate::text::{chars_of, string_from_chars, trim, trim_str, u64_digits};

verus! {

/// Gregorian leap year.
pub open spec fn leap(year: int) -> bool {
    year % 4 == 0 && (year % 100 != 0 || year % 400 == 0)
}

/// Number of days in a month (0 outside `1..=12`).
pub open spec fn month_days(year: int, month: int) -> int {
    if month == 1 || month == 3 || month == 5 || month == 7 || month == 8 || month == 10
        || month == 12 {
        31
    } else if month == 4 || month == 6 || month == 9 || month == 11 {
        30
    } else if month == 2 {
        if leap(year) { 29 } else { 28 }
    } else {
        0
    }
}

/// A calendar day in years `0..=9999`.
pub open spec fn valid_ymd(year: int, month: int, day: int) -> bool {
    0 <= year <= 9999 && 1 <= month <= 12 && 1 <= day <= month_days(year, month)
}

/// Calendar day. No time, no timezone.
/// `a` falls on an earlier calendar day than `b`.
pub open spec fn date_before(a: Date, b: Date) -> bool {
    a.y() < b.y() || (a.y() == b.y() && (a.m() < b.m() || (a.m() == b.m() && a.d() < b.d())))
}

#[derive(Debug, Clone, Copy, PartialEq, Eq, PartialOrd, Ord, Hash, Structural)]
pub struct Date {
    year: i32,
    month: u8,
    day: u8,
}

impl Date {
    /// Year.
    pub closed spec fn y(self) -> int {
        self.year as int
    }

    /// Month.
    pub closed spec fn m(self) -> int {
        self.month as int
    }

    /// Day of month.
    pub closed spec fn d(self) -> int {
        self.day as int
    }

    #[verifier::type_invariant]
    closed spec fn inv(self) -> bool {
        valid_ymd(self.year as int, self.month as int, self.day as int)
    }
}

/// "Before" is the calendar order, a strict total order on dates: no date is
/// before itself, of two different dates exactly one is before the other,
/// and it is transitive. Within one month the earlier day of the month is
/// before; a later month of the same year, or a later year, is after
/// whatever the days.
pub proof fn lemma_date_order(a: Date, b: Date, c: Date)
    ensures
        !date_before(a, a),
        a != b ==> (date_before(a, b) || date_before(b, a)),
        date_before(a, b) ==> !date_before(b, a),
        date_before(a, b) && date_before(b, c) ==> date_before(a, c),
        a.y() == b.y() && a.m() == b.m() ==> (date_before(a, b) <==> a.d() < b.d()),
        a.y() == b.y() && a.m() < b.m() ==> date_before(a, b),
        a.y() < b.y() ==> date_before(a, b),
{
    if a != b {
        assert(a.year != b.year || a.month != b.month || a.day != b.day);
    }
}

/// The value of a non-empty run of ASCII digits.
pub open spec fn digits_value(s: Seq<char>) -> int
    decreases s.len(),
{
    if s.len() == 0 {
        0
    } else {
        digits_value(s.drop_last()) * 10 + ((s.last() as int) - ('0' as int))
    }
}

/// Non-empty and ASCII digits only.
pub open spec fn all_digits(s: Seq<char>) -> bool {
    s.len() > 0 && forall|i: int| 0 <= i < s.len() ==> '0' <= #[trigger] s[i] <= '9'
}

/// The value of a field made of ASCII digits only (no sign).
pub open spec fn digit_field(s: Seq<char>) -> Option<int> {
    if all_digits(s) {
        Some(digits_value(s))
    } else {
        None
    }
}

/// Year, month and day read from a trimmed `YYYY-MM-DD` text, before the
/// calendar check.
pub open spec fn date_fields(t: Seq<char>) -> Option<(int, int, int)> {
    if t.len() == 10 && t[4] == '-' && t[7] == '-' {
        match (
            digit_field(t.subrange(0, 4)),
            digit_field(t.subrange(5, 7)),
            digit_field(t.subrange(8, 10)),
        ) {
            (Some(y), Some(m), Some(d)) => Some((y, m, d)),
            _ => None,
        }
    } else {
        None
    }
}

/// Text of a date: `YYYY-MM-DD` with zero padding.
pub open spec fn date_text(d: Date) -> Seq<char> {
    padded(d.y() as nat, 4) + seq!['-'] + padded(d.m() as nat, 2) + seq!['-'] + padded(
        d.d() as nat,
        2,
    )
}

/// Text of a date in format 102: `YYYYMMDD` with zero padding.
pub open spec fn date_102_text(d: Date) -> Seq<char> {
    padded(d.y() as nat, 4) + padded(d.m() as nat, 2) + padded(d.d() as nat, 2)
}

fn days_in_month(year: i32, month: u8) -> (r: u8)
    requires
        0 <= year <= 9999,
    ensures
        r == month_days(year as int, month as int),
{
    if month == 1 || month == 3 || month == 5 || month == 7 || month == 8 || month == 10 || month
        == 12 {
        31
    } else if month == 4 || month == 6 || month == 9 || month == 11 {
        30
    } else if month == 2 {
        if year % 4 == 0 && (year % 100 != 0 || year % 400 == 0) {
            29
        } else {
            28
        }
    } else {
        0
    }
}

/// Value of the digits `v[lo..hi]` (`hi - lo <= 4`), if all are digits.
pub fn digit_run(v: &[char], lo: usize, hi: usize) -> (r: Option<i32>)
    requires
        lo < hi <= v.len(),
        hi - lo <= 4,
    ensures
        all_digits(v@.subrange(lo as int, hi as int)) ==> r == Some(
            digits_value(v@.subrange(lo as int, hi as int)) as i32,
        ) && 0 <= digits_value(v@.subrange(lo as int, hi as int)) <= 9999,
        !all_digits(v@.subrange(lo as int, hi as int)) ==> r is None,
{
    let ghost s = v@.subrange(lo as int, hi as int);
    let mut val: i32 = 0;
    let mut k: usize = lo;
    while k < hi
        invariant
            lo <= k <= hi,
            hi <= v.len(),
            hi - lo <= 4,
            s == v@.subrange(lo as int, hi as int),
            forall|i: int| lo <= i < k ==> '0' <= #[trigger] v@[i] <= '9',
            val as int == digits_value(v@.subrange(lo as int, k as int)),
            0 <= val < pow10_small((k - lo) as nat),
        decreases hi - k,
    {
        let c = v[k];
        if !('0' <= c && c <= '9') {
            assert(s[(k - lo) as int] == c);
            return None;
        }
        assert(v@.subrange(lo as int, k + 1).drop_last() =~= v@.subrange(lo as int, k as int));
        assert(pow10_small((k + 1 - lo) as nat) == 10 * pow10_small((k - lo) as nat));
        val = val * 10 + ((c as u32) - 48) as i32;
        k = k + 1;
    }
    assert forall|i: int| 0 <= i < s.len() implies '0' <= #[trigger] s[i] <= '9' by {
        assert(s[i] == v@[lo + i]);
    }
    Some(val)
}

spec fn pow10_small(n: nat) -> int {
    if n == 0 {
        1
    } else if n == 1 {
        10
    } else if n == 2 {
        100
    } else if n == 3 {
        1000
    } else {
        10000
    }
}

fn push_padded(v: &mut Vec<char>, n: u64, w: usize)
    requires
        w <= 4,
    ensures
        final(v)@ == old(v)@ + padded(n as nat, w as nat),
{
    let d = u64_digits(n);
    if d.len() < w {
        let mut k: usize = 0;
        while k < w - d.len()
            invariant
                d.len() < w,
                w <= 4,
                k <= w - d.len(),
                v@ == old(v)@ + Seq::new(k as nat, |i: int| '0'),
            decreases w - d.len() - k,
        {
            v.push('0');
            assert(Seq::new((k + 1) as nat, |i: int| '0') =~= Seq::new(k as nat, |i: int| '0').push(
                '0',
            ));
            k = k + 1;
        }
    }
    let mut j: usize = 0;
    let ghost base = v@;
    while j < d.len()
        invariant
            j <= d.len(),
            d@ == digits(n as nat),
            v@ == base + d@.take(j as int),
        decreases d.len() - j,
    {
        v.push(d[j]);
        assert(d@.take(j + 1) =~= d@.take(j as int).push(d@[j as int]));
        j = j + 1;
    }
    assert(d@.take(d.len() as int) =~= d@);
    assert(final(v)@ =~= old(v)@ + padded(n as nat, w as nat));
}

impl Date {
    /// A calendar day; anything else is [`DateError::Invalid`].
    pub fn new(year: i32, month: u8, day: u8) -> (r: Result<Date, DateError>)
        ensures
            r is Ok <==> valid_ymd(year as int, month as int, day as int),
            r is Ok ==> r->Ok_0.y() == year && r->Ok_0.m() == month && r->Ok_0.d() == day,
    {
        if year < 0 || year > 9999 || month < 1 || month > 12 {
            return Err(DateError::Invalid);
        }
        if day == 0 || day > days_in_month(year, month) {
            return Err(DateError::Invalid);
        }
        Ok(Date { year, month, day })
    }

    /// `YYYY-MM-DD` only, after trimming. Time and zone suffixes fail closed.
    pub fn parse(s: &str) -> (r: Result<Date, DateError>)
        ensures
            match date_fields(trim(s@)) {
                Some((y, m, d)) => {
                    &&& r is Ok <==> valid_ymd(y, m, d)
                    &&& r is Ok ==> r->Ok_0.y() == y && r->Ok_0.m() == m && r->Ok_0.d() == d
                },
                None => r is Err,
            },
            r is Ok ==> all_digits(trim(s@).subrange(0, 4)) && all_digits(trim(s@).subrange(5, 7)) && all_digits(
                trim(s@).subrange(8, 10),
            ),
    {
        let t = trim_str(s);
        let v = chars_of(t);
        if v.len() != 10 || v[4] != '-' || v[7] != '-' {
            return Err(DateError::Invalid);
        }
        let y = digit_run(v.as_slice(), 0, 4);
        let m = digit_run(v.as_slice(), 5, 7);
        let d = digit_run(v.as_slice(), 8, 10);
        match (y, m, d) {
            (Some(y), Some(m), Some(d)) => {
                if m < 0 || m > 255 || d < 0 || d > 255 {
                    return Err(DateError::Invalid);
                }
                Date::new(y, m as u8, d as u8)
            },
            _ => Err(DateError::Invalid),
        }
    }

    /// Strictly earlier calendar date.
    pub fn before(self, other: Date) -> (r: bool)
        ensures
            r == date_before(self, other),
    {
        self.year < other.year || (self.year == other.year && (self.month < other.month || (
        self.month == other.month && self.day < other.day)))
    }

    /// Year (`0..=9999`).
    pub fn year(self) -> (r: i32)
        ensures
            r == self.y(),
    {
        self.year
    }

    /// Month (`1..=12`).
    pub fn month(self) -> (r: u8)
        ensures
            r == self.m(),
    {
        self.month
    }

    /// Day of month.
    pub fn day(self) -> (r: u8)
        ensures
            r == self.d(),
    {
        self.day
    }

    /// `YYYY-MM-DD`.
    pub fn to_string(&self) -> (r: String)
        ensures
            r@ == date_text(*self),
    {
        proof {
            use_type_invariant(self);
        }
        let mut v: Vec<char> = Vec::new();
        push_padded(&mut v, self.year as u64, 4);
        v.push('-');
        push_padded(&mut v, self.month as u64, 2);
        v.push('-');
        push_padded(&mut v, self.day as u64, 2);
        assert(v@ =~= date_text(*self));
        string_from_chars(v.as_slice())
    }

    /// `YYYYMMDD` (UN/CEFACT date format 102).
    pub fn to_102(&self) -> (r: String)
        ensures
            r@ == date_102_text(*self),
    {
        proof {
            use_type_invariant(self);
        }
        let mut v: Vec<char> = Vec::new();
        push_padded(&mut v, self.year as u64, 4);
        push_padded(&mut v, self.month as u64, 2);
        push_padded(&mut v, self.day as u64, 2);
        assert(v@ =~= date_102_text(*self));
        string_from_chars(v.as_slice())
    }
}

} // verus!
