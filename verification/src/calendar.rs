//! Days of the proleptic Gregorian calendar as the ledger's readers handle them: read
//! tolerantly from stored or caller-supplied text, compared, and written back out as
//! `%Y-%m-%d`.
//!
//! [`crate::iso_date::IsoDate`] is the strict, windowed form every writer takes; a [`Day`] is
//! what a reader makes of text that is already stored, whatever its year.

use vstd::prelude::*;

use chrono::{Datelike, NaiveDate};

use crate::iso_date::{is_calendar_date, is_iso_shape_text, pad2, ymd_of};
use crate::text::{append_nat_decimal, byte_prefix, chars_in_width, is_digit, nat_decimal, push_char};

verus! {

/// The earliest year chrono's dates reach.
pub const MIN_DAY_YEAR: i32 = -262143;

/// The latest year chrono's dates reach.
pub const MAX_DAY_YEAR: i32 = 262142;

/// Whether `(y, m, d)` is a day a [`Day`] can hold.
pub open spec fn is_day(y: int, m: int, d: int) -> bool {
    is_calendar_date(y, m, d) && MIN_DAY_YEAR <= y <= MAX_DAY_YEAR
}

/// A day of the proleptic Gregorian calendar, within the years chrono's dates reach.
#[derive(Debug, Clone, Copy, PartialEq, Eq, Hash)]
pub struct Day {
    year: i32,
    month: u32,
    day: u32,
}

impl View for Day {
    type V = (int, int, int);

    closed spec fn view(&self) -> (int, int, int) {
        (self.year as int, self.month as int, self.day as int)
    }
}

/// Whether `a` is an earlier day than `b`: by year, then month, then day.
pub open spec fn earlier(a: (int, int, int), b: (int, int, int)) -> bool {
    a.0 < b.0 || (a.0 == b.0 && (a.1 < b.1 || (a.1 == b.1 && a.2 < b.2)))
}

/// The year as chrono's `%Y` writes it: four digits for years 0 to 9999, otherwise a sign and
/// at least four digits.
pub open spec fn year_text(y: int) -> Seq<char> {
    if 0 <= y <= 9999 {
        pad2(y / 100) + pad2(y % 100)
    } else if y < 0 {
        seq!['-'] + padded4(-y)
    } else {
        seq!['+'] + padded4(y)
    }
}

/// A natural number in decimal, zero-padded to at least four digits.
pub open spec fn padded4(n: int) -> Seq<char> {
    if n < 10 {
        "000"@ + nat_decimal(n as nat)
    } else if n < 100 {
        "00"@ + nat_decimal(n as nat)
    } else if n < 1000 {
        "0"@ + nat_decimal(n as nat)
    } else {
        nat_decimal(n as nat)
    }
}

/// A day written as `%Y-%m-%d`, which is how chrono displays one.
pub open spec fn day_text(d: (int, int, int)) -> Seq<char> {
    year_text(d.0) + seq!['-'] + pad2(d.1) + seq!['-'] + pad2(d.2)
}

/// What chrono's `NaiveDate::parse_from_str(t, "%Y-%m-%d")` reads from `t`, as year, month
/// and day.
pub uninterp spec fn chrono_ymd(t: Seq<char>) -> Option<(int, int, int)>;

/// `NaiveDate::parse_from_str(t, "%Y-%m-%d")`, read back as year, month and day. A successful
/// read is always a day chrono's dates reach; on text of the `YYYY-MM-DD` shape chrono gives
/// the day those digits name exactly when it exists. What it accepts beyond that shape is
/// left to the name.
#[verifier::external_body]
pub(crate) fn chrono_parse_ymd(t: &str) -> (r: Option<(i32, u32, u32)>)
    ensures
        r is Some <==> chrono_ymd(t@) is Some,
        r matches Some(v) ==> (chrono_ymd(t@) == Some((v.0 as int, v.1 as int, v.2 as int))
            && is_day(v.0 as int, v.1 as int, v.2 as int)),
        is_iso_shape_text(t@) ==> (r is Some <==> is_calendar_date(
            ymd_of(t@).0,
            ymd_of(t@).1,
            ymd_of(t@).2,
        )),
        is_iso_shape_text(t@) ==> (r matches Some(v) ==> v.0 as int == ymd_of(t@).0 && v.1 as int
            == ymd_of(t@).1 && v.2 as int == ymd_of(t@).2),
{
    match NaiveDate::parse_from_str(t, "%Y-%m-%d") {
        Ok(d) => Some((d.year(), d.month(), d.day())),
        Err(_) => None,
    }
}

/// The text a reader parses: the first ten bytes when they end on a character boundary, so a
/// full timestamp still yields its date; otherwise the whole text.
pub open spec fn date_part(s: Seq<char>) -> Seq<char> {
    match chars_in_width(s, 10) {
        Some(k) => s.take(k),
        None => s,
    }
}

/// What a reader makes of stored or caller-supplied text: chrono's reading of its date part.
/// Text that starts with a zero-padded `YYYY-MM-DD` reads as exactly that day when the day
/// exists, and as nothing when it does not.
pub open spec fn lenient_ymd(s: Seq<char>) -> Option<(int, int, int)> {
    if s.len() >= 10 && is_iso_shape_text(s.take(10)) {
        if is_calendar_date(ymd_of(s.take(10)).0, ymd_of(s.take(10)).1, ymd_of(s.take(10)).2) {
            Some(ymd_of(s.take(10)))
        } else {
            None
        }
    } else {
        chrono_ymd(date_part(s))
    }
}

/// `w` leading characters that each take one byte in UTF-8 are exactly `w` bytes wide.
proof fn lemma_ascii_prefix_width(s: Seq<char>, w: int)
    requires
        0 <= w <= s.len(),
        forall|i: int| 0 <= i < w ==> (s[i] as u32) < 0x80,
    ensures
        chars_in_width(s, w) == Some(w),
    decreases w,
{
    if w > 0 {
        let t = s.drop_first();
        assert forall|i: int| 0 <= i < w - 1 implies (t[i] as u32) < 0x80 by {
            assert(t[i] == s[i + 1]);
        }
        lemma_ascii_prefix_width(t, w - 1);
    }
}

impl Day {
    /// Every day is a real day of the years chrono's dates reach.
    #[verifier::type_invariant]
    pub(crate) open spec fn valid(self) -> bool {
        is_day(self@.0, self@.1, self@.2)
    }

    /// Read a day tolerantly: the first ten bytes as `%Y-%m-%d`, so a full timestamp still
    /// yields its date; see [`lenient_ymd`]. `None` for text that does not read as a day.
    pub fn parse(s: &str) -> (r: Option<Day>)
        ensures
            match r {
                Some(d) => lenient_ymd(s@) == Some(d@),
                None => lenient_ymd(s@) is None,
            },
            s@.len() >= 10 && is_iso_shape_text(s@.take(10)) && is_calendar_date(
                ymd_of(s@.take(10)).0,
                ymd_of(s@.take(10)).1,
                ymd_of(s@.take(10)).2,
            ) ==> (r matches Some(d) && d@ == ymd_of(s@.take(10))),
    {
        let t = match byte_prefix(s, 10) {
            Some(p) => p,
            None => s,
        };
        proof {
            assert(t@ == date_part(s@));
            if s@.len() >= 10 && is_iso_shape_text(s@.take(10)) {
                let h = s@.take(10);
                assert forall|i: int| 0 <= i < 10 implies (s@[i] as u32) < 0x80 by {
                    assert(s@[i] == h[i]);
                    if i == 4 || i == 7 {
                        assert(h[i] == '-');
                    } else {
                        assert(is_digit(h[i]));
                    }
                }
                lemma_ascii_prefix_width(s@, 10);
                assert(t@ == h);
            }
        }
        match chrono_parse_ymd(t) {
            Some((year, month, day)) => Some(Day { year, month, day }),
            None => None,
        }
    }

    /// A day from its parts: `None` unless they name a real day chrono can hold.
    pub fn from_parts(year: i32, month: u32, day: u32) -> (r: Option<Day>)
        ensures
            r is Some <==> is_day(year as int, month as int, day as int),
            r matches Some(d) ==> d@ == (year as int, month as int, day as int),
    {
        if year < MIN_DAY_YEAR || year > MAX_DAY_YEAR || month < 1 || month > 12 || day < 1 {
            return None;
        }
        if day > days_in(year, month) {
            return None;
        }
        Some(Day { year, month, day })
    }

    pub fn year(&self) -> (y: i32)
        ensures
            y == self@.0,
    {
        self.year
    }

    pub fn month(&self) -> (m: u32)
        ensures
            m == self@.1,
    {
        self.month
    }

    pub fn day(&self) -> (d: u32)
        ensures
            d == self@.2,
    {
        self.day
    }

    /// Whether this is an earlier day than `other`.
    pub fn is_before(&self, other: &Day) -> (r: bool)
        ensures
            r == earlier(self@, other@),
    {
        self.year < other.year || (self.year == other.year && (self.month < other.month || (
        self.month == other.month && self.day < other.day)))
    }

    /// The day as chrono displays it: `%Y-%m-%d`.
    pub fn to_text(&self) -> (s: String)
        ensures
            s@ == day_text(self@),
    {
        proof {
            use_type_invariant(self);
        }
        let mut s = String::new();
        push_year(&mut s, self.year);
        push_char(&mut s, '-');
        push_two(&mut s, self.month);
        push_char(&mut s, '-');
        push_two(&mut s, self.day);
        proof {
            assert(s@ =~= day_text(self@));
        }
        s
    }

    /// The day after this one; there is none after the last day chrono can hold.
    pub fn next(&self) -> (r: Day)
        requires
            self@ != last_day(),
        ensures
            r@ == next_day(self@),
    {
        proof {
            use_type_invariant(self);
        }
        if self.day < days_in(self.year, self.month) {
            Day { year: self.year, month: self.month, day: self.day + 1 }
        } else if self.month < 12 {
            Day { year: self.year, month: self.month + 1, day: 1 }
        } else {
            Day { year: self.year + 1, month: 1, day: 1 }
        }
    }

    /// The day before this one; there is none before the first day chrono can hold.
    pub fn prev(&self) -> (r: Day)
        requires
            self@ != first_day(),
        ensures
            r@ == prev_day(self@),
    {
        proof {
            use_type_invariant(self);
        }
        if self.day > 1 {
            Day { year: self.year, month: self.month, day: self.day - 1 }
        } else if self.month > 1 {
            Day { year: self.year, month: self.month - 1, day: days_in(self.year, self.month - 1) }
        } else {
            Day { year: self.year - 1, month: 12, day: 31 }
        }
    }

    /// The day `n` days before this one, for up to a year back, as long as that day is one
    /// chrono's dates reach: the first year only has room for as many days as precede this one
    /// in it.
    pub fn days_earlier(&self, n: u32) -> (r: Day)
        requires
            n <= 365,
            self@.0 > MIN_DAY_YEAR || day_of_year(self@) > n,
        ensures
            r@ == days_before(self@, n as nat),
    {
        proof {
            use_type_invariant(self);
        }
        let mut cur = *self;
        let mut i: u32 = 0;
        while i < n
            invariant
                i <= n <= 365,
                cur@ == days_before(self@, i as nat),
                is_day(cur@.0, cur@.1, cur@.2),
                cur@.0 > MIN_DAY_YEAR || (cur@.0 == MIN_DAY_YEAR && day_of_year(cur@) > n - i),
            decreases n - i,
        {
            proof {
                lemma_prev_day_is_a_day(cur@);
                lemma_prev_day_of_year(cur@);
            }
            cur = cur.prev();
            i = i + 1;
        }
        cur
    }

    /// The last day of the month this day falls in.
    pub fn last_of_month(&self) -> (r: Day)
        ensures
            r@ == (self@.0, self@.1, crate::iso_date::days_in_month(self@.0, self@.1)),
    {
        proof {
            use_type_invariant(self);
        }
        Day { year: self.year, month: self.month, day: days_in(self.year, self.month) }
    }
}

/// The day after `d`.
pub open spec fn next_day(d: (int, int, int)) -> (int, int, int) {
    if d.2 < crate::iso_date::days_in_month(d.0, d.1) {
        (d.0, d.1, d.2 + 1)
    } else if d.1 < 12 {
        (d.0, d.1 + 1, 1)
    } else {
        (d.0 + 1, 1, 1)
    }
}

/// The day `n` days after `d`.
pub open spec fn days_after(d: (int, int, int), n: nat) -> (int, int, int)
    decreases n,
{
    if n == 0 {
        d
    } else {
        next_day(days_after(d, (n - 1) as nat))
    }
}

/// The day before `d`.
pub open spec fn prev_day(d: (int, int, int)) -> (int, int, int) {
    if d.2 > 1 {
        (d.0, d.1, d.2 - 1)
    } else if d.1 > 1 {
        (d.0, d.1 - 1, crate::iso_date::days_in_month(d.0, d.1 - 1))
    } else {
        (d.0 - 1, 12, 31)
    }
}

/// The day `n` days before `d`.
pub open spec fn days_before(d: (int, int, int), n: nat) -> (int, int, int)
    decreases n,
{
    if n == 0 {
        d
    } else {
        prev_day(days_before(d, (n - 1) as nat))
    }
}

/// How many days of year `y` come before month `m`.
pub open spec fn days_before_month(y: int, m: int) -> int
    decreases m,
{
    if m <= 1 {
        0
    } else {
        days_before_month(y, m - 1) + crate::iso_date::days_in_month(y, m - 1)
    }
}

/// Which day of its year a day is, counting the first of January as day one.
pub open spec fn day_of_year(d: (int, int, int)) -> int {
    days_before_month(d.0, d.1) + d.2
}

/// The first day a [`Day`] can hold.
pub open spec fn first_day() -> (int, int, int) {
    (MIN_DAY_YEAR as int, 1, 1)
}

/// Stepping back keeps a real day a real day, and never passes the year before.
pub proof fn lemma_prev_day_is_a_day(a: (int, int, int))
    requires
        is_calendar_date(a.0, a.1, a.2),
    ensures
        is_calendar_date(prev_day(a).0, prev_day(a).1, prev_day(a).2),
        prev_day(a).0 >= a.0 - 1,
        prev_day(a).0 == a.0 - 1 ==> prev_day(a) == (a.0 - 1, 12int, 31int),
{
}

/// Stepping back within a year moves one day earlier in it, and stepping back over New Year
/// lands on a day late in the year before.
proof fn lemma_prev_day_of_year(a: (int, int, int))
    requires
        is_calendar_date(a.0, a.1, a.2),
    ensures
        prev_day(a).0 == a.0 ==> day_of_year(prev_day(a)) == day_of_year(a) - 1,
        prev_day(a).0 != a.0 ==> day_of_year(prev_day(a)) >= 365,
        day_of_year(a) >= 1,
{
    reveal_with_fuel(days_before_month, 12);
    if a.2 == 1 && a.1 > 1 {
        assert(days_before_month(a.0, a.1) == days_before_month(a.0, a.1 - 1)
            + crate::iso_date::days_in_month(a.0, a.1 - 1));
    }
    if a.1 > 1 {
        assert(days_before_month(a.0, a.1) >= 0) by {
            lemma_days_before_month_nonnegative(a.0, a.1);
        }
    }
}

/// Past January, a year has had at least January's thirty-one days.
pub(crate) proof fn lemma_past_january(y: int, m: int)
    requires
        m > 1,
    ensures
        days_before_month(y, m) >= 31,
    decreases m,
{
    if m > 2 {
        lemma_past_january(y, m - 1);
        lemma_days_before_month_nonnegative(y, m - 1);
    } else {
        reveal_with_fuel(days_before_month, 2);
    }
}

/// No month has a negative number of days before it.
proof fn lemma_days_before_month_nonnegative(y: int, m: int)
    ensures
        days_before_month(y, m) >= 0,
    decreases m,
{
    if m > 1 {
        lemma_days_before_month_nonnegative(y, m - 1);
    }
}

/// The last day a [`Day`] can hold.
pub open spec fn last_day() -> (int, int, int) {
    (MAX_DAY_YEAR as int, 12, 31)
}

/// Stepping forward keeps a real day a real day, reaches a later one, and never passes the
/// year after.
pub proof fn lemma_next_day_is_a_day(a: (int, int, int))
    requires
        is_calendar_date(a.0, a.1, a.2),
    ensures
        is_calendar_date(next_day(a).0, next_day(a).1, next_day(a).2),
        earlier(a, next_day(a)),
        next_day(a).0 <= a.0 + 1,
        next_day(a).0 == a.0 + 1 ==> next_day(a) == (a.0 + 1, 1int, 1int),
{
}

/// Two days that read the same are the same day.
pub proof fn lemma_day_view_injective(a: Day, b: Day)
    requires
        a@ == b@,
    ensures
        a == b,
{
}

/// The number of days in month `m` of year `y`.
pub fn days_in(y: i32, m: u32) -> (d: u32)
    requires
        1 <= m <= 12,
    ensures
        d == crate::iso_date::days_in_month(y as int, m as int),
{
    let leap = (y % 4 == 0 && y % 100 != 0) || y % 400 == 0;
    if m == 2 {
        if leap {
            29
        } else {
            28
        }
    } else if m == 4 || m == 6 || m == 9 || m == 11 {
        30
    } else {
        31
    }
}

fn push_two(s: &mut String, n: u32)
    requires
        n < 100,
    ensures
        final(s)@ == old(s)@ + pad2(n as int),
{
    let hi = ((n / 10) as u8 + 48u8) as char;
    let lo = ((n % 10) as u8 + 48u8) as char;
    push_char(s, hi);
    push_char(s, lo);
    proof {
        assert(final(s)@ =~= old(s)@ + pad2(n as int));
    }
}

fn push_year(s: &mut String, y: i32)
    requires
        MIN_DAY_YEAR <= y <= MAX_DAY_YEAR,
    ensures
        final(s)@ == old(s)@ + year_text(y as int),
{
    if 0 <= y && y <= 9999 {
        let u = y as u32;
        push_two(s, u / 100);
        push_two(s, u % 100);
        proof {
            assert(final(s)@ =~= old(s)@ + year_text(y as int));
        }
    } else {
        let magnitude: u64 = if y < 0 {
            push_char(s, '-');
            (-(y as i64)) as u64
        } else {
            push_char(s, '+');
            y as u64
        };
        if magnitude < 10 {
            s.append("000");
        } else if magnitude < 100 {
            s.append("00");
        } else if magnitude < 1000 {
            s.append("0");
        }
        append_nat_decimal(s, magnitude);
        proof {
            assert(final(s)@ =~= old(s)@ + year_text(y as int));
        }
    }
}

/// A day that is read back from the text it is written as is the same day, for every year
/// in the plain four-digit range.
pub proof fn lemma_day_text_is_iso_for_plain_years(d: (int, int, int))
    requires
        0 <= d.0 <= 9999,
        is_calendar_date(d.0, d.1, d.2),
    ensures
        day_text(d) == crate::iso_date::render_ymd(d.0, d.1, d.2),
{
}

} // verus!
