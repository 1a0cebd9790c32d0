//! [`IsoDate`] — a calendar date that has actually been parsed.
//!
//! Every date this system stores is a bare text column, and every reader reads it back as
//! `%Y-%m-%d`. A value in any other shape does not fail anywhere: it is stored, listed, and
//! then silently dropped by every report that cannot parse it. So the date is parsed once, at
//! the edge, into this type, and never re-guessed downstream.

use vstd::prelude::*;

use crate::calendar::chrono_parse_ymd;

use crate::error::{AppError, AppResult};
use crate::text::{
    debug_quoted, debug_text, digit_char, digit_value, is_digit, push_char, trim, trimmed,
};

verus! {

/// Earliest year accepted.
pub const MIN_YEAR: i32 = 1900;

/// Latest year accepted.
pub const MAX_YEAR: i32 = 2199;

/// Whether `y` is a leap year of the proleptic Gregorian calendar.
pub open spec fn is_leap(y: int) -> bool {
    (y % 4 == 0 && y % 100 != 0) || y % 400 == 0
}

/// The number of days in month `m` of year `y`.
pub open spec fn days_in_month(y: int, m: int) -> int {
    if m == 2 {
        if is_leap(y) {
            29
        } else {
            28
        }
    } else if m == 4 || m == 6 || m == 9 || m == 11 {
        30
    } else {
        31
    }
}

/// Whether `(y, m, d)` names a day of the proleptic Gregorian calendar.
pub open spec fn is_calendar_date(y: int, m: int, d: int) -> bool {
    1 <= m <= 12 && 1 <= d <= days_in_month(y, m)
}

/// Whether a year is inside the plausible window `MIN_YEAR..=MAX_YEAR`.
pub open spec fn in_year_window(y: int) -> bool {
    MIN_YEAR <= y <= MAX_YEAR
}

/// Whether `t` is syntactically `YYYY-MM-DD`: ten characters, ASCII digits everywhere except
/// dashes at index 4 and 7.
pub open spec fn is_iso_shape_text(t: Seq<char>) -> bool {
    &&& t.len() == 10
    &&& forall|i: int|
        0 <= i < 10 ==> if i == 4 || i == 7 {
            #[trigger] t[i] == '-'
        } else {
            is_digit(t[i])
        }
}

/// The value of the two digits of `t` at `i` and `i + 1`.
pub open spec fn two_digits(t: Seq<char>, i: int) -> int {
    digit_value(t[i]) * 10 + digit_value(t[i + 1])
}

/// The year, month and day written in an ISO-shaped text.
pub open spec fn ymd_of(t: Seq<char>) -> (int, int, int) {
    (two_digits(t, 0) * 100 + two_digits(t, 2), two_digits(t, 5), two_digits(t, 8))
}

/// Two digits, zero-padded.
pub open spec fn pad2(n: int) -> Seq<char> {
    seq![digit_char(n / 10), digit_char(n % 10)]
}

/// `YYYY-MM-DD` for a date with a four-digit year.
pub open spec fn render_ymd(y: int, m: int, d: int) -> Seq<char> {
    pad2(y / 100) + pad2(y % 100) + seq!['-'] + pad2(m) + seq!['-'] + pad2(d)
}

/// The refusal for text that is not `YYYY-MM-DD`.
pub open spec fn shape_message(t: Seq<char>) -> Seq<char> {
    "invalid date "@ + debug_quoted(t)
        + ": expected an ISO-8601 calendar date in YYYY-MM-DD form, zero-padded (e.g. 2026-07-31)"@
}

/// The refusal for a well-formed text that names no day.
pub open spec fn no_such_day_message(t: Seq<char>) -> Seq<char> {
    "invalid date "@ + debug_quoted(t) + ": no such day in the calendar"@
}

/// The refusal for a real day outside the year window.
pub open spec fn out_of_window_message(t: Seq<char>) -> Seq<char> {
    "date "@ + debug_quoted(t) + " is outside the supported range 1900-01-01..=2199-12-31"@
}

/// What reading `s` gives: its trimmed text checked, in order, for shape, for being a real
/// day, and for the year window.
pub open spec fn read_date(s: Seq<char>) -> Result<(int, int, int), Seq<char>> {
    let t = trimmed(s);
    if !is_iso_shape_text(t) {
        Err(shape_message(t))
    } else if !is_calendar_date(ymd_of(t).0, ymd_of(t).1, ymd_of(t).2) {
        Err(no_such_day_message(t))
    } else if !in_year_window(ymd_of(t).0) {
        Err(out_of_window_message(t))
    } else {
        Ok(ymd_of(t))
    }
}

/// A calendar date in `YYYY-MM-DD` form, validated on construction.
///
/// The fields are private and the only constructors check, so there is no path that produces
/// an `IsoDate` a report cannot read. Field order is year, month, day, so the derived order is
/// the calendar's.
#[derive(Debug, Clone, Copy, PartialEq, Eq, Ord, Hash)]
pub struct IsoDate {
    year: i32,
    month: u32,
    day: u32,
}

impl View for IsoDate {
    type V = (int, int, int);

    closed spec fn view(&self) -> (int, int, int) {
        (self.year as int, self.month as int, self.day as int)
    }
}

impl IsoDate {
    #[verifier::type_invariant]
    spec fn valid(self) -> bool {
        &&& is_calendar_date(self.year as int, self.month as int, self.day as int)
        &&& in_year_window(self.year as int)
    }

    /// The one fallible constructor. Refuses, in order: anything that is not exactly
    /// `YYYY-MM-DD` after trimming, then a day that does not exist, then a year outside
    /// [`MIN_YEAR`]..=[`MAX_YEAR`]; each as a validation error quoting the text.
    pub fn parse(s: &str) -> (r: AppResult<IsoDate>)
        ensures
            match read_date(s@) {
                Ok(ymd) => r matches Ok(d) && d@ == ymd,
                Err(msg) => r matches Err(AppError::Validation(m)) && m@ == msg,
            },
    {
        match Self::from_wire(s) {
            Ok(d) => Ok(d),
            Err(m) => Err(AppError::validation(m)),
        }
    }

    /// The check itself, with a plain-`String` error so a deserialiser can report it against
    /// the field.
    pub fn from_wire(s: &str) -> (r: Result<IsoDate, String>)
        ensures
            match read_date(s@) {
                Ok(ymd) => r matches Ok(d) && d@ == ymd,
                Err(msg) => r matches Err(m) && m@ == msg,
            },
    {
        let t = trim(s);
        let ts = t.as_str();
        if !is_iso_shape(ts) {
            let mut m = String::from_str("invalid date ");
            let q = debug_text(ts);
            m.append(q.as_str());
            m.append(
                ": expected an ISO-8601 calendar date in YYYY-MM-DD form, zero-padded (e.g. 2026-07-31)",
            );
            return Err(m);
        }
        match chrono_parse_ymd(ts) {
            None => {
                let mut m = String::from_str("invalid date ");
                let q = debug_text(ts);
                m.append(q.as_str());
                m.append(": no such day in the calendar");
                Err(m)
            },
            Some((year, month, day)) => {
                if year < MIN_YEAR || year > MAX_YEAR {
                    let mut m = String::from_str("date ");
                    let q = debug_text(ts);
                    m.append(q.as_str());
                    m.append(" is outside the supported range 1900-01-01..=2199-12-31");
                    return Err(m);
                }
                Ok(IsoDate { year, month, day })
            },
        }
    }

    /// A date from its parts, under the same checks as [`IsoDate::parse`]: `None` unless the
    /// parts name a real day inside the year window.
    pub fn from_parts(year: i32, month: u32, day: u32) -> (r: Option<IsoDate>)
        ensures
            r is Some <==> is_calendar_date(year as int, month as int, day as int)
                && in_year_window(year as int),
            r matches Some(d) ==> d@ == (year as int, month as int, day as int),
    {
        if year < MIN_YEAR || year > MAX_YEAR || month < 1 || month > 12 || day < 1 {
            return None;
        }
        let leap = (year % 4 == 0 && year % 100 != 0) || year % 400 == 0;
        let days: u32 = if month == 2 {
            if leap {
                29
            } else {
                28
            }
        } else if month == 4 || month == 6 || month == 9 || month == 11 {
            30
        } else {
            31
        };
        if day > days {
            return None;
        }
        Some(IsoDate { year, month, day })
    }

    pub fn year(&self) -> (y: i32)
        ensures
            y == self@.0,
    {
        self.year
    }

    pub fn month(&self) -> (m: u32)
        ensures
            m == self@.1,
    {
        self.month
    }

    pub fn day(&self) -> (d: u32)
        ensures
            d == self@.2,
    {
        self.day
    }

    /// Whether this is an earlier day than `other`.
    pub fn is_before(&self, other: &IsoDate) -> (r: bool)
        ensures
            r == before(*self, *other),
    {
        self.year < other.year || (self.year == other.year && (self.month < other.month || (
        self.month == other.month && self.day < other.day)))
    }

    /// The ten characters `YYYY-MM-DD`: exactly what was accepted.
    pub fn to_string(&self) -> (s: String)
        ensures
            s@ == render_ymd(self@.0, self@.1, self@.2),
    {
        proof {
            use_type_invariant(self);
        }
        let y = self.year as u32;
        let mut s = String::new();
        push_two(&mut s, y / 100);
        push_two(&mut s, y % 100);
        push_char(&mut s, '-');
        push_two(&mut s, self.month);
        push_char(&mut s, '-');
        push_two(&mut s, self.day);
        proof {
            assert(s@ =~= render_ymd(self@.0, self@.1, self@.2));
        }
        s
    }
}

fn push_two(s: &mut String, n: u32)
    requires
        n < 100,
    ensures
        final(s)@ == old(s)@ + pad2(n as int),
{
    let hi = ((n / 10) as u8 + 48u8) as char;
    let lo = ((n % 10) as u8 + 48u8) as char;
    push_char(s, hi);
    push_char(s, lo);
    proof {
        assert(final(s)@ =~= old(s)@ + pad2(n as int));
    }
}

/// Whether `s` is syntactically `YYYY-MM-DD`. Stricter than chrono's `%Y-%m-%d`, which also
/// accepts `2026-7-1`.
pub fn is_iso_shape(s: &str) -> (r: bool)
    ensures
        r == is_iso_shape_text(s@),
{
    let n = s.unicode_len();
    if n != 10 {
        return false;
    }
    let mut i: usize = 0;
    while i < 10
        invariant
            n == s@.len() == 10,
            i <= 10,
            forall|j: int|
                0 <= j < i ==> if j == 4 || j == 7 {
                    #[trigger] s@[j] == '-'
                } else {
                    is_digit(s@[j])
                },
        decreases 10 - i,
    {
        let c = s.get_char(i);
        let ok = if i == 4 || i == 7 {
            c == '-'
        } else {
            '0' <= c && c <= '9'
        };
        if !ok {
            assert(!(if i == 4 || i == 7 {
                s@[i as int] == '-'
            } else {
                is_digit(s@[i as int])
            }));
            return false;
        }
        i = i + 1;
    }
    true
}

impl PartialOrd for IsoDate {
    fn partial_cmp(&self, other: &IsoDate) -> (r: Option<core::cmp::Ordering>) {
        if self.year < other.year || (self.year == other.year && (self.month < other.month || (
        self.month == other.month && self.day < other.day))) {
            Some(core::cmp::Ordering::Less)
        } else if self.year == other.year && self.month == other.month && self.day == other.day {
            Some(core::cmp::Ordering::Equal)
        } else {
            Some(core::cmp::Ordering::Greater)
        }
    }
}

impl vstd::std_specs::cmp::PartialOrdSpecImpl for IsoDate {
    open spec fn obeys_partial_cmp_spec() -> bool {
        true
    }

    open spec fn partial_cmp_spec(&self, other: &IsoDate) -> Option<core::cmp::Ordering> {
        if before(*self, *other) {
            Some(core::cmp::Ordering::Less)
        } else if self@ == other@ {
            Some(core::cmp::Ordering::Equal)
        } else {
            Some(core::cmp::Ordering::Greater)
        }
    }
}

/// Whether `a` is an earlier day than `b`: by year, then month, then day.
pub open spec fn before(a: IsoDate, b: IsoDate) -> bool {
    a@.0 < b@.0 || (a@.0 == b@.0 && (a@.1 < b@.1 || (a@.1 == b@.1 && a@.2 < b@.2)))
}

proof fn lemma_pad2_of_digits(t: Seq<char>, i: int)
    requires
        0 <= i,
        i + 1 < t.len(),
        is_digit(t[i]),
        is_digit(t[i + 1]),
    ensures
        pad2(two_digits(t, i)) == t.subrange(i, i + 2),
{
    let a = digit_value(t[i]);
    let b = digit_value(t[i + 1]);
    assert(0 <= a < 10 && 0 <= b < 10);
    assert((a * 10 + b) / 10 == a);
    assert((a * 10 + b) % 10 == b);
    assert(digit_char(a) == t[i]);
    assert(digit_char(b) == t[i + 1]);
    assert(pad2(two_digits(t, i)) =~= t.subrange(i, i + 2));
}

/// What is accepted is what is rendered: reading a date and writing it back gives the
/// trimmed text, character for character.
pub proof fn lemma_read_render_round_trip(s: Seq<char>)
    requires
        read_date(s) is Ok,
    ensures
        render_ymd(read_date(s)->Ok_0.0, read_date(s)->Ok_0.1, read_date(s)->Ok_0.2) == trimmed(s),
{
    let t = trimmed(s);
    assert(is_digit(t[0]) && is_digit(t[1]) && is_digit(t[2]) && is_digit(t[3]));
    assert(is_digit(t[5]) && is_digit(t[6]) && is_digit(t[8]) && is_digit(t[9]));
    assert(t[4] == '-' && t[7] == '-');
    lemma_pad2_of_digits(t, 0);
    lemma_pad2_of_digits(t, 2);
    lemma_pad2_of_digits(t, 5);
    lemma_pad2_of_digits(t, 8);
    let y = two_digits(t, 0) * 100 + two_digits(t, 2);
    assert(0 <= two_digits(t, 2) < 100);
    assert(y / 100 == two_digits(t, 0));
    assert(y % 100 == two_digits(t, 2));
    assert(render_ymd(ymd_of(t).0, ymd_of(t).1, ymd_of(t).2) =~= t);
}

} // verus!
