//! The dates a report's time series is sampled on: every day or week across the window, or
//! every month end inside it, always closed by the window's last day.

use vstd::prelude::*;

use crate::calendar::{
    days_after, days_before, days_in, earlier, is_day, lemma_day_view_injective, lemma_next_day_is_a_day,
    lenient_ymd, Day, MAX_DAY_YEAR, MIN_DAY_YEAR,
};
use crate::iso_date::{days_in_month, is_calendar_date};

verus! {

/// How far apart a time series' samples are.
#[derive(Debug, Clone, Copy, PartialEq, Eq, Structural, Hash)]
pub enum Interval {
    Day,
    Week,
    Month,
}

/// The most samples a daily or weekly series takes before the window's last day.
pub const MAX_STEPPED_SAMPLES: usize = 400;

/// The most month ends a monthly series takes.
pub const MAX_MONTH_END_SAMPLES: usize = 600;

/// The last day of month `m` of year `y`; month 0 stands for the December before year `y`.
pub open spec fn month_end(y: int, m: int) -> (int, int, int) {
    if m == 0 {
        (y - 1, 12, 31)
    } else {
        (y, m, days_in_month(y, m))
    }
}

/// The month after month `m` of year `y`.
pub open spec fn next_month(y: int, m: int) -> (int, int) {
    if m == 12 {
        (y + 1, 1)
    } else {
        (y, m + 1)
    }
}

/// Every `step`-th day from `d` on that is still before `to`, at most `budget` of them.
pub open spec fn stepped_days(d: (int, int, int), to: (int, int, int), step: nat, budget: nat) -> Seq<
    (int, int, int),
>
    decreases budget,
{
    if budget == 0 || !earlier(d, to) {
        seq![]
    } else {
        seq![d] + stepped_days(days_after(d, step), to, step, (budget - 1) as nat)
    }
}

/// The month ends from month `m` of year `y` on that are no later than `to`, at most `budget`
/// of them.
pub open spec fn month_ends(y: int, m: int, to: (int, int, int), budget: nat) -> Seq<
    (int, int, int),
>
    decreases budget,
{
    if budget == 0 || earlier(to, month_end(y, m)) {
        seq![]
    } else {
        seq![month_end(y, m)] + month_ends(
            next_month(y, m).0,
            next_month(y, m).1,
            to,
            (budget - 1) as nat,
        )
    }
}

/// `s`, followed by `to` unless it already ends there.
pub open spec fn closed_by(s: Seq<(int, int, int)>, to: (int, int, int)) -> Seq<(int, int, int)> {
    if s.len() > 0 && s.last() == to {
        s
    } else {
        s.push(to)
    }
}

/// The days a series over `from..=to` is sampled on. A window that ends before it starts is
/// sampled once, on its last day.
pub open spec fn samples(from: (int, int, int), to: (int, int, int), interval: Interval) -> Seq<
    (int, int, int),
> {
    if earlier(to, from) {
        seq![to]
    } else {
        closed_by(
            match interval {
                Interval::Day => stepped_days(from, to, 1, MAX_STEPPED_SAMPLES as nat),
                Interval::Week => stepped_days(from, to, 7, MAX_STEPPED_SAMPLES as nat),
                Interval::Month => month_ends(from.0, from.1, to, MAX_MONTH_END_SAMPLES as nat),
            },
            to,
        )
    }
}

/// Whether each day in `s` is earlier than every day after it.
pub open spec fn strictly_increasing(s: Seq<(int, int, int)>) -> bool {
    forall|i: int, j: int| 0 <= i < j < s.len() ==> earlier(#[trigger] s[i], #[trigger] s[j])
}

/// The views of a list of days.
pub open spec fn day_views(v: Seq<Day>) -> Seq<(int, int, int)> {
    v.map_values(|d: Day| d@)
}

/// The last day of month `m` of year `y`. Month 0 gives the last day of the December before
/// `y`, as stepping back from the first of January does.
pub fn last_day_of_month(y: i32, m: u32) -> (r: Day)
    requires
        m <= 12,
        MIN_DAY_YEAR <= y <= MAX_DAY_YEAR,
        m == 0 ==> y > MIN_DAY_YEAR,
        m == 12 ==> y < MAX_DAY_YEAR,
    ensures
        r@ == month_end(y as int, m as int),
{
    if m == 0 {
        Day::from_parts(y - 1, 12, 31).unwrap()
    } else {
        Day::from_parts(y, m, days_in(y, m)).unwrap()
    }
}

/// The day `n` days after `d`, for a `d` before `to` and a `to` before the last year a day can
/// reach, which leaves room for a week.
fn days_later(d: Day, n: u32, to: Day) -> (r: Day)
    requires
        n <= 7,
        earlier(d@, to@),
        to@.0 < MAX_DAY_YEAR,
    ensures
        r@ == days_after(d@, n as nat),
{
    let mut cur = d;
    let mut i: u32 = 0;
    proof {
        use_type_invariant(&d);
        use_type_invariant(&to);
    }
    while i < n
        invariant
            i <= n <= 7,
            cur@ == days_after(d@, i as nat),
            is_day(cur@.0, cur@.1, cur@.2),
            cur@.0 < MAX_DAY_YEAR || (cur@.0 == MAX_DAY_YEAR && cur@.1 == 1 && cur@.2 <= i),
        decreases n - i,
    {
        proof {
            lemma_next_day_is_a_day(cur@);
        }
        cur = cur.next();
        i = i + 1;
    }
    cur
}

/// The days a report's series over `from..=to` is sampled on: every day or every week from
/// `from` while before `to` (at most 400), or every month end from `from`'s month on that is
/// no later than `to` (at most 600), closed by `to` itself. A window that ends before it
/// starts is sampled once, on `to`.
pub fn sample_dates(from: Day, to: Day, interval: Interval) -> (r: Vec<Day>)
    requires
        !earlier(to@, from@) ==> to@.0 < MAX_DAY_YEAR,
    ensures
        day_views(r@) == samples(from@, to@, interval),
        r@.len() >= 1,
        r@.last() == to,
        strictly_increasing(day_views(r@)),
{
    proof {
        use_type_invariant(&from);
        use_type_invariant(&to);
    }
    if to.is_before(&from) {
        let out = vec![to];
        proof {
            assert(day_views(out@) =~= seq![to@]);
        }
        return out;
    }
    let mut out: Vec<Day> = Vec::new();
    let ghost series: Seq<(int, int, int)>;
    match interval {
        Interval::Day | Interval::Week => {
            let step: u32 = if interval == Interval::Week {
                7
            } else {
                1
            };
            let ghost whole = stepped_days(from@, to@, step as nat, MAX_STEPPED_SAMPLES as nat);
            let mut d = from;
            proof {
                lemma_stepped_days_shape(from@, to@, step as nat, MAX_STEPPED_SAMPLES as nat);
            }
            while d.is_before(&to) && out.len() < MAX_STEPPED_SAMPLES
                invariant
                    step == 1 || step == 7,
                    to@.0 < MAX_DAY_YEAR,
                    out@.len() <= MAX_STEPPED_SAMPLES,
                    day_views(out@) + stepped_days(
                        d@,
                        to@,
                        step as nat,
                        (MAX_STEPPED_SAMPLES - out@.len()) as nat,
                    ) == whole,
                decreases MAX_STEPPED_SAMPLES - out@.len(),
            {
                let ghost before = day_views(out@);
                out.push(d);
                proof {
                    assert(day_views(out@) =~= before.push(d@));
                    assert(before + stepped_days(
                        d@,
                        to@,
                        step as nat,
                        (MAX_STEPPED_SAMPLES - before.len()) as nat,
                    ) =~= before.push(d@) + stepped_days(
                        days_after(d@, step as nat),
                        to@,
                        step as nat,
                        (MAX_STEPPED_SAMPLES - before.len() - 1) as nat,
                    ));
                }
                d = days_later(d, step, to);
            }
            proof {
                assert(day_views(out@) =~= whole);
                series = whole;
            }
        },
        Interval::Month => {
            let ghost whole = month_ends(from@.0, from@.1, to@, MAX_MONTH_END_SAMPLES as nat);
            let mut y: i32 = from.year();
            let mut m: u32 = from.month();
            proof {
                lemma_month_ends_shape(from@.0, from@.1, to@, MAX_MONTH_END_SAMPLES as nat);
            }
            while out.len() < MAX_MONTH_END_SAMPLES
                invariant
                    1 <= m <= 12,
                    is_calendar_date(from@.0, from@.1, from@.2),
                    !earlier(to@, from@),
                    to@.0 < MAX_DAY_YEAR,
                    MIN_DAY_YEAR <= from@.0 <= y <= to@.0 + 1,
                    y == to@.0 + 1 ==> m == 1,
                    y > from@.0 || m >= from@.1,
                    out@.len() <= MAX_MONTH_END_SAMPLES,
                    day_views(out@) + month_ends(
                        y as int,
                        m as int,
                        to@,
                        (MAX_MONTH_END_SAMPLES - out@.len()) as nat,
                    ) == whole,
                ensures
                    day_views(out@) == whole,
                decreases MAX_MONTH_END_SAMPLES - out@.len(),
            {
                let end = last_day_of_month(y, m);
                if to.is_before(&end) {
                    proof {
                        assert(day_views(out@) =~= whole);
                    }
                    break;
                }
                let ghost before = day_views(out@);
                if !end.is_before(&from) {
                    out.push(end);
                }
                proof {
                    assert(day_views(out@) =~= before.push(end@));
                    let nm = next_month(y as int, m as int);
                    assert(before + month_ends(
                        y as int,
                        m as int,
                        to@,
                        (MAX_MONTH_END_SAMPLES - before.len()) as nat,
                    ) =~= before.push(end@) + month_ends(
                        nm.0,
                        nm.1,
                        to@,
                        (MAX_MONTH_END_SAMPLES - before.len() - 1) as nat,
                    ));
                }
                if m == 12 {
                    y = y + 1;
                    m = 1;
                } else {
                    m = m + 1;
                }
            }
            proof {
                assert(day_views(out@) =~= whole);
                series = whole;
            }
        },
    }
    let ends_at_to = out.len() > 0 && same_day(&out[out.len() - 1], &to);
    if !ends_at_to {
        let ghost before = day_views(out@);
        out.push(to);
        proof {
            assert(day_views(out@) =~= before.push(to@));
        }
    }
    proof {
        assert(day_views(out@) == samples(from@, to@, interval));
        lemma_closed_by_increases(series, to@);
        assert(day_views(out@).last() == to@);
        lemma_day_view_injective(out@.last(), to);
    }
    out
}

/// Whether two days are the same day.
fn same_day(a: &Day, b: &Day) -> (r: bool)
    ensures
        r <==> a@ == b@,
{
    !a.is_before(b) && !b.is_before(a)
}

/// Every day stepped to lies between the first one and `to`, strictly increasing, and each
/// one is a real day.
proof fn lemma_stepped_days_shape(d: (int, int, int), to: (int, int, int), step: nat, budget: nat)
    requires
        is_calendar_date(d.0, d.1, d.2),
        step >= 1,
    ensures
        strictly_increasing(stepped_days(d, to, step, budget)),
        forall|i: int|
            0 <= i < stepped_days(d, to, step, budget).len() ==> earlier(
                #[trigger] stepped_days(d, to, step, budget)[i],
                to,
            ) && !earlier(stepped_days(d, to, step, budget)[i], d),
    decreases budget,
{
    let s = stepped_days(d, to, step, budget);
    if budget == 0 || !earlier(d, to) {
        return;
    }
    let next = days_after(d, step);
    lemma_days_after_is_later(d, step);
    lemma_stepped_days_shape(next, to, step, (budget - 1) as nat);
    let rest = stepped_days(next, to, step, (budget - 1) as nat);
    assert(s == seq![d] + rest);
    assert forall|i: int, j: int| 0 <= i < j < s.len() implies earlier(
        #[trigger] s[i],
        #[trigger] s[j],
    ) by {
        if i == 0 {
            assert(s[j] == rest[j - 1]);
        } else {
            assert(s[i] == rest[i - 1] && s[j] == rest[j - 1]);
        }
    }
    assert forall|i: int| 0 <= i < s.len() implies earlier(#[trigger] s[i], to) && !earlier(
        s[i],
        d,
    ) by {
        if i > 0 {
            assert(s[i] == rest[i - 1]);
        }
    }
}

/// Stepping forward at least one day from a real day reaches a later real day.
proof fn lemma_days_after_is_later(d: (int, int, int), n: nat)
    requires
        is_calendar_date(d.0, d.1, d.2),
    ensures
        is_calendar_date(days_after(d, n).0, days_after(d, n).1, days_after(d, n).2),
        n >= 1 ==> earlier(d, days_after(d, n)),
    decreases n,
{
    if n > 0 {
        lemma_days_after_is_later(d, (n - 1) as nat);
        let prev = days_after(d, (n - 1) as nat);
        lemma_next_day_is_a_day(prev);
    }
}

/// Month ends from a real month on are strictly increasing, no later than `to`, and no earlier
/// than the first one.
proof fn lemma_month_ends_shape(y: int, m: int, to: (int, int, int), budget: nat)
    requires
        1 <= m <= 12,
    ensures
        strictly_increasing(month_ends(y, m, to, budget)),
        forall|i: int|
            0 <= i < month_ends(y, m, to, budget).len() ==> !earlier(
                to,
                #[trigger] month_ends(y, m, to, budget)[i],
            ) && !earlier(month_ends(y, m, to, budget)[i], month_end(y, m)),
    decreases budget,
{
    let s = month_ends(y, m, to, budget);
    if budget == 0 || earlier(to, month_end(y, m)) {
        return;
    }
    let nm = next_month(y, m);
    lemma_month_ends_shape(nm.0, nm.1, to, (budget - 1) as nat);
    let rest = month_ends(nm.0, nm.1, to, (budget - 1) as nat);
    assert(s == seq![month_end(y, m)] + rest);
    assert(earlier(month_end(y, m), month_end(nm.0, nm.1)));
    assert forall|i: int, j: int| 0 <= i < j < s.len() implies earlier(
        #[trigger] s[i],
        #[trigger] s[j],
    ) by {
        if i == 0 {
            assert(s[j] == rest[j - 1]);
        } else {
            assert(s[i] == rest[i - 1] && s[j] == rest[j - 1]);
        }
    }
    assert forall|i: int| 0 <= i < s.len() implies !earlier(to, #[trigger] s[i]) && !earlier(
        s[i],
        month_end(y, m),
    ) by {
        if i > 0 {
            assert(s[i] == rest[i - 1]);
        }
    }
}

/// Closing an increasing series that never passes `to` by `to` keeps it increasing.
proof fn lemma_closed_by_increases(s: Seq<(int, int, int)>, to: (int, int, int))
    requires
        strictly_increasing(s),
        forall|i: int| 0 <= i < s.len() ==> !earlier(to, #[trigger] s[i]),
    ensures
        strictly_increasing(closed_by(s, to)),
{
    if !(s.len() > 0 && s.last() == to) {
        let c = s.push(to);
        assert forall|i: int, j: int| 0 <= i < j < c.len() implies earlier(
            #[trigger] c[i],
            #[trigger] c[j],
        ) by {
            if j == s.len() {
                assert(!earlier(to, s[i]));
                if i < s.len() - 1 {
                    assert(earlier(s[i], s[s.len() - 1]));
                    assert(!earlier(to, s[s.len() - 1]));
                }
            }
        }
    }
}

/// The day some optional text reads as, tolerantly; `None` when there is no text or it does
/// not read as a day.
pub open spec fn read_day(s: Option<Seq<char>>) -> Option<(int, int, int)> {
    match s {
        Some(t) => lenient_ymd(t),
        None => None,
    }
}

/// A query's optional text as characters.
pub open spec fn text_of(s: Option<&str>) -> Option<Seq<char>> {
    match s {
        Some(t) => Some(t@),
        None => None,
    }
}

/// The window a report covers, from its query's `from` and `to`: `to` as given, else `today`;
/// `from` as given, else the earliest posting on record, else `to`. A bound that does not read
/// as a day counts as not given, so a typo falls back to the default rather than failing.
/// The earliest posting is only consulted when `from` does not read.
pub fn report_window(from: Option<&str>, to: Option<&str>, today: Day, earliest: Option<&str>) -> (r:
    (Day, Day))
    ensures
        r.1@ == match read_day(text_of(to)) {
            Some(d) => d,
            None => today@,
        },
        r.0@ == match read_day(text_of(from)) {
            Some(d) => d,
            None => match read_day(text_of(earliest)) {
                Some(d) => d,
                None => r.1@,
            },
        },
{
    let end = match to {
        Some(t) => match Day::parse(t) {
            Some(d) => d,
            None => today,
        },
        None => today,
    };
    let start = match from {
        Some(f) => Day::parse(f),
        None => None,
    };
    let start = match start {
        Some(d) => d,
        None => {
            let first = match earliest {
                Some(e) => Day::parse(e),
                None => None,
            };
            match first {
                Some(d) => d,
                None => end,
            }
        },
    };
    (start, end)
}

/// The earlier of two optional days.
pub open spec fn earlier_of(a: Option<(int, int, int)>, b: Option<(int, int, int)>) -> Option<
    (int, int, int),
> {
    match (a, b) {
        (Some(x), Some(y)) => if earlier(y, x) {
            Some(y)
        } else {
            Some(x)
        },
        (Some(x), None) => Some(x),
        (None, y) => y,
    }
}

/// The window the net-worth series covers: `to` as given, else `today`; `from` as given, else
/// the earliest transaction or valuation on record, else a year before `to`. A bound that does
/// not read as a day counts as not given. The earliest dates are only consulted when `from`
/// does not read; a year before `to` is only reached past the first year a day can hold.
pub fn net_worth_window(
    from: Option<&str>,
    to: Option<&str>,
    today: Day,
    earliest_transaction: Option<&str>,
    earliest_valuation: Option<&str>,
) -> (r: (Day, Day))
    requires
        read_day(text_of(from)) is None && read_day(text_of(earliest_transaction)) is None
            && read_day(text_of(earliest_valuation)) is None ==> match read_day(text_of(to)) {
            Some(d) => d,
            None => today@,
        }.0 > MIN_DAY_YEAR,
    ensures
        r.1@ == match read_day(text_of(to)) {
            Some(d) => d,
            None => today@,
        },
        r.0@ == match read_day(text_of(from)) {
            Some(d) => d,
            None => match earlier_of(
                read_day(text_of(earliest_transaction)),
                read_day(text_of(earliest_valuation)),
            ) {
                Some(d) => d,
                None => days_before(r.1@, 365),
            },
        },
{
    let end = match to {
        Some(t) => match Day::parse(t) {
            Some(d) => d,
            None => today,
        },
        None => today,
    };
    let given = match from {
        Some(f) => Day::parse(f),
        None => None,
    };
    let start = match given {
        Some(d) => d,
        None => {
            let tx = match earliest_transaction {
                Some(e) => Day::parse(e),
                None => None,
            };
            let val = match earliest_valuation {
                Some(e) => Day::parse(e),
                None => None,
            };
            match (tx, val) {
                (Some(x), Some(y)) => if y.is_before(&x) {
                    y
                } else {
                    x
                },
                (Some(x), None) => x,
                (None, Some(y)) => y,
                (None, None) => end.days_earlier(365),
            }
        },
    };
    (start, end)
}

} // verus!
