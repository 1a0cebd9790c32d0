//! An account's value as of a date, from its valuations and its movements.
//!
//! Three cases, in order:
//! 1. a valuation on or before the date: the latest such one is the value;
//! 2. no valuation that early, but a later one: walk back from the earliest valuation by
//!    subtracting the movements after the date, or read zero before the account's first
//!    movement (it had not been opened yet);
//! 3. no valuations at all: the running total of the movements up to the date.
//!
//! Cases 2 and 3 add movements up, and an account can hold more than one currency. Movements
//! in the currency the answer is quoted in are added as they are; every other currency is
//! subtotalled once and has to be converted before it can be added. The walk is therefore
//! taken in two steps: [`value_walk`] decides the case and the subtotals, and
//! [`value_from_walk`] finishes it from whatever the converter made of each foreign subtotal.

use vstd::prelude::*;

use crate::call_sites::{lemma_text_le_total, text_le, text_no_later};
use crate::calendar::{earlier, Day};
use crate::reports::clamp_to_i64;
use crate::text::str_eq;

verus! {

broadcast use vstd::seq_lib::group_to_multiset_ensures;

/// One dated amount in a currency, as the ledger carries movements and valuations.
pub type Dated = (Day, i64, String);

/// A dated amount read as plain values: the day, the amount in minor units, the currency.
pub type DatedView = ((int, int, int), i64, Seq<char>);

/// The plain values of a list of dated amounts.
pub open spec fn dated_views(s: Seq<Dated>) -> Seq<DatedView> {
    s.map_values(|e: Dated| (e.0@, e.1, e.2@))
}

/// The valuation a date reads: the latest one on or before it, and of several equally late
/// ones the last listed.
pub open spec fn latest_on_or_before(vals: Seq<DatedView>, date: (int, int, int)) -> Option<
    DatedView,
>
    decreases vals.len(),
{
    if vals.len() == 0 {
        None
    } else {
        let rest = latest_on_or_before(vals.drop_last(), date);
        let e = vals.last();
        if !earlier(date, e.0) && match rest {
            Some(r) => !earlier(e.0, r.0),
            None => true,
        } {
            Some(e)
        } else {
            rest
        }
    }
}

/// The earliest entry, and of several equally early ones the first listed.
pub open spec fn earliest(s: Seq<DatedView>) -> Option<DatedView>
    decreases s.len(),
{
    if s.len() == 0 {
        None
    } else {
        let rest = earliest(s.drop_last());
        let e = s.last();
        match rest {
            Some(r) => if earlier(e.0, r.0) {
                Some(e)
            } else {
                rest
            },
            None => Some(e),
        }
    }
}

/// Whether day `d` falls in the window: after `after` (when there is one) and no later than
/// `through`.
pub open spec fn in_window(d: (int, int, int), after: Option<(int, int, int)>, through: (
    int,
    int,
    int,
)) -> bool {
    &&& match after {
        Some(a) => earlier(a, d),
        None => true,
    }
    &&& !earlier(through, d)
}

/// The total, in minor units, of the movements in currency `code` inside the window.
pub open spec fn window_sum(
    txs: Seq<DatedView>,
    code: Seq<char>,
    after: Option<(int, int, int)>,
    through: (int, int, int),
) -> int
    decreases txs.len(),
{
    if txs.len() == 0 {
        0
    } else {
        window_sum(txs.drop_last(), code, after, through) + if in_window(
            txs.last().0,
            after,
            through,
        ) && txs.last().2 == code {
            txs.last().1 as int
        } else {
            0
        }
    }
}

/// Whether some movement inside the window is in currency `code`.
pub open spec fn holds_currency(
    txs: Seq<DatedView>,
    code: Seq<char>,
    after: Option<(int, int, int)>,
    through: (int, int, int),
) -> bool {
    exists|j: int|
        0 <= j < txs.len() && in_window(#[trigger] txs[j].0, after, through) && txs[j].2 == code
}

/// The index of the valuation `date` reads, if any; see [`latest_on_or_before`].
fn latest_index(vals: &[Dated], date: &Day) -> (r: Option<usize>)
    ensures
        match latest_on_or_before(dated_views(vals@), date@) {
            Some(e) => r matches Some(k) && k < vals@.len() && dated_views(vals@)[k as int] == e,
            None => r is None,
        },
{
    let mut best: Option<usize> = None;
    let mut i: usize = 0;
    while i < vals.len()
        invariant
            i <= vals@.len(),
            match latest_on_or_before(dated_views(vals@).take(i as int), date@) {
                Some(e) => best matches Some(k) && k < i && dated_views(vals@)[k as int] == e,
                None => best is None,
            },
        decreases vals@.len() - i,
    {
        proof {
            assert(dated_views(vals@).take(i + 1).drop_last() =~= dated_views(vals@).take(
                i as int,
            ));
        }
        let d = &vals[i].0;
        if !date.is_before(d) {
            let later = match best {
                Some(k) => !d.is_before(&vals[k].0),
                None => true,
            };
            if later {
                best = Some(i);
            }
        }
        i = i + 1;
    }
    proof {
        assert(dated_views(vals@).take(i as int) =~= dated_views(vals@));
    }
    best
}

/// The index of the earliest entry, if any; see [`earliest`].
fn earliest_index(s: &[Dated]) -> (r: Option<usize>)
    ensures
        match earliest(dated_views(s@)) {
            Some(e) => r matches Some(k) && k < s@.len() && dated_views(s@)[k as int] == e,
            None => r is None,
        },
{
    let mut best: Option<usize> = None;
    let mut i: usize = 0;
    while i < s.len()
        invariant
            i <= s@.len(),
            match earliest(dated_views(s@).take(i as int)) {
                Some(e) => best matches Some(k) && k < i && dated_views(s@)[k as int] == e,
                None => best is None,
            },
        decreases s@.len() - i,
    {
        proof {
            assert(dated_views(s@).take(i + 1).drop_last() =~= dated_views(s@).take(i as int));
        }
        let take = match best {
            Some(k) => s[i].0.is_before(&s[k].0),
            None => true,
        };
        if take {
            best = Some(i);
        }
        i = i + 1;
    }
    proof {
        assert(dated_views(s@).take(i as int) =~= dated_views(s@));
    }
    best
}

/// A movement total and the number of movements behind it stay within what `i128` holds:
/// each movement is at most 2^63 in size, and there are at most `u64::MAX` of them.
pub open spec fn totals_fit(own: int, foreign_count: int, movements: int) -> bool {
    &&& -own <= movements * 0x8000_0000_0000_0000 - foreign_count * 0x8000_0000_0000_0000
    &&& own <= movements * 0x8000_0000_0000_0000 - foreign_count * 0x8000_0000_0000_0000
    &&& movements <= u64::MAX
}

/// Whether `own` and `foreign` are the window's movements totalled for currency `target`:
/// `own` is the total in `target` itself, and `foreign` lists every other currency held in
/// the window once, sorted by code, with its total narrowed to `i64`.
pub open spec fn movements_match(
    own: int,
    foreign: Seq<(Seq<char>, i64)>,
    txs: Seq<DatedView>,
    target: Seq<char>,
    after: Option<(int, int, int)>,
    through: (int, int, int),
) -> bool {
    &&& own == window_sum(txs, target, after, through)
    &&& forall|k: int|
        0 <= k < foreign.len() ==> {
            &&& (#[trigger] foreign[k]).0 != target
            &&& holds_currency(txs, foreign[k].0, after, through)
            &&& foreign[k].1 == clamp_to_i64(window_sum(txs, foreign[k].0, after, through))
        }
    &&& forall|k: int| 0 <= k < foreign.len() - 1 ==> text_le(#[trigger] foreign[k].0, foreign[k + 1].0)
    &&& forall|i: int, j: int|
        0 <= i < j < foreign.len() ==> #[trigger] foreign[i].0 != #[trigger] foreign[j].0
    &&& forall|code: Seq<char>|
        code != target && #[trigger] holds_currency(txs, code, after, through) ==> exists|k: int|
            0 <= k < foreign.len() && #[trigger] foreign[k].0 == code
}

/// A currency no movement in the window is held in totals nothing.
proof fn lemma_window_sum_of_absent(
    txs: Seq<DatedView>,
    code: Seq<char>,
    after: Option<(int, int, int)>,
    through: (int, int, int),
)
    requires
        !holds_currency(txs, code, after, through),
    ensures
        window_sum(txs, code, after, through) == 0,
    decreases txs.len(),
{
    if txs.len() > 0 {
        let p = txs.drop_last();
        assert(!holds_currency(p, code, after, through)) by {
            if holds_currency(p, code, after, through) {
                let j = choose|j: int|
                    0 <= j < p.len() && in_window(#[trigger] p[j].0, after, through) && p[j].2
                        == code;
                assert(txs[j] == p[j]);
            }
        }
        lemma_window_sum_of_absent(p, code, after, through);
        assert(txs[txs.len() - 1] == txs.last());
    }
}

/// A currency is held in a longer list exactly when the shorter one holds it or the added
/// movement is in it, inside the window.
proof fn lemma_holds_after_push(
    txs: Seq<DatedView>,
    e: DatedView,
    code: Seq<char>,
    after: Option<(int, int, int)>,
    through: (int, int, int),
)
    ensures
        holds_currency(txs.push(e), code, after, through) <==> (holds_currency(
            txs,
            code,
            after,
            through,
        ) || (in_window(e.0, after, through) && e.2 == code)),
{
    let n = txs.push(e);
    if holds_currency(n, code, after, through) {
        let j = choose|j: int|
            0 <= j < n.len() && in_window(#[trigger] n[j].0, after, through) && n[j].2 == code;
        if j < txs.len() {
            assert(n[j] == txs[j]);
        }
    }
    if holds_currency(txs, code, after, through) {
        let j = choose|j: int|
            0 <= j < txs.len() && in_window(#[trigger] txs[j].0, after, through) && txs[j].2
                == code;
        assert(n[j] == txs[j]);
    }
    if in_window(e.0, after, through) && e.2 == code {
        assert(n[txs.len() as int] == e);
    }
}

/// The views of a list of currency subtotals.
pub open spec fn subtotal_views(g: Seq<(String, i128)>) -> Seq<(Seq<char>, int)> {
    g.map_values(|e: (String, i128)| (e.0@, e.1 as int))
}

/// Adding a movement adds its amount to its own currency's window total, when it falls in the
/// window, and leaves every other total alone.
proof fn lemma_window_sum_after_push(
    txs: Seq<DatedView>,
    e: DatedView,
    code: Seq<char>,
    after: Option<(int, int, int)>,
    through: (int, int, int),
)
    ensures
        window_sum(txs.push(e), code, after, through) == window_sum(txs, code, after, through)
            + if in_window(e.0, after, through) && e.2 == code {
            e.1 as int
        } else {
            0
        },
{
    assert(txs.push(e).drop_last() =~= txs);
}

/// Where currency `code` is among the subtotals, if it is.
fn find_currency(groups: &Vec<(String, i128)>, code: &str) -> (r: Option<usize>)
    ensures
        match r {
            Some(k) => k < groups@.len() && groups@[k as int].0@ == code@,
            None => forall|m: int| 0 <= m < groups@.len() ==> (#[trigger] groups@[m]).0@ != code@,
        },
{
    let mut k: usize = 0;
    while k < groups.len()
        invariant
            k <= groups@.len(),
            forall|m: int| 0 <= m < k ==> (#[trigger] groups@[m]).0@ != code@,
        decreases groups@.len() - k,
    {
        if str_eq(groups[k].0.as_str(), code) {
            return Some(k);
        }
        k = k + 1;
    }
    None
}

/// What the subtotals so far say of the first movements: `own` is the total in `target`, each
/// group is another currency held in the window with its exact total, the groups are sorted
/// by code with each code once, and every other currency held has a group.
pub open spec fn subtotals_match(
    own: int,
    groups: Seq<(Seq<char>, int)>,
    txs: Seq<DatedView>,
    target: Seq<char>,
    after: Option<(int, int, int)>,
    through: (int, int, int),
) -> bool {
    &&& own == window_sum(txs, target, after, through)
    &&& forall|k: int|
        0 <= k < groups.len() ==> {
            &&& (#[trigger] groups[k]).0 != target
            &&& holds_currency(txs, groups[k].0, after, through)
            &&& groups[k].1 == window_sum(txs, groups[k].0, after, through)
        }
    &&& forall|k: int| 0 <= k < groups.len() - 1 ==> text_le(#[trigger] groups[k].0, groups[k + 1].0)
    &&& forall|a: int, b: int|
        0 <= a < b < groups.len() ==> #[trigger] groups[a].0 != #[trigger] groups[b].0
    &&& forall|code: Seq<char>|
        code != target && #[trigger] holds_currency(txs, code, after, through) ==> exists|k: int|
            0 <= k < groups.len() && #[trigger] groups[k].0 == code
}

/// The movements inside the window, totalled for currency `target`: the total in `target`,
/// and every other currency's total, sorted by code and narrowed to `i64`.
#[verifier::spinoff_prover]
#[verifier::rlimit(40)]
fn window_totals(
    txs: &[Dated],
    target: &str,
    after: Option<Day>,
    through: &Day,
) -> (r: (i128, Vec<(String, i64)>))
    ensures
        movements_match(
            r.0 as int,
            r.1@.map_values(|e: (String, i64)| (e.0@, e.1)),
            dated_views(txs@),
            target@,
            match after {
                Some(a) => Some(a@),
                None => None,
            },
            through@,
        ),
        totals_fit(r.0 as int, r.1@.len() as int, txs@.len() as int),
{
    let ghost t = dated_views(txs@);
    let ghost aft = match after {
        Some(a) => Some(a@),
        None => None,
    };
    let ghost thr = through@;
    let mut own: i128 = 0;
    let ghost mut own_count: int = 0;
    let mut groups: Vec<(String, i128)> = Vec::new();
    let mut i: usize = 0;
    proof {
        assert(t.take(0) =~= Seq::<DatedView>::empty());
        assert forall|code: Seq<char>| !#[trigger] holds_currency(t.take(0), code, aft, thr) by {}
    }
    while i < txs.len()
        invariant
            i <= txs@.len(),
            t == dated_views(txs@),
            aft == match after {
                Some(a) => Some(a@),
                None => None::<(int, int, int)>,
            },
            thr == through@,
            subtotals_match(own as int, subtotal_views(groups@), t.take(i as int), target@, aft, thr),
            0 <= own_count,
            own_count + groups@.len() <= i,
            -own <= own_count * 0x8000_0000_0000_0000,
            own <= own_count * 0x8000_0000_0000_0000,
            forall|k: int|
                0 <= k < groups@.len() ==> -(#[trigger] groups@[k]).1 <= i * 0x8000_0000_0000_0000
                    && groups@[k].1 <= i * 0x8000_0000_0000_0000,
        decreases txs@.len() - i,
    {
        let ghost prev = t.take(i as int);
        let ghost next = t.take(i + 1);
        let ghost e = t[i as int];
        let ghost old_g = subtotal_views(groups@);
        let row = &txs[i];
        proof {
            assert(next =~= prev.push(e));
            assert(e == (row.0@, row.1, row.2@));
            assert forall|code: Seq<char>|
                #[trigger] holds_currency(next, code, aft, thr) <==> (holds_currency(
                    prev,
                    code,
                    aft,
                    thr,
                ) || (in_window(e.0, aft, thr) && e.2 == code)) by {
                lemma_holds_after_push(prev, e, code, aft, thr);
            }
            assert forall|code: Seq<char>|
                #[trigger] window_sum(next, code, aft, thr) == window_sum(prev, code, aft, thr)
                    + if in_window(e.0, aft, thr) && e.2 == code {
                    e.1 as int
                } else {
                    0
                } by {
                lemma_window_sum_after_push(prev, e, code, aft, thr);
            }
        }
        let inside = match &after {
            Some(a) => a.is_before(&row.0),
            None => true,
        } && !through.is_before(&row.0);
        if !inside {
            proof {
                assert(subtotal_views(groups@) == old_g);
                assert forall|k: int| 0 <= k < old_g.len() implies {
                    &&& (#[trigger] old_g[k]).0 != target@
                    &&& holds_currency(next, old_g[k].0, aft, thr)
                    &&& old_g[k].1 == window_sum(next, old_g[k].0, aft, thr)
                } by {}
            }
        } else if str_eq(row.2.as_str(), target) {
            own = own + row.1 as i128;
            proof {
                own_count = own_count + 1;
                assert forall|k: int| 0 <= k < old_g.len() implies {
                    &&& (#[trigger] old_g[k]).0 != target@
                    &&& holds_currency(next, old_g[k].0, aft, thr)
                    &&& old_g[k].1 == window_sum(next, old_g[k].0, aft, thr)
                } by {}
            }
        } else {
            match find_currency(&groups, row.2.as_str()) {
                Some(k) => {
                    let code = groups[k].0.clone();
                    let sub = groups[k].1;
                    groups.set(k, (code, sub + row.1 as i128));
                    proof {
                        let new_g = subtotal_views(groups@);
                        assert(new_g =~= old_g.update(k as int, (e.2, old_g[k as int].1 + e.1)));
                        assert forall|m: int| 0 <= m < new_g.len() implies {
                            &&& (#[trigger] new_g[m]).0 != target@
                            &&& holds_currency(next, new_g[m].0, aft, thr)
                            &&& new_g[m].1 == window_sum(next, new_g[m].0, aft, thr)
                        } by {
                            if m != k {
                                assert(old_g[m].0 != old_g[k as int].0);
                            }
                        }
                        assert forall|a: int, b: int|
                            0 <= a < b < new_g.len() implies #[trigger] new_g[a].0
                            != #[trigger] new_g[b].0 by {
                            assert(new_g[a].0 == old_g[a].0 && new_g[b].0 == old_g[b].0);
                        }
                        assert forall|m: int| 0 <= m < new_g.len() - 1 implies text_le(
                            #[trigger] new_g[m].0,
                            new_g[m + 1].0,
                        ) by {
                            assert(new_g[m].0 == old_g[m].0 && new_g[m + 1].0 == old_g[m + 1].0);
                        }
                        assert forall|c: Seq<char>|
                            c != target@ && #[trigger] holds_currency(
                                next,
                                c,
                                aft,
                                thr,
                            ) implies exists|m: int|
                            0 <= m < new_g.len() && #[trigger] new_g[m].0 == c by {
                            if holds_currency(prev, c, aft, thr) {
                                let m = choose|m: int| 0 <= m < old_g.len() && #[trigger] old_g[m].0 == c;
                                assert(new_g[m].0 == c);
                            } else {
                                assert(new_g[k as int].0 == c);
                            }
                        }
                    }
                },
                None => {
                    let mut j: usize = 0;
                    while j < groups.len() && text_no_later(groups[j].0.as_str(), row.2.as_str())
                        invariant
                            j <= groups@.len(),
                            j > 0 ==> text_le(groups@[j - 1].0@, row.2@),
                        decreases groups@.len() - j,
                    {
                        j = j + 1;
                    }
                    proof {
                        if j < groups@.len() {
                            lemma_text_le_total(groups@[j as int].0@, row.2@);
                        }
                        if holds_currency(prev, e.2, aft, thr) {
                            let m = choose|m: int| 0 <= m < old_g.len() && #[trigger] old_g[m].0 == e.2;
                            assert(groups@[m].0@ == old_g[m].0);
                        }
                        lemma_window_sum_of_absent(prev, e.2, aft, thr);
                    }
                    groups.insert(j, (row.2.clone(), row.1 as i128));
                    proof {
                        let new_g = subtotal_views(groups@);
                        let x = (e.2, e.1 as int);
                        assert(new_g =~= old_g.insert(j as int, x));
                        assert forall|m: int| 0 <= m < new_g.len() implies new_g[m] == if m < j {
                            old_g[m]
                        } else if m == j {
                            x
                        } else {
                            old_g[m - 1]
                        } by {}
                        assert forall|m: int| 0 <= m < new_g.len() implies {
                            &&& (#[trigger] new_g[m]).0 != target@
                            &&& holds_currency(next, new_g[m].0, aft, thr)
                            &&& new_g[m].1 == window_sum(next, new_g[m].0, aft, thr)
                        } by {
                            if m < j {
                                assert(new_g[m] == old_g[m]);
                            } else if m > j {
                                assert(new_g[m] == old_g[m - 1]);
                            }
                        }
                        assert forall|a: int, b: int|
                            0 <= a < b < new_g.len() implies #[trigger] new_g[a].0
                            != #[trigger] new_g[b].0 by {
                            if a != j && b != j {
                                let oa = if a < j {
                                    a
                                } else {
                                    a - 1
                                };
                                let ob = if b < j {
                                    b
                                } else {
                                    b - 1
                                };
                                assert(new_g[a] == old_g[oa] && new_g[b] == old_g[ob]);
                            } else if a == j {
                                assert(new_g[b] == old_g[b - 1]);
                            } else {
                                assert(new_g[a] == old_g[a]);
                            }
                        }
                        assert forall|m: int| 0 <= m < new_g.len() - 1 implies text_le(
                            #[trigger] new_g[m].0,
                            new_g[m + 1].0,
                        ) by {
                            if m < j - 1 {
                                assert(new_g[m] == old_g[m] && new_g[m + 1] == old_g[m + 1]);
                            } else if m == j - 1 {
                                assert(new_g[m] == old_g[m] && new_g[m + 1] == x);
                            } else if m == j {
                                assert(new_g[m] == x && new_g[m + 1] == old_g[m]);
                            } else {
                                assert(new_g[m] == old_g[m - 1] && new_g[m + 1] == old_g[m]);
                            }
                        }
                        assert forall|c: Seq<char>|
                            c != target@ && #[trigger] holds_currency(
                                next,
                                c,
                                aft,
                                thr,
                            ) implies exists|m: int|
                            0 <= m < new_g.len() && #[trigger] new_g[m].0 == c by {
                            if holds_currency(prev, c, aft, thr) {
                                let m = choose|m: int| 0 <= m < old_g.len() && #[trigger] old_g[m].0 == c;
                                if m < j {
                                    assert(new_g[m].0 == c);
                                } else {
                                    assert(new_g[m + 1].0 == c);
                                }
                            } else {
                                assert(new_g[j as int].0 == c);
                            }
                        }
                        assert forall|m: int| 0 <= m < groups@.len() implies -(
                        #[trigger] groups@[m]).1 <= (i + 1) * 0x8000_0000_0000_0000 && groups@[m].1
                            <= (i + 1) * 0x8000_0000_0000_0000 by {
                            assert(groups@[m].1 == new_g[m].1);
                        }
                    }
                },
            }
        }
        i = i + 1;
    }
    let ghost g = subtotal_views(groups@);
    let mut foreign: Vec<(String, i64)> = Vec::new();
    let mut k: usize = 0;
    while k < groups.len()
        invariant
            k <= groups@.len(),
            g == subtotal_views(groups@),
            foreign@.len() == k,
            forall|m: int|
                0 <= m < k ==> (#[trigger] foreign@[m]).0@ == g[m].0 && foreign@[m].1
                    == clamp_to_i64(g[m].1),
        decreases groups@.len() - k,
    {
        let total = groups[k].1;
        let narrowed: i64 = if total > i64::MAX as i128 {
            i64::MAX
        } else if total < i64::MIN as i128 {
            i64::MIN
        } else {
            total as i64
        };
        foreign.push((groups[k].0.clone(), narrowed));
        k = k + 1;
    }
    proof {
        assert(t.take(i as int) =~= t);
        let f = foreign@.map_values(|e: (String, i64)| (e.0@, e.1));
        assert forall|m: int| 0 <= m < f.len() implies (#[trigger] f[m]).0 == g[m].0 && f[m].1
            == clamp_to_i64(g[m].1) by {}
        assert forall|c: Seq<char>|
            c != target@ && #[trigger] holds_currency(t, c, aft, thr) implies exists|m: int|
            0 <= m < f.len() && #[trigger] f[m].0 == c by {
            let m = choose|m: int| 0 <= m < g.len() && #[trigger] g[m].0 == c;
            assert(f[m].0 == c);
        }
        assert forall|a: int, b: int| 0 <= a < b < f.len() implies #[trigger] f[a].0
            != #[trigger] f[b].0 by {
            assert(f[a].0 == g[a].0 && f[b].0 == g[b].0);
        }
        assert forall|m: int| 0 <= m < f.len() - 1 implies text_le(
            #[trigger] f[m].0,
            f[m + 1].0,
        ) by {
            assert(f[m].0 == g[m].0 && f[m + 1].0 == g[m + 1].0);
        }
        assert(usize::MAX <= u64::MAX);
    }
    (own, foreign)
}

/// What the walk decided for an account on a date.
#[derive(Debug, Clone, PartialEq, Eq)]
pub enum ValueWalk {
    /// The value itself, in minor units of `currency`.
    Read { value: i64, currency: String },
    /// Movements still to be totalled in `currency`: `own` is already in it, each of `foreign`
    /// (sorted by code) has to be converted into it first. When walking back from a valuation,
    /// the total is subtracted from `anchor`.
    Total { currency: String, anchor: Option<i64>, own: i128, foreign: Vec<(String, i64)> },
}

/// The plain values of a list of foreign subtotals.
pub open spec fn foreign_views(f: Seq<(String, i64)>) -> Seq<(Seq<char>, i64)> {
    f.map_values(|e: (String, i64)| (e.0@, e.1))
}

/// Whether `w` is what the walk decides for an account quoted in `currency`, on `date`, from
/// its movements `txs` and valuations `vals`. See the module's description of the three cases.
pub open spec fn walk_decided(
    w: ValueWalk,
    currency: Seq<char>,
    date: (int, int, int),
    txs: Seq<DatedView>,
    vals: Seq<DatedView>,
) -> bool {
    match latest_on_or_before(vals, date) {
        Some(v) => w matches ValueWalk::Read { value, currency: c } && value == v.1 && c@ == v.2,
        None => match earliest(vals) {
            Some(a) => if earliest(txs) matches Some(f) && !earlier(date, f.0) {
                &&& w matches ValueWalk::Total { currency: c, anchor, own, foreign }
                &&& c@ == a.2
                &&& anchor == Some(a.1)
                &&& movements_match(own as int, foreign_views(foreign@), txs, a.2, Some(date), a.0)
                &&& totals_fit(own as int, foreign@.len() as int, txs.len() as int)
            } else {
                w matches ValueWalk::Read { value, currency: c } && value == 0 && c@ == a.2
            },
            None => {
                &&& w matches ValueWalk::Total { currency: c, anchor, own, foreign }
                &&& c@ == currency
                &&& anchor is None
                &&& movements_match(own as int, foreign_views(foreign@), txs, currency, None, date)
                &&& totals_fit(own as int, foreign@.len() as int, txs.len() as int)
            },
        },
    }
}

/// Decide how to value an account quoted in `currency` on `date`, from its movements and its
/// valuations (each a day, an amount in minor units and its currency):
///
/// 1. the latest valuation on or before the date is read as it is;
/// 2. otherwise, when there is a later valuation, the earliest one is the anchor: on or after
///    the account's first movement, the movements after the date up to the anchor are totalled
///    in the anchor's currency and subtracted from it; before it, the account reads zero;
/// 3. with no valuation at all, the movements up to the date are totalled in `currency`.
pub fn value_walk(currency: &str, date: &Day, txs: &[Dated], vals: &[Dated]) -> (w: ValueWalk)
    ensures
        walk_decided(w, currency@, date@, dated_views(txs@), dated_views(vals@)),
{
    match latest_index(vals, date) {
        Some(k) => {
            return ValueWalk::Read { value: vals[k].1, currency: vals[k].2.clone() };
        },
        None => {},
    }
    match earliest_index(vals) {
        Some(a) => {
            let anchor = &vals[a];
            let opened = match earliest_index(txs) {
                Some(f) => !date.is_before(&txs[f].0),
                None => false,
            };
            if opened {
                let (own, foreign) = window_totals(txs, anchor.2.as_str(), Some(*date), &anchor.0);
                ValueWalk::Total { currency: anchor.2.clone(), anchor: Some(anchor.1), own, foreign }
            } else {
                ValueWalk::Read { value: 0, currency: anchor.2.clone() }
            }
        },
        None => {
            let (own, foreign) = window_totals(txs, currency, None, date);
            ValueWalk::Total { currency: currency.to_string(), anchor: None, own, foreign }
        },
    }
}

/// The sum of the conversions that succeeded.
pub open spec fn converted_sum(conv: Seq<Option<i64>>) -> int
    decreases conv.len(),
{
    if conv.len() == 0 {
        0
    } else {
        converted_sum(conv.drop_last()) + match conv.last() {
            Some(v) => v as int,
            None => 0,
        }
    }
}

/// Whether every foreign subtotal converted.
pub open spec fn all_converted(conv: Seq<Option<i64>>) -> bool {
    forall|k: int| 0 <= k < conv.len() ==> (#[trigger] conv[k]) is Some
}

/// The value a walk reaches, given what each of its foreign subtotals converted to
/// (`converted[k]` for `foreign[k]`, `None` where no rate reaches the walk's currency).
pub open spec fn walk_value(w: ValueWalk, conv: Seq<Option<i64>>) -> Option<(i64, Seq<char>)> {
    match w {
        ValueWalk::Read { value, currency } => Some((value, currency@)),
        ValueWalk::Total { currency, anchor, own, foreign } => if all_converted(conv) {
            let total = own + converted_sum(conv);
            Some(
                (
                    clamp_to_i64(
                        match anchor {
                            Some(a) => a - total,
                            None => total,
                        },
                    ),
                    currency@,
                ),
            )
        } else {
            None
        },
    }
}

/// Finish a walk: a value read off a valuation stands; movements are totalled in the walk's
/// currency, with each foreign subtotal replaced by its conversion, and subtracted from the
/// anchor when there is one, saturating at the ends of `i64`. `None` when some foreign
/// subtotal could not be converted: there is then no honest single figure.
pub fn value_from_walk(w: &ValueWalk, converted: &[Option<i64>]) -> (r: Option<(i64, String)>)
    requires
        w matches ValueWalk::Total { own, foreign, .. } ==> converted@.len() == foreign@.len()
            && totals_fit(own as int, foreign@.len() as int, u64::MAX as int),
    ensures
        match (r, walk_value(*w, converted@)) {
            (Some(v), Some(s)) => v.0 == s.0 && v.1@ == s.1,
            (None, None) => true,
            _ => false,
        },
{
    match w {
        ValueWalk::Read { value, currency } => Some((*value, currency.clone())),
        ValueWalk::Total { currency, anchor, own, foreign } => {
            let mut total: i128 = *own;
            let mut unconvertible = false;
            let mut k: usize = 0;
            while k < converted.len()
                invariant
                    k <= converted@.len(),
                    converted@.len() == foreign@.len(),
                    totals_fit(*own as int, foreign@.len() as int, u64::MAX as int),
                    total == *own + converted_sum(converted@.take(k as int)),
                    unconvertible <==> !all_converted(converted@.take(k as int)),
                    -(total - *own) <= k * 0x8000_0000_0000_0000,
                    total - *own <= k * 0x8000_0000_0000_0000,
                decreases converted@.len() - k,
            {
                proof {
                    assert(converted@.take(k + 1).drop_last() =~= converted@.take(k as int));
                    assert(converted@.take(k + 1).last() == converted@[k as int]);
                    if !all_converted(converted@.take(k as int)) {
                        let m = choose|m: int|
                            0 <= m < k && !((#[trigger] converted@.take(k as int)[m]) is Some);
                        assert(converted@.take(k + 1)[m] == converted@.take(k as int)[m]);
                    }
                    assert forall|m: int| 0 <= m < k + 1 && all_converted(converted@.take(k as int))
                        && converted@[k as int] is Some implies (#[trigger] converted@.take(k + 1)[m]) is Some by {
                        if m < k {
                            assert(converted@.take(k + 1)[m] == converted@.take(k as int)[m]);
                        }
                    }
                }
                match converted[k] {
                    Some(v) => {
                        total = total + v as i128;
                    },
                    None => {
                        unconvertible = true;
                    },
                }
                k = k + 1;
            }
            proof {
                assert(converted@.take(k as int) =~= converted@);
            }
            if unconvertible {
                return None;
            }
            let value = match anchor {
                Some(a) => *a as i128 - total,
                None => total,
            };
            let narrowed: i64 = if value > i64::MAX as i128 {
                i64::MAX
            } else if value < i64::MIN as i128 {
                i64::MIN
            } else {
                value as i64
            };
            Some((narrowed, currency.clone()))
        },
    }
}

/// An account whose movements and valuations are all in its own currency never needs a rate:
/// its walk has no foreign subtotal to convert.
pub proof fn lemma_single_currency_needs_no_rate(
    w: ValueWalk,
    currency: Seq<char>,
    date: (int, int, int),
    txs: Seq<DatedView>,
    vals: Seq<DatedView>,
)
    requires
        walk_decided(w, currency, date, txs, vals),
        forall|j: int| 0 <= j < txs.len() ==> (#[trigger] txs[j]).2 == currency,
        forall|j: int| 0 <= j < vals.len() ==> (#[trigger] vals[j]).2 == currency,
    ensures
        w matches ValueWalk::Total { foreign, .. } ==> foreign@.len() == 0,
{
    lemma_earliest_is_listed(vals);
    if let ValueWalk::Total { currency: c, anchor, own, foreign } = w {
        if foreign@.len() > 0 {
            let f = foreign_views(foreign@);
            assert(f[0] == (foreign@[0].0@, foreign@[0].1));
            let code = f[0].0;
            let after = match anchor {
                Some(_) => Some(date),
                None => None,
            };
            let through = match earliest(vals) {
                Some(a) => if latest_on_or_before(vals, date) is None && anchor is Some {
                    a.0
                } else {
                    date
                },
                None => date,
            };
            assert(holds_currency(txs, code, after, through));
            let j = choose|j: int|
                0 <= j < txs.len() && in_window(#[trigger] txs[j].0, after, through) && txs[j].2
                    == code;
            assert(txs[j].2 == currency);
        }
    }
}

/// The earliest entry, when there is one, is one of the entries.
proof fn lemma_earliest_is_listed(s: Seq<DatedView>)
    ensures
        earliest(s) matches Some(e) ==> exists|j: int| 0 <= j < s.len() && #[trigger] s[j] == e,
    decreases s.len(),
{
    if s.len() > 0 {
        lemma_earliest_is_listed(s.drop_last());
        if let Some(r) = earliest(s.drop_last()) {
            let j = choose|j: int| 0 <= j < s.drop_last().len() && #[trigger] s.drop_last()[j] == r;
            assert(s[j] == r);
        }
        assert(s[s.len() - 1] == s.last());
    }
}

} // verus!
