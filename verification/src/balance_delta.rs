//! Derive a ledger for an account whose upstream only reports a balance.
//!
//! Consecutive provider valuations are differenced, and each non-zero change becomes an
//! importable row. The sign is right by construction (valuations and transactions share one
//! signed convention), only closed days are derived (today's valuation is still being
//! rewritten), and each row's id names the pair it came from, so re-deriving a series yields
//! identical ids that the import's dedupe absorbs.

use vstd::multiset::Multiset;
use vstd::prelude::*;

use crate::calendar::{day_text, earlier, lenient_ymd, Day};
use crate::categories::CategoryKind;
use crate::lifecycle::Span;
use crate::text::{append_decimal, int_decimal, join2};

verus! {

/// How often balance movements are derived: daily, since only closed days count.
pub fn balance_delta_interval() -> (s: Span)
    ensures
        s@ == 24 * 60 * 60 * 1_000_000_000,
{
    Span::from_secs(24 * 60 * 60)
}

/// The provider-config key that opts a connection into deriving.
pub const OPT_IN_KEY: &'static str = "derive_transactions_from_balance";

/// The provider-config key holding the first date to derive.
pub const FROM_KEY: &'static str = "derive_from";

/// Where a valuation came from.
#[derive(Debug, Clone, Copy, PartialEq, Eq, Structural)]
pub enum ValuationSource {
    Manual,
    Provider,
    Cron,
    Estimate,
    Brokerage,
}

impl ValuationSource {
    pub fn as_str(self) -> (r: &'static str)
        ensures
            r@ == match self {
                ValuationSource::Manual => "manual"@,
                ValuationSource::Provider => "provider"@,
                ValuationSource::Cron => "cron"@,
                ValuationSource::Estimate => "estimate"@,
                ValuationSource::Brokerage => "brokerage"@,
            },
    {
        match self {
            ValuationSource::Manual => "manual",
            ValuationSource::Provider => "provider",
            ValuationSource::Cron => "cron",
            ValuationSource::Estimate => "estimate",
            ValuationSource::Brokerage => "brokerage",
        }
    }
}

/// One recorded valuation of an account, as the deriving reads it.
#[derive(Debug, Clone)]
pub struct Valuation {
    pub id: i64,
    pub account_id: i64,
    pub as_of: String,
    pub value_minor: i64,
    pub currency_code: String,
    pub source: ValuationSource,
    pub note: Option<String>,
    pub created_at: String,
}

/// Which side of the balance sheet an account sits on.
#[derive(Debug, Clone, Copy, PartialEq, Eq, Structural)]
pub enum AccountClass {
    Cash,
    Asset,
    Investment,
    Liability,
}

/// One row for the importer.
#[derive(Debug, Clone)]
pub struct ImportRow {
    pub external_id: String,
    pub posted_at: String,
    pub amount_minor: i64,
    pub currency_code: Option<String>,
    pub description: String,
    pub merchant: Option<String>,
    pub category_name: Option<String>,
    pub category_group: Option<String>,
    pub category_kind: Option<CategoryKind>,
    pub is_one_off: bool,
}

/// How a movement reads in the ledger: on a liability a positive movement is the debt
/// shrinking, the opposite of what the same sign means anywhere else.
pub open spec fn wording(delta: int, class: AccountClass) -> Seq<char> {
    if class == AccountClass::Liability {
        if delta > 0 {
            "Repayment (derived)"@
        } else {
            "Drawdown or fee (derived)"@
        }
    } else {
        if delta > 0 {
            "Balance increase (derived)"@
        } else {
            "Balance decrease (derived)"@
        }
    }
}

/// Which way a movement reads in the ledger.
pub fn describe(delta_minor: i64, class: AccountClass) -> (r: &'static str)
    ensures
        r@ == wording(delta_minor as int, class),
{
    match class {
        AccountClass::Liability => {
            if delta_minor > 0 {
                "Repayment (derived)"
            } else {
                "Drawdown or fee (derived)"
            }
        },
        AccountClass::Cash | AccountClass::Asset | AccountClass::Investment => {
            if delta_minor > 0 {
                "Balance increase (derived)"
            } else {
                "Balance decrease (derived)"
            }
        },
    }
}

/// The provider tag derived rows are imported under, `balance-delta#<provider id>`: with
/// each row's pair-naming id it is what lets the import's dedupe absorb a re-derivation.
pub fn balance_delta_tag(provider_id: i64) -> (r: String)
    ensures
        r@ == "balance-delta#"@ + int_decimal(provider_id as int),
{
    let mut r = String::from_str("balance-delta#");
    append_decimal(&mut r, provider_id);
    r
}

/// Whether the task derives rows for a connection: it must be enabled and opted in.
pub fn derives_for(enabled: bool, opt_in: Option<bool>) -> (r: bool)
    ensures
        r == (enabled && opt_in == Some(true)),
{
    enabled && is_opted_in(opt_in)
}

/// Whether a connection opted in: only an explicit `true` does.
pub fn is_opted_in(flag: Option<bool>) -> (r: bool)
    ensures
        r == (flag == Some(true)),
{
    match flag {
        Some(b) => b,
        None => false,
    }
}

/// The first day to derive, read from the connection's setting; missing or unreadable text
/// means derive everything.
pub fn derive_from(setting: Option<&str>) -> (r: Option<Day>)
    ensures
        match setting {
            None => r is None,
            Some(s) => match r {
                Some(d) => lenient_ymd(s@) == Some(d@),
                None => lenient_ymd(s@) is None,
            },
        },
{
    match setting {
        Some(s) => Day::parse(s),
        None => None,
    }
}

/// An entry of the series: the day, the value, and the currency.
pub type Entry = ((int, int, int), i64, Seq<char>);

/// The provider's own valuations that have a readable day, in the order given. A manual or
/// cron valuation is a different opinion of the balance and never takes part.
pub open spec fn provider_series(vals: Seq<Valuation>) -> Seq<Entry>
    decreases vals.len(),
{
    if vals.len() == 0 {
        Seq::empty()
    } else {
        let prev = provider_series(vals.drop_last());
        let v = vals.last();
        if v.source == ValuationSource::Provider && lenient_ymd(v.as_of@) is Some {
            prev.push((lenient_ymd(v.as_of@)->Some_0, v.value_minor, v.currency_code@))
        } else {
            prev
        }
    }
}

/// `e` placed after every entry of the day-ordered `s` that is not later than it.
pub open spec fn insert_by_day(s: Seq<Entry>, e: Entry) -> Seq<Entry>
    decreases s.len(),
{
    if s.len() == 0 {
        seq![e]
    } else if !earlier(e.0, s.last().0) {
        s.push(e)
    } else {
        insert_by_day(s.drop_last(), e).push(s.last())
    }
}

/// `s` ordered by day; entries on the same day keep their order.
pub open spec fn sort_by_day(s: Seq<Entry>) -> Seq<Entry>
    decreases s.len(),
{
    if s.len() == 0 {
        Seq::empty()
    } else {
        insert_by_day(sort_by_day(s.drop_last()), s.last())
    }
}

/// Whether the pair ending at `cur` is derived: its day has closed, it is not before the
/// first day to derive, and the balance moved.
pub open spec fn pair_derived(
    prev: Entry,
    cur: Entry,
    today: (int, int, int),
    from: Option<(int, int, int)>,
) -> bool {
    &&& earlier(cur.0, today)
    &&& !(from matches Some(f) && earlier(cur.0, f))
    &&& cur.1 - prev.1 != 0
}

/// Whether the pair ending at `cur` gets as far as computing its movement.
pub open spec fn pair_considered(cur: Entry, today: (int, int, int), from: Option<(int, int, int)>) -> bool {
    earlier(cur.0, today) && !(from matches Some(f) && earlier(cur.0, f))
}

/// The row one derived pair becomes: its id names both days, it is posted at midday on the
/// later one, and it carries the movement in the later entry's currency.
pub open spec fn row_for(prev: Entry, cur: Entry, class: AccountClass) -> (
    Seq<char>,
    Seq<char>,
    int,
    Seq<char>,
    Seq<char>,
) {
    (
        day_text(prev.0) + ".."@ + day_text(cur.0),
        day_text(cur.0) + "T12:00:00+00:00"@,
        cur.1 - prev.1,
        cur.2,
        wording(cur.1 - prev.1, class),
    )
}

/// The rows derived from the first `n` entries of a day-ordered series.
pub open spec fn derived_rows(
    s: Seq<Entry>,
    today: (int, int, int),
    from: Option<(int, int, int)>,
    class: AccountClass,
    n: int,
) -> Seq<(Seq<char>, Seq<char>, int, Seq<char>, Seq<char>)>
    decreases n,
{
    if n <= 1 {
        Seq::empty()
    } else {
        derived_rows(s, today, from, class, n - 1) + if pair_derived(s[n - 2], s[n - 1], today, from) {
            seq![row_for(s[n - 2], s[n - 1], class)]
        } else {
            Seq::empty()
        }
    }
}

/// A movement reads by its sign: on an asset, cash or investment account a rise is a
/// "Balance increase" and a fall a "Balance decrease"; on a liability, whose balance is
/// negative, a rise is a "Repayment" and a fall a "Drawdown or fee".
pub proof fn lemma_wording_follows_the_sign(delta: int, class: AccountClass)
    ensures
        class != AccountClass::Liability && delta > 0 ==> wording(delta, class)
            == "Balance increase (derived)"@,
        class != AccountClass::Liability && delta < 0 ==> wording(delta, class)
            == "Balance decrease (derived)"@,
        class == AccountClass::Liability && delta > 0 ==> wording(delta, class)
            == "Repayment (derived)"@,
        class == AccountClass::Liability && delta < 0 ==> wording(delta, class)
            == "Drawdown or fee (derived)"@,
{
}

/// Every derived row carries a movement, never zero, and its description says which way the
/// balance moved: on a non-liability "Balance increase (derived)" for a rise and "Balance
/// decrease (derived)" for a fall; on a liability "Repayment (derived)" for a rise and
/// "Drawdown or fee (derived)" for a fall.
pub proof fn lemma_derived_rows_read_their_sign(
    s: Seq<Entry>,
    today: (int, int, int),
    from: Option<(int, int, int)>,
    class: AccountClass,
    n: int,
)
    ensures
        forall|k: int|
            0 <= k < derived_rows(s, today, from, class, n).len() ==> {
                let r = #[trigger] derived_rows(s, today, from, class, n)[k];
                &&& r.2 != 0
                &&& class != AccountClass::Liability && r.2 > 0 ==> r.4 == "Balance increase (derived)"@
                &&& class != AccountClass::Liability && r.2 < 0 ==> r.4 == "Balance decrease (derived)"@
                &&& class == AccountClass::Liability && r.2 > 0 ==> r.4 == "Repayment (derived)"@
                &&& class == AccountClass::Liability && r.2 < 0 ==> r.4 == "Drawdown or fee (derived)"@
            },
    decreases n,
{
    if n > 1 {
        lemma_derived_rows_read_their_sign(s, today, from, class, n - 1);
        let a = derived_rows(s, today, from, class, n - 1);
        let b = if pair_derived(s[n - 2], s[n - 1], today, from) {
            seq![row_for(s[n - 2], s[n - 1], class)]
        } else {
            Seq::empty()
        };
        lemma_wording_follows_the_sign(s[n - 1].1 - s[n - 2].1, class);
        assert forall|k: int| 0 <= k < (a + b).len() implies {
            let r = #[trigger] (a + b)[k];
            &&& r.2 != 0
            &&& class != AccountClass::Liability && r.2 > 0 ==> r.4 == "Balance increase (derived)"@
            &&& class != AccountClass::Liability && r.2 < 0 ==> r.4 == "Balance decrease (derived)"@
            &&& class == AccountClass::Liability && r.2 > 0 ==> r.4 == "Repayment (derived)"@
            &&& class == AccountClass::Liability && r.2 < 0 ==> r.4 == "Drawdown or fee (derived)"@
        } by {
            if k < a.len() {
                assert((a + b)[k] == a[k]);
            } else {
                assert((a + b)[k] == b[k - a.len()]);
            }
        }
        assert(derived_rows(s, today, from, class, n) == a + b);
    }
}

/// The sum of the movements of `rows`.
pub open spec fn total_movement(rows: Seq<(Seq<char>, Seq<char>, int, Seq<char>, Seq<char>)>) -> int
    decreases rows.len(),
{
    if rows.len() == 0 {
        0
    } else {
        total_movement(rows.drop_last()) + rows.last().2
    }
}

proof fn lemma_total_movement_concat(
    a: Seq<(Seq<char>, Seq<char>, int, Seq<char>, Seq<char>)>,
    b: Seq<(Seq<char>, Seq<char>, int, Seq<char>, Seq<char>)>,
)
    requires
        b.len() <= 1,
    ensures
        total_movement(a + b) == total_movement(a) + total_movement(b),
{
    let e = Seq::<(Seq<char>, Seq<char>, int, Seq<char>, Seq<char>)>::empty();
    assert(total_movement(e) == 0);
    if b.len() == 1 {
        assert((a + b).drop_last() =~= a);
        assert((a + b).last() == b.last());
        assert(b.drop_last() =~= e);
        assert(total_movement(b) == total_movement(b.drop_last()) + b.last().2);
    } else {
        assert(a + b =~= a);
        assert(b =~= e);
    }
}

/// Which pairs are derived: the later day must have closed (be before today), must not be
/// before the first day to derive, and the balance must have moved between the two.
pub proof fn lemma_which_pairs_are_derived(
    prev: Entry,
    cur: Entry,
    today: (int, int, int),
    from: Option<(int, int, int)>,
)
    ensures
        !earlier(cur.0, today) ==> !pair_derived(prev, cur, today, from),
        (from matches Some(f) && earlier(cur.0, f)) ==> !pair_derived(prev, cur, today, from),
        cur.1 == prev.1 ==> !pair_derived(prev, cur, today, from),
        earlier(cur.0, today) && !(from matches Some(f) && earlier(cur.0, f)) && cur.1 != prev.1
            ==> pair_derived(prev, cur, today, from),
{
}

/// The derived movements add up to how far the balance moved: when every pair of the first
/// `n` entries is on a closed day inside the range, the rows' movements sum to the last
/// value less the first, so each row carries the later value less the earlier one and a
/// pair with no movement loses nothing by being left out.
pub proof fn lemma_movements_add_up(
    s: Seq<Entry>,
    today: (int, int, int),
    from: Option<(int, int, int)>,
    class: AccountClass,
    n: int,
)
    requires
        1 <= n <= s.len(),
        forall|i: int| 1 <= i < n ==> pair_considered(#[trigger] s[i], today, from),
    ensures
        total_movement(derived_rows(s, today, from, class, n)) == s[n - 1].1 - s[0].1,
    decreases n,
{
    if n > 1 {
        lemma_movements_add_up(s, today, from, class, n - 1);
        let a = derived_rows(s, today, from, class, n - 1);
        let b = if pair_derived(s[n - 2], s[n - 1], today, from) {
            seq![row_for(s[n - 2], s[n - 1], class)]
        } else {
            Seq::empty()
        };
        lemma_total_movement_concat(a, b);
        assert(pair_considered(s[n - 1], today, from));
        let e = Seq::<(Seq<char>, Seq<char>, int, Seq<char>, Seq<char>)>::empty();
        assert(total_movement(e) == 0);
        if b.len() == 1 {
            assert(b.drop_last() =~= e);
            assert(total_movement(b) == total_movement(b.drop_last()) + b.last().2);
        } else {
            assert(b =~= e);
        }
        assert(total_movement(b) == s[n - 1].1 - s[n - 2].1);
        assert(derived_rows(s, today, from, class, n) == a + b);
    }
}

/// Whether the entries are in day order: no entry is on an earlier day than one before it.
pub open spec fn in_day_order(s: Seq<Entry>) -> bool {
    forall|i: int, j: int| 0 <= i < j < s.len() ==> !earlier(#[trigger] s[j].0, #[trigger] s[i].0)
}

proof fn lemma_insert_by_day_ordered(s: Seq<Entry>, e: Entry)
    requires
        in_day_order(s),
    ensures
        in_day_order(insert_by_day(s, e)),
        insert_by_day(s, e).to_multiset() =~= s.to_multiset().insert(e),
    decreases s.len(),
{
    broadcast use vstd::seq_lib::group_to_multiset_ensures, vstd::multiset::group_multiset_axioms;

    if s.len() == 0 {
        assert(seq![e] =~= Seq::<Entry>::empty().push(e));
        assert(Seq::<Entry>::empty().to_multiset() =~= Multiset::<Entry>::empty());
    } else if !earlier(e.0, s.last().0) {
        let r = s.push(e);
        assert forall|i: int, j: int| 0 <= i < j < r.len() implies !earlier(#[trigger] r[j].0, #[trigger] r[i].0) by {
            if j == s.len() {
                if i < s.len() - 1 {
                    assert(!earlier(s[s.len() - 1].0, s[i].0));
                }
            }
        }
    } else {
        let p = s.drop_last();
        let last = s.last();
        assert(in_day_order(p)) by {
            assert forall|i: int, j: int| 0 <= i < j < p.len() implies !earlier(#[trigger] p[j].0, #[trigger] p[i].0) by {
                assert(p[i] == s[i] && p[j] == s[j]);
            }
        }
        lemma_insert_by_day_ordered(p, e);
        let q = insert_by_day(p, e);
        let r = q.push(last);
        assert forall|k: int| 0 <= k < q.len() implies !earlier(last.0, #[trigger] q[k].0) by {
            assert(q.to_multiset().contains(q[k]));
            if q[k] != e {
                assert(p.to_multiset().contains(q[k]));
                assert(p.contains(q[k]));
                let idx = choose|idx: int| 0 <= idx < p.len() && p[idx] == q[k];
                assert(s[idx] == p[idx]);
                assert(!earlier(s[s.len() - 1].0, s[idx].0) || idx == s.len() - 1);
            }
        }
        assert forall|i: int, j: int| 0 <= i < j < r.len() implies !earlier(#[trigger] r[j].0, #[trigger] r[i].0) by {
            if j == q.len() {
                assert(r[i] == q[i]);
            } else {
                assert(r[i] == q[i] && r[j] == q[j]);
            }
        }
        assert(s =~= p.push(last));
        assert(r.to_multiset() =~= q.to_multiset().insert(last));
        assert(s.to_multiset() =~= p.to_multiset().insert(last));
    }
}

/// Ordering the series by day loses no entry and adds none, and leaves it in day order, so
/// each pair that is differenced is two consecutive days of the provider's own record.
pub proof fn lemma_sorting_keeps_every_entry_in_day_order(s: Seq<Entry>)
    ensures
        in_day_order(sort_by_day(s)),
        sort_by_day(s).to_multiset() =~= s.to_multiset(),
    decreases s.len(),
{
    broadcast use vstd::seq_lib::group_to_multiset_ensures, vstd::multiset::group_multiset_axioms;

    if s.len() == 0 {
        assert(Seq::<Entry>::empty().to_multiset() =~= Multiset::<Entry>::empty());
    } else {
        lemma_sorting_keeps_every_entry_in_day_order(s.drop_last());
        lemma_insert_by_day_ordered(sort_by_day(s.drop_last()), s.last());
        assert(s =~= s.drop_last().push(s.last()));
    }
}

/// Only the provider's own valuations take part: a record holding none yields no series, and
/// one holding only provider valuations on readable days yields each of them, in order, as its
/// day, value and currency.
pub proof fn lemma_only_provider_valuations_count(vals: Seq<Valuation>)
    ensures
        provider_series(vals).len() <= vals.len(),
        (forall|i: int| 0 <= i < vals.len() ==> (#[trigger] vals[i]).source != ValuationSource::Provider)
            ==> provider_series(vals).len() == 0,
        (forall|i: int|
            0 <= i < vals.len() ==> (#[trigger] vals[i]).source == ValuationSource::Provider
                && lenient_ymd(vals[i].as_of@) is Some) ==> (provider_series(vals).len() == vals.len()
            && forall|k: int|
            0 <= k < vals.len() ==> #[trigger] provider_series(vals)[k] == (
                lenient_ymd(vals[k].as_of@)->Some_0,
                vals[k].value_minor,
                vals[k].currency_code@,
            )),
    decreases vals.len(),
{
    if vals.len() > 0 {
        let p = vals.drop_last();
        lemma_only_provider_valuations_count(p);
        assert forall|i: int| 0 <= i < p.len() implies #[trigger] p[i] == vals[i] by {}
        if forall|i: int| 0 <= i < vals.len() ==> (#[trigger] vals[i]).source == ValuationSource::Provider
            && lenient_ymd(vals[i].as_of@) is Some {
            assert(vals[vals.len() - 1] == vals.last());
            assert forall|i: int| 0 <= i < p.len() implies (#[trigger] p[i]).source == ValuationSource::Provider
                && lenient_ymd(p[i].as_of@) is Some by {
                assert(p[i] == vals[i]);
            }
        }
        if forall|i: int| 0 <= i < vals.len() ==> (#[trigger] vals[i]).source != ValuationSource::Provider {
            assert(vals[vals.len() - 1] == vals.last());
            assert forall|i: int| 0 <= i < p.len() implies (#[trigger] p[i]).source != ValuationSource::Provider by {
                assert(p[i] == vals[i]);
            }
        }
    }
}

/// Whether an import row is exactly the described one: no merchant, no category, not a
/// one-off.
pub open spec fn row_is(r: ImportRow, d: (Seq<char>, Seq<char>, int, Seq<char>, Seq<char>)) -> bool {
    &&& r.external_id@ == d.0
    &&& r.posted_at@ == d.1
    &&& r.amount_minor as int == d.2
    &&& r.currency_code matches Some(c) && c@ == d.3
    &&& r.description@ == d.4
    &&& r.merchant is None
    &&& r.category_name is None
    &&& r.category_group is None
    &&& r.category_kind is None
    &&& !r.is_one_off
}

/// Every movement that would be computed fits in an `i64`.
pub open spec fn movements_fit(s: Seq<Entry>, today: (int, int, int), from: Option<(int, int, int)>) -> bool {
    forall|i: int|
        1 <= i < s.len() && pair_considered(#[trigger] s[i], today, from) ==> i64::MIN <= s[i].1
            - s[i - 1].1 <= i64::MAX
}

/// What an entry of the executable series stands for.
pub open spec fn entry_of(e: (Day, i64, String)) -> Entry {
    (e.0@, e.1, e.2@)
}

proof fn lemma_insert_at(s: Seq<Entry>, e: Entry, j: int)
    requires
        0 <= j <= s.len(),
        forall|k: int| j <= k < s.len() ==> earlier(e.0, #[trigger] s[k].0),
        j == 0 || !earlier(e.0, s[j - 1].0),
    ensures
        insert_by_day(s, e) == s.insert(j, e),
    decreases s.len() - j,
{
    if s.len() == 0 {
        assert(s.insert(j, e) =~= seq![e]);
    } else if j == s.len() {
        assert(s.insert(j, e) =~= s.push(e));
    } else {
        let p = s.drop_last();
        assert(earlier(e.0, s.last().0));
        assert forall|k: int| j <= k < p.len() implies earlier(e.0, #[trigger] p[k].0) by {
            assert(p[k] == s[k]);
        }
        if j > 0 {
            assert(p[j - 1] == s[j - 1]);
        }
        lemma_insert_at(p, e, j);
        assert(p.insert(j, e).push(s.last()) =~= s.insert(j, e));
    }
}

/// Difference consecutive provider valuations into importable rows.
///
/// Only the provider's own series is read; entries are ordered by day (same-day entries keep
/// their order); a pair whose later day is today or after, or before `derive_from`, is left
/// alone; a pair with no movement yields nothing.
pub fn derive_rows(
    valuations: &Vec<Valuation>,
    derive_from: Option<Day>,
    today: Day,
    class: AccountClass,
) -> (rows: Vec<ImportRow>)
    requires
        movements_fit(
            sort_by_day(provider_series(valuations@)),
            today@,
            match derive_from {
                Some(f) => Some(f@),
                None => None,
            },
        ),
    ensures
        ({
            let s = sort_by_day(provider_series(valuations@));
            let from = match derive_from {
                Some(f) => Some(f@),
                None => None,
            };
            let expect = derived_rows(s, today@, from, class, s.len() as int);
            &&& rows@.len() == expect.len()
            &&& forall|i: int| 0 <= i < rows@.len() ==> row_is(#[trigger] rows@[i], expect[i])
        }),
{
    let ghost from_view: Option<(int, int, int)> = match derive_from {
        Some(f) => Some(f@),
        None => None,
    };
    // The provider's own readable series, in the order given.
    let mut series: Vec<(Day, i64, String)> = Vec::new();
    let mut i: usize = 0;
    while i < valuations.len()
        invariant
            i <= valuations@.len(),
            series@.map_values(|e: (Day, i64, String)| entry_of(e)) == provider_series(
                valuations@.subrange(0, i as int),
            ),
        decreases valuations@.len() - i,
    {
        let v = &valuations[i];
        let ghost before = series@;
        proof {
            let next = valuations@.subrange(0, i + 1);
            assert(next.drop_last() =~= valuations@.subrange(0, i as int));
            assert(next.last() == valuations@[i as int]);
        }
        let is_provider = match v.source {
            ValuationSource::Provider => true,
            _ => false,
        };
        if is_provider {
            match Day::parse(v.as_of.as_str()) {
                Some(d) => {
                    series.push((d, v.value_minor, v.currency_code.clone()));
                    proof {
                        assert(series@.map_values(|e: (Day, i64, String)| entry_of(e)) =~= before.map_values(
                            |e: (Day, i64, String)| entry_of(e),
                        ).push(entry_of((d, v.value_minor, v.currency_code))));
                    }
                },
                None => {},
            }
        }
        i = i + 1;
    }
    proof {
        assert(valuations@.subrange(0, i as int) =~= valuations@);
    }
    let ghost unsorted = series@.map_values(|e: (Day, i64, String)| entry_of(e));

    // Ordered by day, stably: each entry goes after everything not later than it.
    let mut sorted: Vec<(Day, i64, String)> = Vec::new();
    let mut rest = series;
    let ghost all = rest@;
    let mut taken: usize = 0;
    assert(all.len() == rest.len());
    while rest.len() > 0
        invariant
            all.len() <= usize::MAX,
            taken + rest@.len() == all.len(),
            rest@ == all.subrange(taken as int, all.len() as int),
            unsorted == all.map_values(|e: (Day, i64, String)| entry_of(e)),
            sorted@.map_values(|e: (Day, i64, String)| entry_of(e)) == sort_by_day(
                unsorted.subrange(0, taken as int),
            ),
        decreases rest@.len(),
    {
        let e = rest.remove(0);
        let ghost s = sorted@.map_values(|x: (Day, i64, String)| entry_of(x));
        let mut j: usize = sorted.len();
        while j > 0 && e.0.is_before(&sorted[j - 1].0)
            invariant
                j <= sorted@.len(),
                s == sorted@.map_values(|x: (Day, i64, String)| entry_of(x)),
                forall|k: int| j <= k < s.len() ==> earlier(entry_of(e).0, #[trigger] s[k].0),
            decreases j,
        {
            j = j - 1;
        }
        proof {
            assert(e == all[taken as int]);
            lemma_insert_at(s, entry_of(e), j as int);
            let pre = unsorted.subrange(0, taken + 1);
            assert(pre.drop_last() =~= unsorted.subrange(0, taken as int));
            assert(pre.last() == entry_of(e));
        }
        sorted.insert(j, e);
        proof {
            assert(sorted@.map_values(|x: (Day, i64, String)| entry_of(x)) =~= s.insert(
                j as int,
                entry_of(e),
            ));
        }
        taken = taken + 1;
        proof {
            assert(rest@ =~= all.subrange(taken as int, all.len() as int));
        }
    }
    proof {
        assert(unsorted.subrange(0, taken as int) =~= unsorted);
    }
    let ghost s = sorted@.map_values(|x: (Day, i64, String)| entry_of(x));

    // Every closed pair that moved becomes a row.
    let mut rows: Vec<ImportRow> = Vec::new();
    let mut k: usize = 1;
    while k < sorted.len()
        invariant
            1 <= k,
            k <= sorted@.len() || k == 1,
            s == sorted@.map_values(|x: (Day, i64, String)| entry_of(x)),
            movements_fit(s, today@, from_view),
            from_view == match derive_from {
                Some(f) => Some(f@),
                None => None::<(int, int, int)>,
            },
            rows@.len() == derived_rows(s, today@, from_view, class, k as int).len(),
            forall|r: int|
                0 <= r < rows@.len() ==> row_is(
                    #[trigger] rows@[r],
                    derived_rows(s, today@, from_view, class, k as int)[r],
                ),
        decreases sorted@.len() - k,
    {
        let ghost before = rows@;
        let ghost expect_before = derived_rows(s, today@, from_view, class, k as int);
        let prev = &sorted[k - 1];
        let cur = &sorted[k];
        proof {
            assert(s[k - 1] == entry_of(*prev));
            assert(s[k as int] == entry_of(*cur));
        }
        let closed = cur.0.is_before(&today);
        let before_from = match &derive_from {
            Some(f) => cur.0.is_before(f),
            None => false,
        };
        if closed && !before_from {
            proof {
                assert(pair_considered(s[k as int], today@, from_view));
            }
            let delta = cur.1 - prev.1;
            if delta != 0 {
                let mut external_id = prev.0.to_text();
                external_id.append("..");
                let day = cur.0.to_text();
                external_id.append(day.as_str());
                let posted_at = join2(day.as_str(), "T12:00:00+00:00");
                let row = ImportRow {
                    external_id,
                    posted_at,
                    amount_minor: delta,
                    currency_code: Some(cur.2.clone()),
                    description: String::from_str(describe(delta, class)),
                    merchant: None,
                    category_name: None,
                    category_group: None,
                    category_kind: None,
                    is_one_off: false,
                };
                rows.push(row);
            }
        }
        proof {
            let expect = derived_rows(s, today@, from_view, class, k + 1);
            assert(expect == expect_before + if pair_derived(s[k - 1], s[k as int], today@, from_view) {
                seq![row_for(s[k - 1], s[k as int], class)]
            } else {
                Seq::empty()
            });
            assert forall|r: int| 0 <= r < rows@.len() implies row_is(#[trigger] rows@[r], expect[r]) by {
                if r < before.len() {
                    assert(rows@[r] == before[r]);
                    assert(expect[r] == expect_before[r]);
                }
            }
        }
        k = k + 1;
    }
    proof {
        assert(unsorted == provider_series(valuations@));
        assert(s == sort_by_day(provider_series(valuations@)));
        if sorted@.len() <= 1 {
            assert(derived_rows(s, today@, from_view, class, s.len() as int).len() == 0);
            assert(derived_rows(s, today@, from_view, class, k as int).len() == 0);
        } else {
            assert(k == s.len());
        }
    }
    rows
}

} // verus!
