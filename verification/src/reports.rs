//! Report arithmetic and lookups that do not depend on a currency converter: exact money
//! totals that saturate rather than wrap, the category tree every roll-up walks, the accounts
//! whose bookkeeping never counts as spending, and the money-flow graph's vocabulary.

use vstd::prelude::*;

use crate::accounts::AccountKind;
use crate::calendar::{earlier, lenient_ymd, Day};
use crate::categories::{Category, CategoryKind, MAX_CATEGORY_DEPTH};
use crate::error::AppError;
use crate::people::Ownership;
use crate::text::{
    append_decimal, ascii_upper, byte_prefix, chars_in_width, int_decimal, join2, lowercase,
    lowercased, uppercase, uppercased,
};

use vstd::hash_map::HashMapWithView;

verus! {

broadcast use vstd::std_specs::hash::group_hash_axioms;

/// The uncategorised bucket's stand-in category key. Row ids start at 1, so 0 never collides
/// with a real category.
pub const UNCATEGORISED: i64 = 0;

/// How many levels of category hierarchy each side of the money-flow graph fans out into: the
/// same depth the category tree is allowed.
pub const SANKEY_MAX_DEPTH: usize = 3;

/// The money-flow graph's hub, which both sides link to.
pub const CENTER: &'static str = "center";

/// The depth the money-flow graph draws is the depth the category tree allows.
pub proof fn lemma_sankey_depth_is_category_depth()
    ensures
        SANKEY_MAX_DEPTH == MAX_CATEGORY_DEPTH,
{
}

/// `total` narrowed to an `i64`: exact when it fits, the nearest end of the range otherwise.
pub open spec fn clamp_to_i64(total: int) -> i64 {
    if total > i64::MAX {
        i64::MAX
    } else if total < i64::MIN {
        i64::MIN
    } else {
        total as i64
    }
}

/// Narrow an `i128` running total of minor units back to the `i64` the wire and the column
/// use, saturating instead of panicking or wrapping. `what` and `account_id` name the figure
/// for whoever has to find the row that did not fit.
pub fn narrow_minor(what: &str, account_id: Option<i64>, total: i128) -> (r: i64)
    ensures
        r == clamp_to_i64(total as int),
{
    if total > i64::MAX as i128 {
        i64::MAX
    } else if total < i64::MIN as i128 {
        i64::MIN
    } else {
        total as i64
    }
}

/// The exact sum of a sequence of amounts.
pub open spec fn seq_sum(s: Seq<i64>) -> int
    decreases s.len(),
{
    if s.len() == 0 {
        0
    } else {
        seq_sum(s.drop_last()) + s.last()
    }
}

/// Add signed minor-unit amounts exactly, in a wide accumulator, and narrow once at the end:
/// only the narrowing can clamp.
pub fn sum_minor(what: &str, account_id: Option<i64>, amounts: &[i64]) -> (r: i64)
    ensures
        r == clamp_to_i64(seq_sum(amounts@)),
{
    let mut total: i128 = 0;
    let mut i: usize = 0;
    while i < amounts.len()
        invariant
            i <= amounts@.len(),
            total as int == seq_sum(amounts@.subrange(0, i as int)),
            -(i as int) * 0x8000_0000_0000_0000 <= total <= (i as int) * 0x7fff_ffff_ffff_ffff,
        decreases amounts@.len() - i,
    {
        proof {
            let next = amounts@.subrange(0, i + 1);
            assert(next.drop_last() =~= amounts@.subrange(0, i as int));
            assert(next.last() == amounts@[i as int]);
            assert(i < 0x1_0000_0000_0000_0000);
            assert((i + 1) * 0x8000_0000_0000_0000 <= 0x1_0000_0000_0000_0000 * 0x8000_0000_0000_0000)
                by (nonlinear_arith)
                requires
                    i < 0x1_0000_0000_0000_0000,
            ;
        }
        total = total + amounts[i] as i128;
        i = i + 1;
    }
    proof {
        assert(amounts@.subrange(0, i as int) =~= amounts@);
    }
    narrow_minor(what, account_id, total)
}

/// Whether an account of this kind carries an instrument's own bookkeeping (loan drawdowns
/// and repayments, trades) rather than household income and spending.
pub open spec fn excluded_from_spend(kind: AccountKind) -> bool {
    kind == AccountKind::Mortgage || kind == AccountKind::Loan || kind == AccountKind::StudentLoan
        || kind == AccountKind::Brokerage
}

/// Mortgage, loan, student-loan and brokerage accounts never feed the income and expense
/// reports: a repayment on a liability is a positive amount and would read as income.
pub fn is_excluded_from_spend(kind: AccountKind) -> (r: bool)
    ensures
        r == excluded_from_spend(kind),
{
    match kind {
        AccountKind::Mortgage
        | AccountKind::Loan
        | AccountKind::StudentLoan
        | AccountKind::Brokerage => true,
        _ => false,
    }
}

/// The refusal for a report currency that is not known.
pub fn unknown_currency(code: &str) -> (e: AppError)
    ensures
        e matches AppError::BadRequest(m) && m@ == "unknown currency '"@ + code@
            + "': not in the currencies table, so it has neither a minor-unit scale nor any exchange rate"@,
{
    let mut m = join2("unknown currency '", code);
    m.append(
        "': not in the currencies table, so it has neither a minor-unit scale nor any exchange rate",
    );
    AppError::bad_request(m)
}

/// The currency a report was asked to be quoted in: a non-empty `?currency=`, upper-cased;
/// `None` when none was given, and the household's base currency applies.
pub open spec fn requested_currency(override_: Option<Seq<char>>) -> Option<Seq<char>> {
    match override_ {
        Some(c) => if c.len() > 0 {
            Some(uppercased(c))
        } else {
            None
        },
        None => None,
    }
}

/// The currency a report was asked to be quoted in; see [`requested_currency`]. An ASCII
/// code comes back with its letters raised, so `usd` asks for `USD`.
pub fn report_currency(override_: Option<&str>) -> (r: Option<String>)
    ensures
        match (r, requested_currency(
            match override_ {
                Some(c) => Some(c@),
                None => None,
            },
        )) {
            (Some(a), Some(b)) => a@ == b,
            (None, None) => true,
            _ => false,
        },
        override_ matches Some(c) ==> (c@.len() > 0 && (forall|i: int| 0 <= i < c@.len() ==> (c@[i] as u32)
            < 0x80) ==> (r matches Some(a) && a@ == c@.map_values(|ch: char| ascii_upper(ch)))),
{
    match override_ {
        Some(c) => if c.unicode_len() > 0 {
            Some(uppercase(c))
        } else {
            None
        },
        None => None,
    }
}

/// Whether a report may go ahead in currency `base`: a currency the caller named must be a
/// known one, and is refused as [`unknown_currency`] otherwise. A base currency nobody named
/// is the server's own setting, so it is never the caller's mistake.
pub fn check_report_currency(override_given: bool, base: &str, known: bool) -> (r: Result<(), AppError>)
    ensures
        override_given && !known ==> (r matches Err(AppError::BadRequest(m)) && m@
            == "unknown currency '"@ + base@
            + "': not in the currencies table, so it has neither a minor-unit scale nor any exchange rate"@),
        !(override_given && !known) ==> r is Ok,
{
    if override_given && !known {
        Err(unknown_currency(base))
    } else {
        Ok(())
    }
}

/// Which side of the money-flow graph a node represents.
#[derive(Debug, Clone, Copy, PartialEq, Eq, Structural)]
pub enum SankeyNodeKind {
    Income,
    Center,
    Expense,
    Savings,
}

impl SankeyNodeKind {
    pub fn as_str(self) -> (r: &'static str)
        ensures
            r@ == match self {
                SankeyNodeKind::Income => "income"@,
                SankeyNodeKind::Center => "center"@,
                SankeyNodeKind::Expense => "expense"@,
                SankeyNodeKind::Savings => "savings"@,
            },
    {
        match self {
            SankeyNodeKind::Income => "income",
            SankeyNodeKind::Center => "center",
            SankeyNodeKind::Expense => "expense",
            SankeyNodeKind::Savings => "savings",
        }
    }
}

/// Which half of the money-flow graph a roll-up belongs to, decided by the sign of the amount
/// alone: a refund against an expense category is income.
#[derive(Debug, Clone, Copy, PartialEq, Eq, Structural)]
pub enum FlowSide {
    Income,
    Expense,
}

impl FlowSide {
    /// The node kind of this side.
    pub fn node_kind(self) -> (k: SankeyNodeKind)
        ensures
            k == match self {
                FlowSide::Income => SankeyNodeKind::Income,
                FlowSide::Expense => SankeyNodeKind::Expense,
            },
    {
        match self {
            FlowSide::Income => SankeyNodeKind::Income,
            FlowSide::Expense => SankeyNodeKind::Expense,
        }
    }

    /// The node-id prefix of this side: `in:<id>` and `out:<id>`.
    pub fn prefix(self) -> (p: &'static str)
        ensures
            p@ == match self {
                FlowSide::Income => "in"@,
                FlowSide::Expense => "out"@,
            },
    {
        match self {
            FlowSide::Income => "in",
            FlowSide::Expense => "out",
        }
    }

    /// Orient a link between a node and whatever sits on its hub-ward side: income flows from
    /// the leaf towards the hub, expense the other way.
    pub fn link(self, node: String, inner: &str, value_minor: i64) -> (l: SankeyLink)
        ensures
            l.value_minor == value_minor,
            self == FlowSide::Income ==> l.source@ == node@ && l.target@ == inner@,
            self == FlowSide::Expense ==> l.source@ == inner@ && l.target@ == node@,
    {
        match self {
            FlowSide::Income => SankeyLink {
                source: node,
                target: String::from_str(inner),
                value_minor,
            },
            FlowSide::Expense => SankeyLink {
                source: String::from_str(inner),
                target: node,
                value_minor,
            },
        }
    }
}

#[derive(Debug)]
pub struct SankeyNode {
    pub id: String,
    pub label: String,
    pub kind: SankeyNodeKind,
    /// The category this node stands for; `None` for the hub, savings and the uncategorised
    /// bucket.
    pub category_id: Option<i64>,
    /// 0-based level within its own side; `None` for the hub and savings.
    pub depth: Option<u8>,
    /// The top-level ancestor this node descends from.
    pub root_id: Option<i64>,
    /// That ancestor's own colour, if set: one hue per branch.
    pub root_color: Option<String>,
}

#[derive(Debug)]
pub struct SankeyLink {
    pub source: String,
    pub target: String,
    pub value_minor: i64,
}

#[derive(Debug)]
pub struct SankeyGraph {
    pub currency: String,
    pub nodes: Vec<SankeyNode>,
    pub links: Vec<SankeyLink>,
}

#[derive(Debug)]
pub struct NetWorthPoint {
    pub as_of: String,
    pub net_worth_minor: i64,
    pub assets_minor: i64,
    pub liabilities_minor: i64,
}

#[derive(Debug)]
pub struct NetWorthSeries {
    pub currency: String,
    pub points: Vec<NetWorthPoint>,
    /// Currency codes whose accounts are absent from every point, for want of a rate.
    pub unconverted: Vec<String>,
    /// Newest date across the rates used, or `None` if none are on record.
    pub rates_as_of: Option<String>,
}

#[derive(Debug)]
pub struct CategoryTotal {
    /// `None` for the uncategorised bucket.
    pub category_id: Option<i64>,
    pub name: String,
    pub color: Option<String>,
    pub total_minor: i64,
}

#[derive(Debug)]
pub struct CategoryBreakdown {
    pub currency: String,
    pub from: String,
    pub to: String,
    pub income: Vec<CategoryTotal>,
    pub expense: Vec<CategoryTotal>,
}

/// One bucket of a grouped spend report: the axis value, and what was spent or earned in it.
#[derive(Debug, Clone, PartialEq, Eq)]
pub struct SpendGroup {
    pub id: Option<i64>,
    pub label: String,
    /// Always positive: the list it appears in says which side of zero it is.
    pub total_minor: i64,
}

#[derive(Debug)]
pub struct SecuredLiability {
    pub account_id: i64,
    pub name: String,
    pub kind: AccountKind,
    /// Amount owed, in the report currency (positive).
    pub balance_minor: i64,
}

/// What the category lookups hold for one category.
#[derive(Debug, Clone)]
pub struct CategoryInfo {
    pub parent_id: Option<i64>,
    pub name: String,
    pub color: Option<String>,
    pub kind: CategoryKind,
}

/// The category tree as every roll-up reads it: each category's parent, name, colour and
/// kind, by id.
pub struct Categories {
    entries: HashMapWithView<i64, CategoryInfo>,
    /// Every known id once, in the order first recorded.
    ids: Vec<i64>,
}

/// The parent of `id` in `m`, if `id` is known and has one.
pub open spec fn parent_in(m: Map<i64, CategoryInfo>, id: i64) -> Option<i64> {
    if m.contains_key(id) {
        m[id].parent_id
    } else {
        None
    }
}

/// Walk up from `cur` at most `fuel` hops, stopping at a category with no parent or one the
/// map does not know.
pub open spec fn top_from(m: Map<i64, CategoryInfo>, cur: i64, fuel: nat) -> i64
    decreases fuel,
{
    if fuel == 0 {
        cur
    } else {
        match parent_in(m, cur) {
            Some(p) => top_from(m, p, (fuel - 1) as nat),
            None => cur,
        }
    }
}

/// The ancestors met walking up from `cur`, appended to `seen`, at most `fuel` hops, and
/// stopping before any id already seen (so a cycle cannot loop).
pub open spec fn walk_up(m: Map<i64, CategoryInfo>, cur: i64, seen: Seq<i64>, fuel: nat) -> Seq<
    i64,
>
    decreases fuel,
{
    if fuel == 0 {
        seen
    } else {
        match parent_in(m, cur) {
            Some(p) => if seen.contains(p) {
                seen
            } else {
                walk_up(m, p, seen.push(p), (fuel - 1) as nat)
            },
            None => seen,
        }
    }
}

/// The ancestor chain of `id`, root first and ending at `id`.
pub open spec fn ancestry(m: Map<i64, CategoryInfo>, id: i64) -> Seq<i64> {
    walk_up(m, id, seq![id], 64).reverse()
}

/// A category's name, or `?` for an id the map does not know.
pub open spec fn name_in(m: Map<i64, CategoryInfo>, id: i64) -> Seq<char> {
    if m.contains_key(id) {
        m[id].name@
    } else {
        "?"@
    }
}

/// `parts` joined with `sep` between each neighbouring pair.
pub open spec fn joined(parts: Seq<Seq<char>>, sep: Seq<char>) -> Seq<char>
    decreases parts.len(),
{
    if parts.len() == 0 {
        Seq::empty()
    } else if parts.len() == 1 {
        parts[0]
    } else {
        joined(parts.drop_last(), sep) + sep + parts.last()
    }
}

fn contains_id(v: &Vec<i64>, x: i64) -> (r: bool)
    ensures
        r == v@.contains(x),
{
    let mut i: usize = 0;
    while i < v.len()
        invariant
            i <= v@.len(),
            forall|j: int| 0 <= j < i ==> v@[j] != x,
        decreases v@.len() - i,
    {
        if v[i] == x {
            return true;
        }
        i = i + 1;
    }
    false
}

fn reversed(v: Vec<i64>) -> (r: Vec<i64>)
    ensures
        r@ == v@.reverse(),
{
    let mut r: Vec<i64> = Vec::new();
    let mut i: usize = v.len();
    while i > 0
        invariant
            i <= v@.len(),
            r@ == v@.subrange(i as int, v@.len() as int).reverse(),
        decreases i,
    {
        i = i - 1;
        r.push(v[i]);
        assert(r@ =~= v@.subrange(i as int, v@.len() as int).reverse());
    }
    assert(v@.subrange(0, v@.len() as int) =~= v@);
    r
}

impl Categories {
    /// The lookups, by id.
    pub closed spec fn map(&self) -> Map<i64, CategoryInfo> {
        self.entries@
    }

    /// Every known id is listed exactly once.
    pub closed spec fn wf(&self) -> bool {
        &&& forall|i: int, j: int|
            0 <= i < j < self.ids@.len() ==> #[trigger] self.ids@[i] != #[trigger] self.ids@[j]
        &&& forall|i: int| 0 <= i < self.ids@.len() ==> self.entries@.contains_key(#[trigger] self.ids@[i])
        &&& forall|k: i64| #[trigger] self.entries@.contains_key(k) ==> exists|i: int|
            0 <= i < self.ids@.len() && #[trigger] self.ids@[i] == k
    }

    /// No categories at all.
    pub fn new() -> (c: Categories)
        ensures
            c.map() == Map::<i64, CategoryInfo>::empty(),
            c.wf(),
    {
        Categories { entries: HashMapWithView::new(), ids: Vec::new() }
    }

    /// Record `info` under `id`, listing the id the first time it is seen.
    fn put(&mut self, id: i64, info: CategoryInfo)
        requires
            old(self).wf(),
        ensures
            final(self).wf(),
            final(self).map() == old(self).map().insert(id, info),
    {
        let fresh = !self.entries.contains_key(&id);
        let ghost before = self.ids@;
        if fresh {
            self.ids.push(id);
        }
        self.entries.insert(id, info);
        proof {
            if fresh {
                assert forall|i: int, j: int|
                    0 <= i < j < self.ids@.len() implies #[trigger] self.ids@[i]
                    != #[trigger] self.ids@[j] by {
                    if j == before.len() {
                        assert(old(self).entries@.contains_key(before[i]));
                    }
                }
                assert(self.ids@[before.len() as int] == id);
            }
            assert forall|k: i64| #[trigger] self.entries@.contains_key(k) implies exists|i: int|
                0 <= i < self.ids@.len() && #[trigger] self.ids@[i] == k by {
                if k == id && fresh {
                    assert(self.ids@[before.len() as int] == id);
                } else {
                    let i = choose|i: int| 0 <= i < before.len() && #[trigger] before[i] == k;
                    assert(self.ids@[i] == k);
                }
            }
            assert forall|i: int| 0 <= i < self.ids@.len() implies self.entries@.contains_key(
                #[trigger] self.ids@[i],
            ) by {
                if i < before.len() {
                    assert(self.ids@[i] == before[i]);
                }
            }
        }
    }

    /// Record one category, replacing anything recorded under its id.
    pub fn insert(&mut self, id: i64, parent_id: Option<i64>, name: &str, kind: CategoryKind)
        requires
            old(self).wf(),
        ensures
            final(self).wf(),
            final(self).map().dom() == old(self).map().dom().insert(id),
            forall|k: i64| k != id ==> #[trigger] final(self).map()[k] == old(self).map()[k],
            final(self).map()[id].parent_id == parent_id,
            final(self).map()[id].name@ == name@,
            final(self).map()[id].color is None,
            final(self).map()[id].kind == kind,
    {
        self.put(id, CategoryInfo { parent_id, name: String::from_str(name), color: None, kind });
    }

    /// Every top-level (parentless) category and its kind, each once, in no particular order.
    pub fn top_level_kinds(&self) -> (r: Vec<(i64, CategoryKind)>)
        requires
            self.wf(),
        ensures
            forall|id: i64, k: CategoryKind|
                r@.contains((id, k)) <==> (self.map().contains_key(id) && self.map()[id].parent_id
                    is None && self.map()[id].kind == k),
            forall|i: int, j: int| 0 <= i < j < r@.len() ==> (#[trigger] r@[i]).0 != (#[trigger] r@[j]).0,
    {
        let mut out: Vec<(i64, CategoryKind)> = Vec::new();
        let mut i: usize = 0;
        while i < self.ids.len()
            invariant
                i <= self.ids@.len(),
                self.wf(),
                forall|id: i64, k: CategoryKind|
                    out@.contains((id, k)) <==> (exists|m: int| 0 <= m < i && #[trigger] self.ids@[m] == id)
                        && self.map()[id].parent_id is None && self.map()[id].kind == k,
                forall|a: int, b: int|
                    0 <= a < b < out@.len() ==> (#[trigger] out@[a]).0 != (#[trigger] out@[b]).0,
                forall|a: int|
                    0 <= a < out@.len() ==> exists|m: int| 0 <= m < i && #[trigger] self.ids@[m] == (#[trigger] out@[a]).0,
            decreases self.ids@.len() - i,
        {
            let id = self.ids[i];
            let ghost before = out@;
            match self.entries.get(&id) {
                Some(info) => {
                    if info.parent_id.is_none() {
                        out.push((id, info.kind));
                    }
                },
                None => {},
            }
            proof {
                assert forall|cid: i64, k: CategoryKind|
                    out@.contains((cid, k)) <==> (exists|m: int| 0 <= m < i + 1 && #[trigger] self.ids@[m] == cid)
                        && self.map()[cid].parent_id is None && self.map()[cid].kind == k by {
                    if out@.contains((cid, k)) && !before.contains((cid, k)) {
                        assert(self.ids@[i as int] == cid);
                    }
                    if exists|m: int| 0 <= m < i + 1 && #[trigger] self.ids@[m] == cid {
                        let m = choose|m: int| 0 <= m < i + 1 && #[trigger] self.ids@[m] == cid;
                        if m == i && self.map()[cid].parent_id is None && self.map()[cid].kind == k {
                            assert(out@[out@.len() - 1] == (cid, k));
                        } else if m < i && self.map()[cid].parent_id is None && self.map()[cid].kind == k {
                            assert(before.contains((cid, k)));
                            let a = choose|a: int| 0 <= a < before.len() && before[a] == (cid, k);
                            assert(out@[a] == (cid, k));
                        }
                    }
                    if before.contains((cid, k)) {
                        let a = choose|a: int| 0 <= a < before.len() && before[a] == (cid, k);
                        assert(out@[a] == (cid, k));
                    }
                }
                assert forall|a: int, b: int|
                    0 <= a < b < out@.len() implies (#[trigger] out@[a]).0 != (#[trigger] out@[b]).0 by {
                    if b == before.len() && out@.len() > before.len() {
                        let m = choose|m: int| 0 <= m < i && #[trigger] self.ids@[m] == before[a].0;
                        assert(out@[a] == before[a]);
                    } else {
                        assert(out@[a] == before[a] && out@[b] == before[b]);
                    }
                }
                assert forall|a: int| 0 <= a < out@.len() implies exists|m: int|
                    0 <= m < i + 1 && #[trigger] self.ids@[m] == (#[trigger] out@[a]).0 by {
                    if a < before.len() {
                        assert(out@[a] == before[a]);
                        let m = choose|m: int| 0 <= m < i && #[trigger] self.ids@[m] == before[a].0;
                        assert(self.ids@[m] == out@[a].0);
                    } else {
                        assert(self.ids@[i as int] == out@[a].0);
                    }
                }
            }
            i = i + 1;
        }
        proof {
            assert forall|id: i64, k: CategoryKind|
                out@.contains((id, k)) <==> (self.map().contains_key(id) && self.map()[id].parent_id
                    is None && self.map()[id].kind == k) by {
                if self.map().contains_key(id) {
                    let m = choose|m: int| 0 <= m < self.ids@.len() && #[trigger] self.ids@[m] == id;
                    assert(self.ids@[m] == id);
                }
                if out@.contains((id, k)) {
                    let m = choose|m: int| 0 <= m < i && #[trigger] self.ids@[m] == id;
                    assert(self.entries@.contains_key(self.ids@[m]));
                }
            }
        }
        out
    }

    /// The lookups for a list of categories, as loaded; a later entry for the same id wins.
    pub fn from_categories(cats: Vec<Category>) -> (c: Categories)
        ensures
            forall|i: int|
                0 <= i < cats@.len() && (forall|j: int|
                    i < j < cats@.len() ==> cats@[j].id != cats@[i].id) ==> c.map().contains_key(
                    #[trigger] cats@[i].id,
                ) && c.map()[cats@[i].id].parent_id == cats@[i].parent_id
                    && c.map()[cats@[i].id].name == cats@[i].name && c.map()[cats@[i].id].color
                    == cats@[i].color && c.map()[cats@[i].id].kind == cats@[i].kind,
            forall|id: i64|
                c.map().contains_key(id) ==> exists|i: int|
                    0 <= i < cats@.len() && #[trigger] cats@[i].id == id,
            c.wf(),
    {
        let mut c = Categories::new();
        let mut i: usize = 0;
        let n = cats.len();
        let mut rest = cats;
        let ghost all = rest@;
        let mut done: Vec<Category> = Vec::new();
        while rest.len() > 0
            invariant
                i == done@.len(),
                done@ + rest@ == all,
                n == all.len(),
                c.wf(),
                forall|k: int|
                    0 <= k < i && (forall|j: int| k < j < i ==> all[j].id != all[k].id)
                        ==> c.map().contains_key(#[trigger] all[k].id) && c.map()[all[k].id].parent_id
                        == all[k].parent_id && c.map()[all[k].id].name == all[k].name
                        && c.map()[all[k].id].color == all[k].color && c.map()[all[k].id].kind
                        == all[k].kind,
                forall|id: i64|
                    c.map().contains_key(id) ==> exists|k: int| 0 <= k < i && #[trigger] all[k].id == id,
            decreases rest@.len(),
        {
            let cat = rest.remove(0);
            proof {
                assert(all[i as int] == cat);
            }
            let ghost before = c.map();
            c.put(
                cat.id,
                CategoryInfo {
                    parent_id: cat.parent_id,
                    name: cat.name.clone(),
                    color: match &cat.color {
                        Some(s) => Some(s.clone()),
                        None => None,
                    },
                    kind: cat.kind,
                },
            );
            proof {
                assert forall|k: int|
                    0 <= k < i + 1 && (forall|j: int| k < j < i + 1 ==> all[j].id != all[k].id)
                        implies c.map().contains_key(#[trigger] all[k].id) && c.map()[all[k].id].parent_id
                    == all[k].parent_id && c.map()[all[k].id].name == all[k].name
                    && c.map()[all[k].id].color == all[k].color && c.map()[all[k].id].kind
                    == all[k].kind by {
                    if k < i {
                        assert(all[i as int].id != all[k].id);
                    }
                }
                assert forall|id: i64| c.map().contains_key(id) implies exists|k: int|
                    0 <= k < i + 1 && #[trigger] all[k].id == id by {
                    if id == cat.id {
                        assert(all[i as int].id == id);
                    } else {
                        assert(before.contains_key(id));
                    }
                }
            }
            done.push(cat);
            i = i + 1;
            assert(done@ + rest@ =~= all);
        }
        assert(done@ =~= all);
        c
    }

    /// The top-level ancestor of `id`: walk up at most 64 parents. An id that is not known
    /// is its own top.
    pub fn top_ancestor(&self, id: i64) -> (r: i64)
        ensures
            r == top_from(self.map(), id, 64),
    {
        let mut cur = id;
        let mut hops: usize = 0;
        while hops < 64
            invariant
                hops <= 64,
                top_from(self.map(), cur, (64 - hops) as nat) == top_from(self.map(), id, 64),
            decreases 64 - hops,
        {
            match self.entries.get(&cur) {
                Some(info) => match info.parent_id {
                    Some(p) => {
                        cur = p;
                    },
                    None => {
                        return cur;
                    },
                },
                None => {
                    return cur;
                },
            }
            hops = hops + 1;
        }
        cur
    }

    /// The ancestor chain of `id`, root first and ending at `id` itself. At most 64 hops, and
    /// a parent already on the chain stops the walk, so a damaged tree cannot hang a report.
    pub fn chain(&self, id: i64) -> (r: Vec<i64>)
        ensures
            r@ == ancestry(self.map(), id),
    {
        let mut chain: Vec<i64> = Vec::new();
        chain.push(id);
        let mut cur = id;
        let mut hops: usize = 0;
        while hops < 64
            invariant
                hops <= 64,
                walk_up(self.map(), cur, chain@, (64 - hops) as nat) == walk_up(
                    self.map(),
                    id,
                    seq![id],
                    64,
                ),
            ensures
                chain@ == walk_up(self.map(), id, seq![id], 64),
            decreases 64 - hops,
        {
            let parent = match self.entries.get(&cur) {
                Some(info) => info.parent_id,
                None => None,
            };
            match parent {
                Some(p) => {
                    if contains_id(&chain, p) {
                        break;
                    }
                    chain.push(p);
                    cur = p;
                },
                None => {
                    break;
                },
            }
            hops = hops + 1;
        }
        reversed(chain)
    }

    /// [`Categories::chain`] cut to at most `max` levels, root first: a category nested
    /// deeper than `max` reports as its ancestor at level `max - 1`.
    pub fn chain_to_depth(&self, id: i64, max: usize) -> (r: Vec<i64>)
        ensures
            r@ == if ancestry(self.map(), id).len() <= max {
                ancestry(self.map(), id)
            } else {
                ancestry(self.map(), id).take(max as int)
            },
    {
        let mut chain = self.chain(id);
        chain.truncate(max);
        chain
    }

    /// A category's own colour, if the user set one.
    pub fn color_of(&self, id: i64) -> (r: Option<String>)
        ensures
            r == (if self.map().contains_key(id) {
                self.map()[id].color
            } else {
                None
            }),
    {
        match self.entries.get(&id) {
            Some(info) => match &info.color {
                Some(c) => Some(c.clone()),
                None => None,
            },
            None => None,
        }
    }

    /// Whether `id` is a transfer category.
    pub fn is_transfer(&self, id: i64) -> (r: bool)
        ensures
            r == (self.map().contains_key(id) && self.map()[id].kind == CategoryKind::Transfer),
    {
        match self.entries.get(&id) {
            Some(info) => match info.kind {
                CategoryKind::Transfer => true,
                _ => false,
            },
            None => false,
        }
    }

    /// A category's name, or `?` for one that is not known.
    pub fn name_of(&self, id: i64) -> (r: String)
        ensures
            r@ == name_in(self.map(), id),
    {
        match self.entries.get(&id) {
            Some(info) => info.name.clone(),
            None => String::from_str("?"),
        }
    }

    /// A category's kind, if it is known.
    pub fn kind_of(&self, id: i64) -> (r: Option<CategoryKind>)
        ensures
            r == (if self.map().contains_key(id) {
                Some(self.map()[id].kind)
            } else {
                None
            }),
    {
        match self.entries.get(&id) {
            Some(info) => Some(info.kind),
            None => None,
        }
    }

    /// A category's ancestry rendered root-first (`Food > Groceries`).
    pub fn path_of(&self, id: i64) -> (r: String)
        ensures
            r@ == joined(
                ancestry(self.map(), id).map_values(|c: i64| name_in(self.map(), c)),
                " > "@,
            ),
    {
        let chain = self.chain(id);
        let ghost names = chain@.map_values(|c: i64| name_in(self.map(), c));
        let mut out = String::new();
        let mut i: usize = 0;
        while i < chain.len()
            invariant
                i <= chain@.len(),
                names == chain@.map_values(|c: i64| name_in(self.map(), c)),
                out@ == joined(names.take(i as int), " > "@),
            decreases chain@.len() - i,
        {
            if i > 0 {
                out.append(" > ");
            }
            let name = self.name_of(chain[i]);
            out.append(name.as_str());
            proof {
                let next = names.take(i + 1);
                assert(next.drop_last() =~= names.take(i as int));
                assert(next.last() == name@);
                if i == 0 {
                    assert(out@ =~= joined(next, " > "@));
                } else {
                    assert(out@ =~= joined(next, " > "@));
                }
            }
            i = i + 1;
        }
        proof {
            assert(names.take(i as int) =~= names);
        }
        out
    }
}

/// One transaction as the spend reports read it.
#[derive(Debug, Clone)]
pub struct SpendTransaction {
    pub account_id: i64,
    pub account_name: String,
    pub account_kind: AccountKind,
    /// The stored posting date, read tolerantly.
    pub posted_at: String,
    pub amount_minor: i64,
    pub currency_code: String,
    pub category_id: Option<i64>,
    pub merchant_id: Option<i64>,
    /// The payee text, when there is one.
    pub merchant: Option<String>,
    pub is_one_off: bool,
    /// The other leg, when this is one half of a linked transfer.
    pub linked_transaction_id: Option<i64>,
    /// Whose spending it is, as the loader resolved it (override, else the account's).
    pub attribution: Ownership,
}

/// Which transactions the spend reports count: those inside `from..=to` and, when
/// `attributed_to` is set, attributed to that owner; one-offs only when asked for.
#[derive(Debug, Clone, Copy)]
pub struct SpendWindow {
    pub from: Day,
    pub to: Day,
    pub include_one_off: bool,
    pub attributed_to: Option<Ownership>,
}

/// Whether a transaction counts as spending in `w`, given the categories `cats`: attributed to
/// the requested owner (if any), not a leg of a linked transfer, not on an account whose
/// bookkeeping never counts, not a one-off unless those are included, not in a transfer
/// category, and posted on a readable date inside the window.
pub open spec fn counts_as_spend(w: SpendWindow, cats: Map<i64, CategoryInfo>, t: SpendTransaction) -> bool {
    &&& (w.attributed_to matches Some(owner) ==> t.attribution == owner)
    &&& t.linked_transaction_id is None
    &&& !excluded_from_spend(t.account_kind)
    &&& (w.include_one_off || !t.is_one_off)
    &&& !(t.category_id matches Some(c) && cats.contains_key(c) && cats[c].kind
        == CategoryKind::Transfer)
    &&& lenient_ymd(t.posted_at@) matches Some(d) && !earlier(d, w.from@) && !earlier(w.to@, d)
}

/// What a window counts as spending, condition by condition: a window asked for one owner's
/// spending (a person, or the household jointly) counts only transactions attributed to that
/// owner; a leg of a linked transfer, a transaction in a transfer category, and anything on a
/// mortgage, loan, student-loan or brokerage account never counts; a one-off counts only when
/// one-offs are included; and the posting day must read and fall inside the window, both ends
/// included.
pub proof fn lemma_what_a_window_counts(w: SpendWindow, cats: Map<i64, CategoryInfo>, t: SpendTransaction)
    ensures
        counts_as_spend(w, cats, t) && w.attributed_to == Some(Ownership::Joint) ==> t.attribution
            == Ownership::Joint,
        forall|o: Ownership|
            counts_as_spend(w, cats, t) && #[trigger] w.attributed_to == Some(o) ==> t.attribution == o,
        counts_as_spend(w, cats, t) ==> t.linked_transaction_id is None,
        counts_as_spend(w, cats, t) ==> t.account_kind != AccountKind::Mortgage && t.account_kind
            != AccountKind::Loan && t.account_kind != AccountKind::StudentLoan && t.account_kind
            != AccountKind::Brokerage,
        counts_as_spend(w, cats, t) && !w.include_one_off ==> !t.is_one_off,
        forall|c: i64|
            counts_as_spend(w, cats, t) && #[trigger] t.category_id == Some(c) && cats.contains_key(c)
                ==> cats[c].kind != CategoryKind::Transfer,
        counts_as_spend(w, cats, t) ==> (lenient_ymd(t.posted_at@) is Some && !earlier(
            lenient_ymd(t.posted_at@)->Some_0,
            w.from@,
        ) && !earlier(w.to@, lenient_ymd(t.posted_at@)->Some_0)),
{
}

/// A transaction that meets every one of those conditions counts: attributed to the owner
/// asked for (if any), not a transfer leg, not on an account kind that never counts, not an
/// excluded one-off, not in a transfer category, and posted on a readable day inside the
/// window.
pub proof fn lemma_a_transaction_meeting_every_condition_counts(
    w: SpendWindow,
    cats: Map<i64, CategoryInfo>,
    t: SpendTransaction,
    day: (int, int, int),
)
    requires
        w.attributed_to is None || w.attributed_to == Some(t.attribution),
        t.linked_transaction_id is None,
        t.account_kind != AccountKind::Mortgage,
        t.account_kind != AccountKind::Loan,
        t.account_kind != AccountKind::StudentLoan,
        t.account_kind != AccountKind::Brokerage,
        w.include_one_off || !t.is_one_off,
        forall|c: i64| #[trigger] t.category_id == Some(c) && cats.contains_key(c) ==> cats[c].kind
            != CategoryKind::Transfer,
        lenient_ymd(t.posted_at@) == Some(day),
        !earlier(day, w.from@),
        !earlier(w.to@, day),
    ensures
        counts_as_spend(w, cats, t),
{
}

impl SpendWindow {
    /// Whether the spend reports count transaction `t`; see [`counts_as_spend`].
    pub fn keeps(&self, cats: &Categories, t: &SpendTransaction) -> (r: bool)
        ensures
            r == counts_as_spend(*self, cats.map(), *t),
    {
        match self.attributed_to {
            Some(owner) => {
                if t.attribution != owner {
                    return false;
                }
            },
            None => {},
        }
        if t.linked_transaction_id.is_some() {
            return false;
        }
        if is_excluded_from_spend(t.account_kind) {
            return false;
        }
        if !self.include_one_off && t.is_one_off {
            return false;
        }
        match t.category_id {
            Some(cid) => {
                if cats.is_transfer(cid) {
                    return false;
                }
            },
            None => {},
        }
        match Day::parse(t.posted_at.as_str()) {
            Some(d) => !d.is_before(&self.from) && !self.to.is_before(&d),
            None => false,
        }
    }
}

/// The axis a spend report totals along.
#[derive(Debug, Clone, Copy, PartialEq, Eq, Structural, Hash)]
pub enum GroupBy {
    Category,
    Merchant,
    Account,
    Month,
}

/// A category's ancestry rendered root-first, as [`Categories::path_of`] renders it.
pub open spec fn category_path(cats: Map<i64, CategoryInfo>, id: i64) -> Seq<char> {
    joined(ancestry(cats, id).map_values(|c: i64| name_in(cats, c)), " > "@)
}

/// The first seven bytes of a posting date, `YYYY-MM`, when they end on a character
/// boundary; otherwise the whole text, so a date too short to slice is its own bucket.
pub open spec fn month_of(posted_at: Seq<char>) -> Seq<char> {
    match chars_in_width(posted_at, 7) {
        Some(k) => posted_at.take(k),
        None => posted_at,
    }
}

/// Which bucket a transaction falls in along `g`: `(key, id, label)`. Keys keep buckets
/// apart; labels are what a reader sees.
///
/// By category, the full path (two "Groceries" under different parents stay two buckets);
/// by merchant, the merchant record, else the payee text case-folded for the key and shown
/// as written; by account; by month, `YYYY-MM`.
pub open spec fn bucket_of(t: SpendTransaction, cats: Map<i64, CategoryInfo>, g: GroupBy) -> (
    Seq<char>,
    Option<i64>,
    Seq<char>,
) {
    match g {
        GroupBy::Category => match t.category_id {
            Some(id) => ("c"@ + int_decimal(id as int), Some(id), category_path(cats, id)),
            None => ("c0"@, None, "Uncategorised"@),
        },
        GroupBy::Merchant => match t.merchant_id {
            Some(id) => (
                "m"@ + int_decimal(id as int),
                Some(id),
                match t.merchant {
                    Some(n) => n@,
                    None => "(unnamed merchant)"@,
                },
            ),
            None => match t.merchant {
                Some(n) => if n@.len() > 0 {
                    ("t"@ + lowercased(n@), None, n@)
                } else {
                    ("t"@, None, "(no merchant)"@)
                },
                None => ("t"@, None, "(no merchant)"@),
            },
        },
        GroupBy::Account => (
            "a"@ + int_decimal(t.account_id as int),
            Some(t.account_id),
            t.account_name@,
        ),
        GroupBy::Month => (month_of(t.posted_at@), None, month_of(t.posted_at@)),
    }
}

/// Which bucket transaction `t` falls in when a spend report totals along `group_by`: the
/// bucket's key, its id where it has one, and its label. See [`bucket_of`].
pub fn spend_bucket(t: &SpendTransaction, cats: &Categories, group_by: GroupBy) -> (r: (
    String,
    Option<i64>,
    String,
))
    ensures
        (r.0@, r.1, r.2@) == bucket_of(*t, cats.map(), group_by),
{
    match group_by {
        GroupBy::Category => match t.category_id {
            Some(id) => {
                let mut key = String::from_str("c");
                append_decimal(&mut key, id);
                (key, Some(id), cats.path_of(id))
            },
            None => (String::from_str("c0"), None, String::from_str("Uncategorised")),
        },
        GroupBy::Merchant => match t.merchant_id {
            Some(id) => {
                let mut key = String::from_str("m");
                append_decimal(&mut key, id);
                let label = match &t.merchant {
                    Some(n) => n.clone(),
                    None => String::from_str("(unnamed merchant)"),
                };
                (key, Some(id), label)
            },
            None => {
                match &t.merchant {
                    Some(n) => {
                        if n.as_str().unicode_len() > 0 {
                            let folded = lowercase(n.as_str());
                            return (join2("t", folded.as_str()), None, n.clone());
                        }
                    },
                    None => {},
                }
                (String::from_str("t"), None, String::from_str("(no merchant)"))
            },
        },
        GroupBy::Account => {
            let mut key = String::from_str("a");
            append_decimal(&mut key, t.account_id);
            (key, Some(t.account_id), t.account_name.clone())
        },
        GroupBy::Month => {
            let month = match byte_prefix(t.posted_at.as_str(), 7) {
                Some(p) => p.to_string(),
                None => t.posted_at.clone(),
            };
            let label = month.clone();
            (month, None, label)
        },
    }
}

} // verus!
