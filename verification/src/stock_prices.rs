//! Cached closing prices, and the stock-price refresh decisions: which tickers a sweep
//! fetches, and what a quote the cache refused means for the sweep.

use vstd::prelude::*;

use crate::calendar::{day_of_year, days_before, days_before_month, lemma_past_january, Day, MIN_DAY_YEAR};
use crate::error::{truncated_for_wire, AppError, MAX_UPSTREAM_DETAIL_CHARS};
use crate::lifecycle::Span;
use crate::text::str_eq;

verus! {

/// One cached close. The price is kept as the decimal text the feed gave.
#[derive(Debug, Clone)]
pub struct StockPrice {
    pub ticker: String,
    pub exchange: String,
    pub as_of: String,
    pub close: String,
    pub currency_code: String,
    pub fetched_at: String,
}

/// How far back a backfill looks around a target date, in days: enough to span weekends and
/// most holiday clusters, so the nearest preceding trading day is found.
pub const BACKFILL_LOOKBACK_DAYS: i64 = 10;

/// Whether [`BACKFILL_LOOKBACK_DAYS`] days before `d` is still a day chrono's dates reach:
/// anything but the first ten days of the first year.
pub open spec fn has_backfill_window(d: (int, int, int)) -> bool {
    d.0 > MIN_DAY_YEAR || d.1 > 1 || d.2 > 10
}

/// The first day a backfill for `as_of` asks the feed for: [`BACKFILL_LOOKBACK_DAYS`] days
/// earlier. The first ten days chrono's dates reach have no such window.
pub fn backfill_start(as_of: Day) -> (r: Day)
    requires
        has_backfill_window(as_of@),
    ensures
        r@ == days_before(as_of@, BACKFILL_LOOKBACK_DAYS as nat),
{
    proof {
        use_type_invariant(&as_of);
        if as_of@.0 <= MIN_DAY_YEAR {
            if as_of@.1 > 1 {
                lemma_past_january(as_of@.0, as_of@.1);
            } else {
                reveal_with_fuel(days_before_month, 1);
            }
            assert(day_of_year(as_of@) > 10);
        }
    }
    as_of.days_earlier(10)
}

/// How often stock prices are polled: daily, the resolution of the free sources.
pub fn stock_poll_interval() -> (s: Span)
    ensures
        s@ == 24 * 60 * 60 * 1_000_000_000,
{
    Span::from_secs(24 * 60 * 60)
}

/// A listed symbol held somewhere, and the exchange it was recorded against (may be empty).
#[derive(Debug, Clone)]
pub struct SharesTicker {
    pub ticker: String,
    pub exchange: String,
}

/// Whether two tickers name the same listing.
pub open spec fn same_listing(a: SharesTicker, b: SharesTicker) -> bool {
    a.ticker@ == b.ticker@ && a.exchange@ == b.exchange@
}

/// `s` with every listing kept at its first appearance and later repeats dropped.
pub open spec fn first_of_each(s: Seq<SharesTicker>) -> Seq<SharesTicker>
    decreases s.len(),
{
    if s.len() == 0 {
        Seq::empty()
    } else if exists|j: int| 0 <= j < s.len() - 1 && #[trigger] same_listing(s[j], s.last()) {
        first_of_each(s.drop_last())
    } else {
        first_of_each(s.drop_last()).push(s.last())
    }
}

proof fn lemma_first_of_each_covers(s: Seq<SharesTicker>)
    ensures
        forall|k: int|
            0 <= k < first_of_each(s).len() ==> exists|j: int|
                0 <= j < s.len() && same_listing(#[trigger] first_of_each(s)[k], s[j]),
        forall|j: int|
            0 <= j < s.len() ==> exists|k: int|
                0 <= k < first_of_each(s).len() && same_listing(first_of_each(s)[k], #[trigger] s[j]),
    decreases s.len(),
{
    if s.len() > 0 {
        let p = s.drop_last();
        lemma_first_of_each_covers(p);
        assert forall|k: int| 0 <= k < first_of_each(s).len() implies exists|j: int|
            0 <= j < s.len() && same_listing(#[trigger] first_of_each(s)[k], s[j]) by {
            if k < first_of_each(p).len() {
                let j = choose|j: int| 0 <= j < p.len() && same_listing(first_of_each(p)[k], p[j]);
                assert(s[j] == p[j]);
            } else {
                assert(same_listing(first_of_each(s)[k], s[s.len() - 1]));
            }
        }
        assert forall|j: int| 0 <= j < s.len() implies exists|k: int|
            0 <= k < first_of_each(s).len() && same_listing(first_of_each(s)[k], #[trigger] s[j]) by {
            if j < s.len() - 1 {
                assert(s[j] == p[j]);
                let k = choose|k: int|
                    0 <= k < first_of_each(p).len() && same_listing(first_of_each(p)[k], p[j]);
                assert(first_of_each(s)[k] == first_of_each(p)[k]);
            } else if exists|i: int| 0 <= i < s.len() - 1 && #[trigger] same_listing(s[i], s.last()) {
                let i = choose|i: int| 0 <= i < s.len() - 1 && #[trigger] same_listing(s[i], s.last());
                assert(s[i] == p[i]);
                let k = choose|k: int|
                    0 <= k < first_of_each(p).len() && same_listing(first_of_each(p)[k], p[i]);
                assert(first_of_each(s)[k] == first_of_each(p)[k]);
            } else {
                let k = first_of_each(s).len() - 1;
                assert(same_listing(first_of_each(s)[k], s[j]));
            }
        }
    }
}

/// Keeping first appearances of `s` then `t`: `t` is dropped exactly when a listing already
/// kept names it.
proof fn lemma_first_of_each_step(s: Seq<SharesTicker>, t: SharesTicker)
    ensures
        first_of_each(s.push(t)) == (if exists|k: int|
            0 <= k < first_of_each(s).len() && #[trigger] same_listing(first_of_each(s)[k], t) {
            first_of_each(s)
        } else {
            first_of_each(s).push(t)
        }),
{
    let n = s.push(t);
    assert(n.drop_last() =~= s);
    lemma_first_of_each_covers(s);
    let kept = exists|k: int|
        0 <= k < first_of_each(s).len() && #[trigger] same_listing(first_of_each(s)[k], t);
    let earlier = exists|j: int| 0 <= j < n.len() - 1 && #[trigger] same_listing(n[j], n.last());
    if kept {
        let k = choose|k: int|
            0 <= k < first_of_each(s).len() && #[trigger] same_listing(first_of_each(s)[k], t);
        let j = choose|j: int|
            0 <= j < s.len() && same_listing(#[trigger] first_of_each(s)[k], s[j]);
        assert(n[j] == s[j]);
        assert(same_listing(n[j], n.last()));
    }
    if earlier {
        let j = choose|j: int| 0 <= j < n.len() - 1 && #[trigger] same_listing(n[j], n.last());
        assert(n[j] == s[j]);
        let k = choose|k: int|
            0 <= k < first_of_each(s).len() && same_listing(first_of_each(s)[k], #[trigger] s[j]);
        assert(same_listing(first_of_each(s)[k], t));
    }
}

fn holds_listing(out: &Vec<SharesTicker>, t: &SharesTicker) -> (r: bool)
    ensures
        r == exists|k: int| 0 <= k < out@.len() && #[trigger] same_listing(out@[k], *t),
{
    let mut i: usize = 0;
    while i < out.len()
        invariant
            i <= out@.len(),
            forall|k: int| 0 <= k < i ==> !#[trigger] same_listing(out@[k], *t),
        decreases out@.len() - i,
    {
        if str_eq(out[i].ticker.as_str(), t.ticker.as_str()) && str_eq(
            out[i].exchange.as_str(),
            t.exchange.as_str(),
        ) {
            assert(same_listing(out@[i as int], *t));
            return true;
        }
        i = i + 1;
    }
    false
}

/// The tickers a sweep refreshes: every single-ticker shares account's, then every ticker
/// held in a brokerage, each listing fetched once, at its first appearance.
pub fn tickers_to_refresh(shares: Vec<SharesTicker>, brokerage: Vec<SharesTicker>) -> (r: Vec<
    SharesTicker,
>)
    ensures
        r@ == first_of_each(shares@ + brokerage@),
{
    let mut rest = shares;
    let mut tail = brokerage;
    rest.append(&mut tail);
    let ghost all = rest@;
    assert(all.len() == rest.len());
    let mut out: Vec<SharesTicker> = Vec::new();
    let mut i: usize = 0;
    while rest.len() > 0
        invariant
            all == shares@ + brokerage@,
            all.len() <= usize::MAX,
            i + rest@.len() == all.len(),
            rest@ == all.subrange(i as int, all.len() as int),
            out@ == first_of_each(all.subrange(0, i as int)),
        decreases rest@.len(),
    {
        let t = rest.remove(0);
        proof {
            assert(t == all[i as int]);
            assert(all.subrange(0, i + 1) =~= all.subrange(0, i as int).push(t));
            lemma_first_of_each_step(all.subrange(0, i as int), t);
        }
        let seen = holds_listing(&out, &t);
        if !seen {
            out.push(t);
        }
        i = i + 1;
        proof {
            assert(rest@ =~= all.subrange(i as int, all.len() as int));
        }
    }
    proof {
        assert(all.subrange(0, i as int) =~= all);
    }
    out
}

/// The exchange to hand the price source: the recorded one, unless it is empty.
pub fn exchange_hint(exchange: &str) -> (r: Option<&str>)
    ensures
        r matches Some(e) ==> e@ == exchange@,
        r is None <==> exchange@.len() == 0,
{
    if exchange.unicode_len() == 0 {
        None
    } else {
        Some(exchange)
    }
}

/// Whether a failed cache write is the quote's fault rather than the database's: the cache
/// refuses a quote in an unknown currency as a validation error, and no retry can fix that.
pub fn is_unusable_quote(err: &AppError) -> (r: bool)
    ensures
        r == (err is Validation),
{
    match err {
        AppError::Validation(_) => true,
        _ => false,
    }
}

/// What one quote's cache write means for the sweep.
#[derive(Debug)]
pub enum QuoteOutcome {
    Stored,
    /// Skipped: the cache cannot take this quote, and the sweep goes on.
    Skipped,
    /// The database failed in a way a retry may fix: the sweep stops and is retried.
    Fatal(AppError),
}

/// Classify one cache write: stored, skipped (an unusable quote), or fatal (anything else).
pub fn after_quote_write(result: Result<(), AppError>) -> (o: QuoteOutcome)
    ensures
        result is Ok ==> o is Stored,
        result matches Err(e) ==> (if e is Validation {
            o is Skipped
        } else {
            o matches QuoteOutcome::Fatal(f) && f == e
        }),
{
    match result {
        Ok(()) => QuoteOutcome::Stored,
        Err(e) => {
            if is_unusable_quote(&e) {
                QuoteOutcome::Skipped
            } else {
                QuoteOutcome::Fatal(e)
            }
        },
    }
}

/// Where a one-price lookup stands.
#[derive(Debug, Clone, Copy, PartialEq, Eq, Structural)]
pub enum LookupStage {
    /// The cache has not been read yet.
    Start,
    /// The cache had no price for the day; the feed is being asked.
    Fetching,
    /// The feed's quotes are being written through to the cache.
    Writing,
    /// The lookup has answered.
    Done,
}

/// What a one-price lookup does next.
#[derive(Debug)]
pub enum LookupAction {
    /// Answer with the price the cache already holds.
    AnswerCached,
    /// Ask the feed for daily quotes from `from` to the day, passing the exchange when known.
    Fetch { from: Day, exchange: Option<String> },
    /// Go on: write the next quote, or say that all are written.
    Next,
    /// Answer with this error.
    Fail(AppError),
    /// Answer with whatever the cache now holds for the day; none when nothing usable came.
    ReadCache,
}

/// One price for `ticker` on `exchange` as of a day: read through the cache, and on a miss
/// backfill it from the feed, keeping every usable quote and dropping those the cache refuses.
#[derive(Debug)]
pub struct PriceLookup {
    pub as_of: Day,
    pub exchange: String,
    pub stage: LookupStage,
}

impl PriceLookup {
    /// A lookup for the day `as_of` on `exchange`, before the cache is read.
    pub fn new(as_of: Day, exchange: String) -> (l: PriceLookup)
        ensures
            l.as_of == as_of,
            l.exchange == exchange,
            l.stage == LookupStage::Start,
    {
        PriceLookup { as_of, exchange, stage: LookupStage::Start }
    }

    /// The cache was read: answer with its price, or ask the feed for the
    /// [`BACKFILL_LOOKBACK_DAYS`] days up to the day, with the exchange as a hint when there is
    /// one.
    pub fn cache_read(&mut self, hit: bool) -> (a: LookupAction)
        requires
            old(self).stage == LookupStage::Start,
            !hit ==> has_backfill_window(old(self).as_of@),
        ensures
            final(self).as_of == old(self).as_of,
            final(self).exchange == old(self).exchange,
            hit ==> final(self).stage == LookupStage::Done && a is AnswerCached,
            !hit ==> final(self).stage == LookupStage::Fetching && (a matches LookupAction::Fetch {
                from,
                exchange,
            } && from@ == days_before(old(self).as_of@, BACKFILL_LOOKBACK_DAYS as nat) && (
            exchange is None <==> old(self).exchange@.len() == 0) && (exchange matches Some(e)
                ==> e@ == old(self).exchange@)),
    {
        if hit {
            self.stage = LookupStage::Done;
            return LookupAction::AnswerCached;
        }
        self.stage = LookupStage::Fetching;
        let from = backfill_start(self.as_of);
        let exchange = match exchange_hint(self.exchange.as_str()) {
            Some(e) => Some(e.to_string()),
            None => None,
        };
        LookupAction::Fetch { from, exchange }
    }

    /// The feed answered, or failed with this text: write the quotes through, or answer with an
    /// upstream error carrying the bounded text.
    pub fn fetched(&mut self, result: Result<(), &str>) -> (a: LookupAction)
        requires
            old(self).stage == LookupStage::Fetching,
        ensures
            final(self).as_of == old(self).as_of,
            final(self).exchange == old(self).exchange,
            result is Ok ==> final(self).stage == LookupStage::Writing && a is Next,
            result matches Err(t) ==> final(self).stage == LookupStage::Done && (a matches LookupAction::Fail(
                AppError::Upstream(m),
            ) && m@ == truncated_for_wire(t@, MAX_UPSTREAM_DETAIL_CHARS as nat)),
    {
        match result {
            Ok(()) => {
                self.stage = LookupStage::Writing;
                LookupAction::Next
            },
            Err(t) => {
                self.stage = LookupStage::Done;
                LookupAction::Fail(AppError::upstream(t))
            },
        }
    }

    /// One quote's cache write came back: a stored quote or one the cache refuses as unusable
    /// goes on to the next; any other error is the answer.
    pub fn quote_written(&mut self, result: Result<(), AppError>) -> (a: LookupAction)
        requires
            old(self).stage == LookupStage::Writing,
        ensures
            final(self).as_of == old(self).as_of,
            final(self).exchange == old(self).exchange,
            match result {
                Ok(()) => final(self).stage == LookupStage::Writing && a is Next,
                Err(e) => if e is Validation {
                    final(self).stage == LookupStage::Writing && a is Next
                } else {
                    final(self).stage == LookupStage::Done && (a matches LookupAction::Fail(f) && f == e)
                },
            },
    {
        match after_quote_write(result) {
            QuoteOutcome::Stored | QuoteOutcome::Skipped => LookupAction::Next,
            QuoteOutcome::Fatal(e) => {
                self.stage = LookupStage::Done;
                LookupAction::Fail(e)
            },
        }
    }

    /// Every quote is written or dropped: answer from the cache.
    pub fn all_written(&mut self) -> (a: LookupAction)
        requires
            old(self).stage == LookupStage::Writing,
        ensures
            final(self).as_of == old(self).as_of,
            final(self).exchange == old(self).exchange,
            final(self).stage == LookupStage::Done,
            a is ReadCache,
    {
        self.stage = LookupStage::Done;
        LookupAction::ReadCache
    }
}

} // verus!
