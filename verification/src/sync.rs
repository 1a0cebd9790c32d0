//! Provider sync decisions: the single-flight rule, the provider tag imported rows carry, the
//! bound on a provider's error text, and what a sync does with the live balance a provider
//! reports.
//!
//! Fetching, importing and recording happen at the edge; what to refuse, what to write and
//! what to say about it is decided here.

use vstd::prelude::*;

use crate::error::{truncate_for_wire, truncated_for_wire, AppError, MAX_UPSTREAM_DETAIL_CHARS};
use crate::providers::ProviderAccount;
use crate::text::{
    append_decimal, eq_ignore_ascii_case, eq_ignoring_ascii_case, int_decimal, join2, str_eq,
};

use vstd::hash_set::HashSetWithView;

verus! {

broadcast use vstd::std_specs::hash::group_hash_axioms;

/// How much of a provider's error text is kept: the same bound as any upstream's text.
pub const MAX_SYNC_DETAIL_CHARS: usize = 500;

/// The sync bound and the upstream bound are one number.
pub proof fn lemma_sync_detail_bound_is_upstream_bound()
    ensures
        MAX_SYNC_DETAIL_CHARS == MAX_UPSTREAM_DETAIL_CHARS,
{
}

/// Bound a provider error's rendered text before it is stored or shown.
pub fn sync_detail(text: &str) -> (r: String)
    ensures
        r@ == truncated_for_wire(text@, MAX_SYNC_DETAIL_CHARS as nat),
{
    truncate_for_wire(text, MAX_SYNC_DETAIL_CHARS)
}

/// The provider ids with a sync in flight: at most one sync of a provider runs at a time.
pub struct SyncSlots {
    ids: HashSetWithView<i64>,
}

impl SyncSlots {
    /// The ids currently claimed.
    pub closed spec fn claimed(&self) -> Set<i64> {
        self.ids@
    }

    /// Nothing in flight.
    pub fn new() -> (s: SyncSlots)
        ensures
            s.claimed() == Set::<i64>::empty(),
    {
        SyncSlots { ids: HashSetWithView::new() }
    }

    /// Claim `provider_id`: `true`, and the id is held, unless a sync of it is already
    /// running, in which case nothing changes.
    pub fn claim(&mut self, provider_id: i64) -> (r: bool)
        ensures
            r == !old(self).claimed().contains(provider_id),
            final(self).claimed() == old(self).claimed().insert(provider_id),
    {
        self.ids.insert(provider_id)
    }

    /// Give `provider_id` back, on whatever path the sync ended.
    pub fn release(&mut self, provider_id: i64)
        ensures
            final(self).claimed() == old(self).claimed().remove(provider_id),
    {
        self.ids.remove(&provider_id);
    }

    /// Whether a sync of `provider_id` is in flight.
    pub fn is_claimed(&self, provider_id: i64) -> (r: bool)
        ensures
            r == self.claimed().contains(provider_id),
    {
        self.ids.contains(&provider_id)
    }
}

/// The refusal when the upstream listing of `kind`'s accounts failed with `detail`.
pub fn listing_failed(kind: &str, detail: &str) -> (e: AppError)
    ensures
        e matches AppError::Validation(m) && m@ == "could not list "@ + kind@ + " accounts: "@
            + detail@,
{
    let mut m = String::from_str("could not list ");
    m.append(kind);
    m.append(" accounts: ");
    m.append(detail);
    AppError::validation(m)
}

/// How many account numbers an adoption pass filled in: a write counts only when the account
/// had no number and now has the upstream one; a write the store declined, because a number
/// was already recorded, does not.
#[derive(Debug, Clone, Copy, PartialEq, Eq, Structural)]
pub struct AdoptionTally {
    pub filled: u64,
}

impl AdoptionTally {
    /// A pass that has filled in nothing.
    pub fn new() -> (t: AdoptionTally)
        ensures
            t.filled == 0,
    {
        AdoptionTally { filled: 0 }
    }

    /// Take in what one write of an adopted number answered: whether it filled a blank.
    pub fn written(&mut self, filled_in: bool)
        requires
            old(self).filled < u64::MAX,
        ensures
            final(self).filled == old(self).filled + if filled_in {
                1int
            } else {
                0
            },
    {
        if filled_in {
            self.filled = self.filled + 1;
        }
    }
}

/// Single flight: a claimed provider cannot be claimed again until it is released, a release
/// frees it for the next sync, one provider's claim never blocks another's, and a claim that
/// is given back leaves the held slots as they were before it.
pub proof fn lemma_single_flight(held: Set<i64>, a: i64, b: i64)
    ensures
        held.insert(a).contains(a),
        !held.insert(a).remove(a).contains(a),
        a != b ==> (held.insert(a).contains(b) <==> held.contains(b)),
        !held.contains(a) ==> held.insert(a).remove(a) == held,
{
    assert(!held.contains(a) ==> held.insert(a).remove(a) =~= held);
}

/// The refusal for a second concurrent sync of one provider.
pub fn already_running(provider_id: i64) -> (e: AppError)
    ensures
        e matches AppError::Conflict(m) && m@ == "a sync of provider "@ + int_decimal(
            provider_id as int,
        ) + " is already running — refusing to start a second one"@,
{
    let mut m = String::from_str("a sync of provider ");
    append_decimal(&mut m, provider_id);
    m.append(" is already running — refusing to start a second one");
    AppError::conflict(m)
}

/// The refusal for a provider whose kind no adapter handles.
pub fn unknown_provider_kind(kind: &str) -> (e: AppError)
    ensures
        e matches AppError::Validation(m) && m@ == "unknown provider kind '"@ + kind@ + "'"@,
{
    let mut m = join2("unknown provider kind '", kind);
    m.append("'");
    AppError::validation(m)
}

/// The error a failed fetch answers with, carrying the bounded detail that was also recorded.
pub fn sync_failed(detail: &str) -> (e: AppError)
    ensures
        e matches AppError::Validation(m) && m@ == "sync failed: "@ + detail@,
{
    AppError::validation(join2("sync failed: ", detail))
}

/// The provider tag a scheduled sync's rows carry: `{kind}#{provider id}`.
pub fn sync_provider_tag(kind: &str, provider_id: i64) -> (r: String)
    ensures
        r@ == kind@ + "#"@ + int_decimal(provider_id as int),
{
    let mut r = join2(kind, "#");
    append_decimal(&mut r, provider_id);
    r
}

/// A linked provider connection as the account-number adoption sees it: its kind, the ledger
/// account it feeds, and the upstream account it is configured with, if any.
#[derive(Debug, Clone)]
pub struct LinkedConnection {
    pub kind: String,
    pub account_id: i64,
    pub external_account_id: Option<String>,
}

/// The account number the upstream reports for `external_id`: the last listed account with
/// that id that reports one.
pub open spec fn reported_number(upstream: Seq<ProviderAccount>, external_id: Seq<char>) -> Option<
    Seq<char>,
>
    decreases upstream.len(),
{
    if upstream.len() == 0 {
        None
    } else if upstream.last().external_id@ == external_id
        && upstream.last().account_number is Some {
        Some(upstream.last().account_number.unwrap()@)
    } else {
        reported_number(upstream.drop_last(), external_id)
    }
}

/// The number, if any, a linked connection of `kind` adopts from the upstream listing.
pub open spec fn adopted_number(
    kind: Seq<char>,
    upstream: Seq<ProviderAccount>,
    row: LinkedConnection,
) -> Option<Seq<char>> {
    if row.kind@ != kind {
        None
    } else {
        match row.external_account_id {
            Some(id) => reported_number(upstream, id@),
            None => None,
        }
    }
}

/// The `(account, number)` pairs adopted from `rows`, in order.
pub open spec fn adoptions(
    kind: Seq<char>,
    upstream: Seq<ProviderAccount>,
    rows: Seq<LinkedConnection>,
) -> Seq<(i64, Seq<char>)>
    decreases rows.len(),
{
    if rows.len() == 0 {
        seq![]
    } else {
        let rest = adoptions(kind, upstream, rows.drop_last());
        match adopted_number(kind, upstream, rows.last()) {
            Some(n) => rest.push((rows.last().account_id, n)),
            None => rest,
        }
    }
}

/// The account number the upstream listing reports for `external_id`, taking the last listed
/// account with that id that reports one.
fn number_reported_for(upstream: &[ProviderAccount], external_id: &str) -> (r: Option<String>)
    ensures
        match r {
            Some(n) => reported_number(upstream@, external_id@) == Some(n@),
            None => reported_number(upstream@, external_id@) is None,
        },
{
    let mut i = upstream.len();
    proof {
        assert(upstream@.take(i as int) =~= upstream@);
    }
    while i > 0
        invariant
            i <= upstream@.len(),
            reported_number(upstream@, external_id@) == reported_number(
                upstream@.take(i as int),
                external_id@,
            ),
        decreases i,
    {
        let a = &upstream[i - 1];
        proof {
            assert(upstream@.take(i as int).drop_last() =~= upstream@.take(i - 1));
            assert(upstream@.take(i as int).last() == *a);
        }
        if str_eq(a.external_id.as_str(), external_id) {
            match &a.account_number {
                Some(n) => {
                    return Some(n.clone());
                },
                None => {},
            }
        }
        i = i - 1;
    }
    None
}

/// Which linked connections of `kind` take an account number from the upstream listing, and
/// which number: every connection of that kind whose configured upstream account the listing
/// reports a number for, in order. The numbers are written only where the account has none
/// yet; that guard is the store's.
pub fn account_numbers_to_adopt(
    kind: &str,
    upstream: &[ProviderAccount],
    rows: &[LinkedConnection],
) -> (r: Vec<(i64, String)>)
    ensures
        r@.len() == adoptions(kind@, upstream@, rows@).len(),
        forall|i: int|
            0 <= i < r@.len() ==> (#[trigger] r@[i]).0 == adoptions(kind@, upstream@, rows@)[i].0
                && r@[i].1@ == adoptions(kind@, upstream@, rows@)[i].1,
{
    let mut out: Vec<(i64, String)> = Vec::new();
    let mut i: usize = 0;
    while i < rows.len()
        invariant
            i <= rows@.len(),
            out@.len() == adoptions(kind@, upstream@, rows@.take(i as int)).len(),
            forall|k: int|
                0 <= k < out@.len() ==> (#[trigger] out@[k]).0 == adoptions(
                    kind@,
                    upstream@,
                    rows@.take(i as int),
                )[k].0 && out@[k].1@ == adoptions(kind@, upstream@, rows@.take(i as int))[k].1,
        decreases rows@.len() - i,
    {
        let row = &rows[i];
        proof {
            assert(rows@.take(i + 1).drop_last() =~= rows@.take(i as int));
            assert(rows@.take(i + 1).last() == *row);
        }
        if str_eq(row.kind.as_str(), kind) {
            match &row.external_account_id {
                Some(id) => match number_reported_for(upstream, id.as_str()) {
                    Some(n) => {
                        out.push((row.account_id, n));
                    },
                    None => {},
                },
                None => {},
            }
        }
        i = i + 1;
    }
    proof {
        assert(rows@.take(i as int) =~= rows@);
    }
    out
}

/// The live balance a provider reports for an account, in the provider's currency.
#[derive(Debug, Clone)]
pub struct ProviderBalance {
    pub minor: i64,
    pub currency_code: String,
    pub limit_minor: Option<i64>,
    pub initial_principal_minor: Option<i64>,
    pub institution: Option<String>,
}

/// What a sync writes from a reported balance, decided before anything is written.
#[derive(Debug)]
pub struct BalanceWrites {
    /// Record today's provider valuation at this amount.
    pub valuation_minor: Option<i64>,
    /// Record the credit limit.
    pub credit_limit_minor: Option<i64>,
    /// Record the original borrowed amount.
    pub original_amount_minor: Option<i64>,
    /// Fill in the institution, where none is recorded yet.
    pub institution: Option<String>,
    /// Why the amount-carrying writes were refused, for the sync row.
    pub refused: Option<String>,
}

/// The sentence recorded when a balance arrives in another currency.
pub open spec fn currency_refusal(provider_ccy: Seq<char>, account_ccy: Seq<char>) -> Seq<char> {
    "provider reported a balance in "@ + provider_ccy + " but the account is "@ + account_ccy
        + " — refused to record the balance, credit limit and original amount, which would otherwise be stored as if they were "@
        + account_ccy
}

/// Whether `w` is what a sync writes from balance `bal` for an account in `account_ccy`.
pub open spec fn writes_planned(
    w: BalanceWrites,
    is_brokerage: bool,
    account_ccy: Seq<char>,
    bal: ProviderBalance,
) -> bool {
    let writes = !is_brokerage && eq_ignoring_ascii_case(bal.currency_code@, account_ccy);
    &&& w.valuation_minor == (if writes {
        Some(bal.minor)
    } else {
        None
    })
    &&& w.credit_limit_minor == (if writes {
        bal.limit_minor
    } else {
        None
    })
    &&& w.original_amount_minor == (if writes {
        bal.initial_principal_minor
    } else {
        None
    })
    &&& w.institution == bal.institution
    &&& ((!is_brokerage && !eq_ignoring_ascii_case(bal.currency_code@, account_ccy)) <==> w.refused
        is Some)
    &&& (w.refused matches Some(m) ==> m@ == currency_refusal(bal.currency_code@, account_ccy))
}

/// Decide what to write from a reported balance.
///
/// A brokerage account's value comes from its own holdings, so no amount is written for one
/// and nothing is refused. Otherwise every amount is written only when the balance is in the
/// account's own currency (compared without regard to ASCII case), and a mismatch is refused
/// with a sentence saying why. The institution carries no amount and is always offered.
pub fn plan_balance_writes(is_brokerage: bool, account_ccy: &str, bal: &ProviderBalance) -> (w:
    BalanceWrites)
    ensures
        writes_planned(w, is_brokerage, account_ccy@, *bal),
{
    let currency_matches = eq_ignore_ascii_case(bal.currency_code.as_str(), account_ccy);
    let institution = match &bal.institution {
        Some(s) => Some(s.clone()),
        None => None,
    };
    if is_brokerage {
        return BalanceWrites {
            valuation_minor: None,
            credit_limit_minor: None,
            original_amount_minor: None,
            institution,
            refused: None,
        };
    }
    if !currency_matches {
        let mut m = join2("provider reported a balance in ", bal.currency_code.as_str());
        m.append(" but the account is ");
        m.append(account_ccy);
        m.append(
            " — refused to record the balance, credit limit and original amount, which would otherwise be stored as if they were ",
        );
        m.append(account_ccy);
        return BalanceWrites {
            valuation_minor: None,
            credit_limit_minor: None,
            original_amount_minor: None,
            institution,
            refused: Some(m),
        };
    }
    BalanceWrites {
        valuation_minor: Some(bal.minor),
        credit_limit_minor: bal.limit_minor,
        original_amount_minor: bal.initial_principal_minor,
        institution,
        refused: None,
    }
}

/// How far a sync has got.
#[derive(Debug, Clone, Copy, PartialEq, Eq, Structural)]
pub enum SyncStage {
    /// Nothing done yet.
    Start,
    /// The provider's single-flight slot is held.
    Claimed,
    /// The provider's kind has an adapter and the account's currency is known.
    Resolved,
    /// Upstream transactions were fetched.
    Fetched,
    /// They were imported.
    Imported,
    /// The sync has answered.
    Done,
}

/// What a sync does next.
#[derive(Debug)]
pub enum SyncAction {
    /// Answer with this error; nothing is recorded.
    Refuse(AppError),
    /// Look up the account's currency and the adapter for the provider's kind.
    Resolve,
    /// Fetch the upstream transactions.
    Fetch,
    /// Record an `error` sync carrying `detail`, then answer with `error`.
    RecordFailure { detail: String, error: AppError },
    /// Import the fetched rows under this provider tag.
    Import { tag: String },
    /// Ask the provider for its live balance.
    ReadBalance,
    /// Make the balance writes, if any (each best effort), mark the provider synced, and record
    /// an `ok` sync with the counts and `detail`.
    Finish { writes: Option<BalanceWrites>, imported: i64, skipped: i64, detail: Option<String> },
}

/// One provider's sync, step by step, in the order it must go: claim the single-flight slot,
/// resolve the provider, fetch, import, read the balance, finish. A failed fetch is recorded
/// before it is answered; a balance refusal is recorded on the `ok` sync row. Whatever step it
/// stopped at, [`SyncRun::end`] gives back the slot the run holds.
#[derive(Debug)]
pub struct SyncRun {
    pub provider_id: i64,
    pub kind: String,
    pub stage: SyncStage,
    pub imported: i64,
    pub skipped: i64,
    /// Whether this run holds the provider's single-flight slot.
    pub holds_slot: bool,
}

impl SyncRun {
    /// A sync of provider `provider_id`, of kind `kind`, that has not started.
    pub fn new(provider_id: i64, kind: String) -> (r: SyncRun)
        ensures
            r.provider_id == provider_id,
            r.kind == kind,
            r.stage == SyncStage::Start,
            r.imported == 0,
            r.skipped == 0,
            !r.holds_slot,
    {
        SyncRun { provider_id, kind, stage: SyncStage::Start, imported: 0, skipped: 0, holds_slot: false }
    }

    /// Claim the provider's slot in `slots`: go on to resolve the provider, or, when another
    /// sync of it holds the slot, refuse with [`already_running`] and leave that claim alone.
    pub fn claim(&mut self, slots: &mut SyncSlots) -> (a: SyncAction)
        requires
            old(self).stage == SyncStage::Start,
            !old(self).holds_slot,
        ensures
            final(self).provider_id == old(self).provider_id,
            final(self).kind == old(self).kind,
            final(self).imported == old(self).imported,
            final(self).skipped == old(self).skipped,
            final(slots).claimed() == old(slots).claimed().insert(old(self).provider_id),
            final(self).holds_slot == !old(slots).claimed().contains(old(self).provider_id),
            final(self).holds_slot ==> final(self).stage == SyncStage::Claimed && a is Resolve,
            !final(self).holds_slot ==> final(self).stage == SyncStage::Done && (a matches SyncAction::Refuse(
                AppError::Conflict(m),
            ) && m@ == "a sync of provider "@ + int_decimal(old(self).provider_id as int)
                + " is already running — refusing to start a second one"@),
    {
        if slots.claim(self.provider_id) {
            self.holds_slot = true;
            self.stage = SyncStage::Claimed;
            SyncAction::Resolve
        } else {
            self.stage = SyncStage::Done;
            SyncAction::Refuse(already_running(self.provider_id))
        }
    }

    /// End the run, on whatever path it stopped: give the slot back if this run holds it, and
    /// leave the slots alone if it was refused (the claim there is another sync's).
    pub fn end(&mut self, slots: &mut SyncSlots)
        ensures
            final(self).provider_id == old(self).provider_id,
            final(self).kind == old(self).kind,
            final(self).imported == old(self).imported,
            final(self).skipped == old(self).skipped,
            final(self).stage == SyncStage::Done,
            !final(self).holds_slot,
            old(self).holds_slot ==> final(slots).claimed() == old(slots).claimed().remove(old(self).provider_id),
            !old(self).holds_slot ==> final(slots).claimed() == old(slots).claimed(),
    {
        if self.holds_slot {
            slots.release(self.provider_id);
            self.holds_slot = false;
        }
        self.stage = SyncStage::Done;
    }

    /// An adapter for the provider's kind was found, or not: go on to fetch, or refuse with
    /// [`unknown_provider_kind`].
    pub fn resolved(&mut self, kind_known: bool) -> (a: SyncAction)
        requires
            old(self).stage == SyncStage::Claimed,
        ensures
            final(self).provider_id == old(self).provider_id,
            final(self).kind == old(self).kind,
            final(self).holds_slot == old(self).holds_slot,
            final(self).imported == old(self).imported,
            final(self).skipped == old(self).skipped,
            kind_known ==> final(self).stage == SyncStage::Resolved && a is Fetch,
            !kind_known ==> final(self).stage == SyncStage::Done && (a matches SyncAction::Refuse(
                AppError::Validation(m),
            ) && m@ == "unknown provider kind '"@ + old(self).kind@ + "'"@),
    {
        if kind_known {
            self.stage = SyncStage::Resolved;
            SyncAction::Fetch
        } else {
            self.stage = SyncStage::Done;
            SyncAction::Refuse(unknown_provider_kind(self.kind.as_str()))
        }
    }

    /// The fetch failed with this rendered error: record it, bounded, and answer with it.
    pub fn fetch_failed(&mut self, error_text: &str) -> (a: SyncAction)
        requires
            old(self).stage == SyncStage::Resolved,
        ensures
            final(self).provider_id == old(self).provider_id,
            final(self).kind == old(self).kind,
            final(self).holds_slot == old(self).holds_slot,
            final(self).stage == SyncStage::Done,
            a matches SyncAction::RecordFailure { detail, error } && detail@ == truncated_for_wire(
                error_text@,
                MAX_SYNC_DETAIL_CHARS as nat,
            ) && (error matches AppError::Validation(m) && m@ == "sync failed: "@ + detail@),
    {
        self.stage = SyncStage::Done;
        let detail = sync_detail(error_text);
        let error = sync_failed(detail.as_str());
        SyncAction::RecordFailure { detail, error }
    }

    /// The fetch succeeded: import its rows under `{kind}#{provider id}`.
    pub fn fetched(&mut self) -> (a: SyncAction)
        requires
            old(self).stage == SyncStage::Resolved,
        ensures
            final(self).provider_id == old(self).provider_id,
            final(self).kind == old(self).kind,
            final(self).holds_slot == old(self).holds_slot,
            final(self).stage == SyncStage::Fetched,
            a matches SyncAction::Import { tag } && tag@ == old(self).kind@ + "#"@ + int_decimal(
                old(self).provider_id as int,
            ),
    {
        self.stage = SyncStage::Fetched;
        SyncAction::Import { tag: sync_provider_tag(self.kind.as_str(), self.provider_id) }
    }

    /// The import took `imported` rows and skipped `skipped` as already present: read the live
    /// balance next.
    pub fn imported(&mut self, imported: i64, skipped: i64) -> (a: SyncAction)
        requires
            old(self).stage == SyncStage::Fetched,
        ensures
            final(self).provider_id == old(self).provider_id,
            final(self).kind == old(self).kind,
            final(self).holds_slot == old(self).holds_slot,
            final(self).stage == SyncStage::Imported,
            final(self).imported == imported,
            final(self).skipped == skipped,
            a is ReadBalance,
    {
        self.stage = SyncStage::Imported;
        self.imported = imported;
        self.skipped = skipped;
        SyncAction::ReadBalance
    }

    /// The provider reported this balance (for a brokerage account or not, the account being
    /// in `account_ccy`), or none, or could not be asked: finish, writing what
    /// [`plan_balance_writes`] allows and recording its refusal, if any, on the `ok` sync row.
    pub fn balance_read(&mut self, account_ccy: &str, balance: Option<(bool, ProviderBalance)>) -> (a:
        SyncAction)
        requires
            old(self).stage == SyncStage::Imported,
        ensures
            final(self).provider_id == old(self).provider_id,
            final(self).kind == old(self).kind,
            final(self).holds_slot == old(self).holds_slot,
            final(self).imported == old(self).imported,
            final(self).skipped == old(self).skipped,
            final(self).stage == SyncStage::Done,
            a matches SyncAction::Finish { writes, imported, skipped, detail } && imported
                == old(self).imported && skipped == old(self).skipped && match balance {
                Some((is_brokerage, bal)) => writes matches Some(w) && writes_planned(
                    w,
                    is_brokerage,
                    account_ccy@,
                    bal,
                ) && detail == w.refused,
                None => writes is None && detail is None,
            },
    {
        self.stage = SyncStage::Done;
        match balance {
            Some((is_brokerage, bal)) => {
                let w = plan_balance_writes(is_brokerage, account_ccy, &bal);
                let detail = match &w.refused {
                    Some(m) => Some(m.clone()),
                    None => None,
                };
                SyncAction::Finish {
                    writes: Some(w),
                    imported: self.imported,
                    skipped: self.skipped,
                    detail,
                }
            },
            None => SyncAction::Finish {
                writes: None,
                imported: self.imported,
                skipped: self.skipped,
                detail: None,
            },
        }
    }
}

} // verus!
