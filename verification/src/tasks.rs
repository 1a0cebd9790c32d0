//! The background tasks this application registers, and the decisions they make that can be
//! taken without a database, a socket or a scheduler.

use vstd::prelude::*;

use crate::lifecycle::Span;
use crate::text::{eq_ignore_ascii_case, eq_ignoring_ascii_case, join2, str_eq};

verus! {

/// Every background task this application registers, as a value rather than a loose string.
/// [`BackgroundTask::as_str`] is the single place a task's name becomes text.
#[derive(Debug, Clone, Copy, PartialEq, Eq, Hash, Structural)]
pub enum BackgroundTask {
    /// Fetches FX rates. Third party.
    ExchangeRatePoll,
    /// Sweeps bank and broker providers for new transactions. Third party.
    ProviderPoll,
    /// Derives transactions from the gap between two valuations. Local.
    BalanceDelta,
    /// Fetches share prices. Third party.
    StockPricePoll,
    /// Estimates property values. Third party.
    PropertyEstimatePoll,
    /// Pairs the two legs of an internal transfer. Local.
    TransferLink,
    /// Matches expected pays against the deposits that satisfied them. Local.
    IncomeMatch,
    /// Rewrites an equity account's valuation history from its grants and price ledger. Local.
    EquityRebuild,
}

impl BackgroundTask {
    /// The stored text of each task.
    pub open spec fn text(self) -> Seq<char> {
        match self {
            BackgroundTask::ExchangeRatePoll => "exchange_rate_poll"@,
            BackgroundTask::ProviderPoll => "provider_poll"@,
            BackgroundTask::BalanceDelta => "balance_delta"@,
            BackgroundTask::StockPricePoll => "stock_price_poll"@,
            BackgroundTask::PropertyEstimatePoll => "property_estimate_poll"@,
            BackgroundTask::TransferLink => "transfer_link"@,
            BackgroundTask::IncomeMatch => "income_match"@,
            BackgroundTask::EquityRebuild => "equity_rebuild"@,
        }
    }

    pub fn as_str(self) -> (r: &'static str)
        ensures
            r@ == self.text(),
    {
        match self {
            BackgroundTask::ExchangeRatePoll => "exchange_rate_poll",
            BackgroundTask::ProviderPoll => "provider_poll",
            BackgroundTask::BalanceDelta => "balance_delta",
            BackgroundTask::StockPricePoll => "stock_price_poll",
            BackgroundTask::PropertyEstimatePoll => "property_estimate_poll",
            BackgroundTask::TransferLink => "transfer_link",
            BackgroundTask::IncomeMatch => "income_match",
            BackgroundTask::EquityRebuild => "equity_rebuild",
        }
    }

    /// Whether a task touches nothing outside the local database.
    pub open spec fn local(self) -> bool {
        match self {
            BackgroundTask::BalanceDelta
            | BackgroundTask::TransferLink
            | BackgroundTask::IncomeMatch
            | BackgroundTask::EquityRebuild => true,
            _ => false,
        }
    }

    /// Whether the background job touches nothing but the local database, and so may run as
    /// soon as the process comes up without spending anyone's rate limit.
    pub fn is_local(self) -> (r: bool)
        ensures
            r == self.local(),
    {
        match self {
            BackgroundTask::BalanceDelta
            | BackgroundTask::TransferLink
            | BackgroundTask::IncomeMatch
            | BackgroundTask::EquityRebuild => true,
            BackgroundTask::ExchangeRatePoll
            | BackgroundTask::ProviderPoll
            | BackgroundTask::StockPricePoll
            | BackgroundTask::PropertyEstimatePoll => false,
        }
    }
}

/// No two tasks answer to the same name, so a nudge by name reaches exactly one task.
pub proof fn lemma_task_names_distinct(a: BackgroundTask, b: BackgroundTask)
    ensures
        a.text() == b.text() ==> a == b,
{
    reveal_strlit("exchange_rate_poll");
    reveal_strlit("provider_poll");
    reveal_strlit("balance_delta");
    reveal_strlit("stock_price_poll");
    reveal_strlit("property_estimate_poll");
    reveal_strlit("transfer_link");
    reveal_strlit("income_match");
    reveal_strlit("equity_rebuild");
    assert("exchange_rate_poll"@.len() == 18);
    assert("provider_poll"@.len() == 13);
    assert("balance_delta"@.len() == 13);
    assert("stock_price_poll"@.len() == 16);
    assert("property_estimate_poll"@.len() == 22);
    assert("transfer_link"@.len() == 13);
    assert("income_match"@.len() == 12);
    assert("equity_rebuild"@.len() == 14);
    assert("balance_delta"@[0] == 'b');
    assert("provider_poll"@[0] == 'p');
    assert("transfer_link"@[0] == 't');
}

/// The tasks worth re-running whenever the ledger gains or loses transactions, in the order the
/// scheduler registers them: the transfer linker first, so a payroll credit wrongly paired as a
/// transfer is settled before the income matcher looks at it.
pub open spec fn ledger_changed_tasks() -> Seq<BackgroundTask> {
    seq![BackgroundTask::TransferLink, BackgroundTask::BalanceDelta, BackgroundTask::IncomeMatch]
}

/// The tasks to nudge after a ledger change.
pub fn ledger_changed() -> (r: [BackgroundTask; 3])
    ensures
        r@ == ledger_changed_tasks(),
{
    let r = [BackgroundTask::TransferLink, BackgroundTask::BalanceDelta, BackgroundTask::IncomeMatch];
    assert(r@ =~= ledger_changed_tasks());
    r
}

/// Every task re-run after a ledger change is a local one: re-running costs queries, never
/// anyone's rate limit.
pub proof fn lemma_ledger_changed_tasks_are_local()
    ensures
        forall|i: int|
            0 <= i < ledger_changed_tasks().len() ==> (#[trigger] ledger_changed_tasks()[i]).local(),
{
}

/// The scheduler's key for the property-estimate task.
pub const PROPERTY_ESTIMATE_TASK_NAME: &'static str = "property_estimate_poll";

/// Prefix on the note every estimate valuation carries.
pub const NOTE_PREFIX: &'static str = "House Pricer estimate";

/// How often property estimates are polled: every thirty days.
pub fn poll_interval() -> (s: Span)
    ensures
        s@ == 30 * 24 * 60 * 60 * 1_000_000_000,
{
    Span::from_secs(30 * 24 * 60 * 60)
}

/// An account's opt-in to property estimates: the saved address query, and the property the
/// person confirmed it resolves to.
#[derive(Debug, Clone, PartialEq, Eq)]
pub struct HousePricerLink {
    pub query: String,
    pub property_id: String,
    pub matched_address: String,
}

/// One opted-in account, as the poll sees it.
#[derive(Debug, Clone, PartialEq, Eq)]
pub struct HousePricerSubscription {
    pub account_id: i64,
    pub account_name: String,
    pub currency_code: String,
    pub link: HousePricerLink,
}

/// One answer the estimate upstream gave.
#[derive(Debug, Clone, PartialEq, Eq)]
pub struct PropertyEstimate {
    pub property_id: String,
    pub matched_address: String,
    pub value_minor: i64,
    pub currency_code: String,
    pub model_note: String,
}

/// What the poll does with one answer, decided before anything is written.
#[derive(Debug, PartialEq, Eq)]
pub enum Decision {
    /// The match is the property this subscription pinned and the currency agrees: write it.
    Record { value_minor: i64, note: String },
    /// Leave whatever is already recorded alone, for this reason.
    Skip(SkipReason),
}

/// Why an answer was not recorded.
#[derive(Debug, PartialEq, Eq)]
pub enum SkipReason {
    /// The saved query now resolves to a different property than the one confirmed at opt-in.
    DifferentProperty { matched: String, matched_address: String },
    /// The upstream quoted a currency the account is not denominated in.
    CurrencyMismatch { estimate_currency: String },
}

/// Decide what to do with `estimate` for `sub`: refuse a different property, then refuse a
/// different currency (compared without regard to ASCII case), else record the value with a
/// note naming the models.
pub fn decide(sub: &HousePricerSubscription, estimate: &PropertyEstimate) -> (d: Decision)
    ensures
        estimate.property_id@ != sub.link.property_id@ ==> (d matches Decision::Skip(
            SkipReason::DifferentProperty { matched, matched_address },
        ) && matched@ == estimate.property_id@ && matched_address@
            == estimate.matched_address@),
        estimate.property_id@ == sub.link.property_id@ && !eq_ignoring_ascii_case(
            estimate.currency_code@,
            sub.currency_code@,
        ) ==> (d matches Decision::Skip(SkipReason::CurrencyMismatch { estimate_currency })
            && estimate_currency@ == estimate.currency_code@),
        estimate.property_id@ == sub.link.property_id@ && eq_ignoring_ascii_case(
            estimate.currency_code@,
            sub.currency_code@,
        ) ==> (d matches Decision::Record { value_minor, note } && value_minor
            == estimate.value_minor && note@ == NOTE_PREFIX@ + " ("@ + estimate.model_note@
            + ")"@),
{
    if !str_eq(estimate.property_id.as_str(), sub.link.property_id.as_str()) {
        return Decision::Skip(
            SkipReason::DifferentProperty {
                matched: estimate.property_id.clone(),
                matched_address: estimate.matched_address.clone(),
            },
        );
    }
    if !eq_ignore_ascii_case(estimate.currency_code.as_str(), sub.currency_code.as_str()) {
        return Decision::Skip(
            SkipReason::CurrencyMismatch { estimate_currency: estimate.currency_code.clone() },
        );
    }
    let mut note = join2(NOTE_PREFIX, " (");
    note.append(estimate.model_note.as_str());
    note.append(")");
    Decision::Record { value_minor: estimate.value_minor, note }
}

} // verus!
