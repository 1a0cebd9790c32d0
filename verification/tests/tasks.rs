use sure::lifecycle::Span;
use sure::tasks::{
    decide, ledger_changed, poll_interval, BackgroundTask, Decision, HousePricerLink,
    HousePricerSubscription, PropertyEstimate, SkipReason,
};

#[test]
fn every_task_name_matches_its_task() {
    for (task, expected) in [
        (BackgroundTask::ExchangeRatePoll, "exchange_rate_poll"),
        (BackgroundTask::ProviderPoll, "provider_poll"),
        (BackgroundTask::BalanceDelta, "balance_delta"),
        (BackgroundTask::StockPricePoll, "stock_price_poll"),
        (BackgroundTask::PropertyEstimatePoll, "property_estimate_poll"),
        (BackgroundTask::TransferLink, "transfer_link"),
        (BackgroundTask::IncomeMatch, "income_match"),
        (BackgroundTask::EquityRebuild, "equity_rebuild"),
    ] {
        assert_eq!(task.as_str(), expected);
    }
}

#[test]
fn no_third_party_task_is_local() {
    for t in [
        BackgroundTask::ExchangeRatePoll,
        BackgroundTask::ProviderPoll,
        BackgroundTask::StockPricePoll,
        BackgroundTask::PropertyEstimatePoll,
    ] {
        assert!(!t.is_local(), "{t:?} reaches a third party");
    }
}

#[test]
fn the_ledger_changed_tasks_are_local_and_in_order() {
    let tasks = ledger_changed();
    assert_eq!(
        tasks,
        [BackgroundTask::TransferLink, BackgroundTask::BalanceDelta, BackgroundTask::IncomeMatch]
    );
    assert!(tasks.iter().all(|t| t.is_local()));
}

const PROPERTY_ID: &str = "00000000-0000-4000-8000-000000000001";
const MATCHED: &str = "123 kowhai street, riccarton";

fn subscription(currency: &str) -> HousePricerSubscription {
    HousePricerSubscription {
        account_id: 7,
        account_name: "Home".into(),
        currency_code: currency.into(),
        link: HousePricerLink {
            query: "123 kowhai street riccarton".into(),
            property_id: PROPERTY_ID.into(),
            matched_address: MATCHED.into(),
        },
    }
}

fn estimate(property_id: &str, currency: &str) -> PropertyEstimate {
    PropertyEstimate {
        property_id: property_id.into(),
        matched_address: MATCHED.into(),
        value_minor: 650_000_00,
        currency_code: currency.into(),
        model_note: "model A 650000, model B 598000".into(),
    }
}

#[test]
fn records_a_matching_estimate_with_both_models_in_the_note() {
    let decision = decide(&subscription("NZD"), &estimate(PROPERTY_ID, "NZD"));
    assert_eq!(
        decision,
        Decision::Record {
            value_minor: 650_000_00,
            note: "House Pricer estimate (model A 650000, model B 598000)".into(),
        }
    );
}

#[test]
fn refuses_an_estimate_for_a_different_property() {
    let other = "00000000-0000-4000-8000-0000000000ff";
    let decision = decide(&subscription("NZD"), &estimate(other, "NZD"));
    assert_eq!(
        decision,
        Decision::Skip(SkipReason::DifferentProperty {
            matched: other.into(),
            matched_address: MATCHED.into(),
        })
    );
}

#[test]
fn refuses_an_estimate_quoted_in_another_currency() {
    let decision = decide(&subscription("AUD"), &estimate(PROPERTY_ID, "NZD"));
    assert_eq!(
        decision,
        Decision::Skip(SkipReason::CurrencyMismatch { estimate_currency: "NZD".into() })
    );
}

#[test]
fn currency_matching_ignores_case() {
    assert!(matches!(
        decide(&subscription("nzd"), &estimate(PROPERTY_ID, "NZD")),
        Decision::Record { .. }
    ));
}

#[test]
fn polls_monthly() {
    assert_eq!(poll_interval(), Span::from_secs(30 * 24 * 60 * 60));
}
