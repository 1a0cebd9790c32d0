use sure::calendar::Day;
use sure::error::{AppError, DatabaseFailure};
use sure::provider_poll::{PollAction, PollEvent, Tally};
use sure::providers::SyncOutcome;
use sure::stock_prices::{LookupAction, LookupStage, PriceLookup};
use sure::sweeps::{
    EstimateAction, EstimateEvent, EstimateSweep, PriceAction, PriceEvent, PriceSweep, TaskRun,
};
use sure::sync::{ProviderBalance, SyncAction, SyncRun, SyncSlots, SyncStage};
use sure::tasks::{HousePricerLink, HousePricerSubscription, PropertyEstimate, SkipReason};

fn subscription() -> HousePricerSubscription {
    HousePricerSubscription {
        account_id: 7,
        account_name: "Home".into(),
        currency_code: "NZD".into(),
        link: HousePricerLink {
            query: "1 Queen St".into(),
            property_id: "prop-1".into(),
            matched_address: "1 Queen Street, Auckland".into(),
        },
    }
}

fn estimate(property_id: &str, currency: &str) -> PropertyEstimate {
    PropertyEstimate {
        property_id: property_id.into(),
        matched_address: "1 Queen Street, Auckland".into(),
        value_minor: 123_456_00,
        currency_code: currency.into(),
        model_note: "AVM v2".into(),
    }
}

#[test]
fn an_estimate_sweep_writes_then_counts_the_write() {
    let mut s = EstimateSweep::new();
    let a = s.step(&subscription(), EstimateEvent::Fetched(estimate("prop-1", "nzd")));
    match a {
        EstimateAction::Write { value_minor, note } => {
            assert_eq!(value_minor, 123_456_00);
            assert_eq!(note, "House Pricer estimate (AVM v2)");
        }
        other => panic!("expected a write, got {other:?}"),
    }
    assert_eq!(s, EstimateSweep { recorded: 0, skipped: 0 });
    assert!(matches!(s.step(&subscription(), EstimateEvent::Written), EstimateAction::Next));
    assert_eq!(s, EstimateSweep { recorded: 1, skipped: 0 });
}

#[test]
fn an_estimate_sweep_skips_failures_and_refusals() {
    let sub = subscription();
    let mut s = EstimateSweep::new();
    assert!(matches!(s.step(&sub, EstimateEvent::FetchFailed), EstimateAction::Next));
    assert!(matches!(s.step(&sub, EstimateEvent::NoMatch), EstimateAction::Next));
    match s.step(&sub, EstimateEvent::Fetched(estimate("prop-2", "NZD"))) {
        EstimateAction::Skip(SkipReason::DifferentProperty { matched, .. }) => {
            assert_eq!(matched, "prop-2")
        }
        other => panic!("expected a skip, got {other:?}"),
    }
    match s.step(&sub, EstimateEvent::Fetched(estimate("prop-1", "AUD"))) {
        EstimateAction::Skip(reason) => assert_eq!(
            reason,
            SkipReason::CurrencyMismatch { estimate_currency: "AUD".into() }
        ),
        other => panic!("expected a skip, got {other:?}"),
    }
    assert_eq!(s, EstimateSweep { recorded: 0, skipped: 4 });
}

#[test]
fn an_estimate_sweep_stops_interrupted_on_shutdown() {
    let mut s = EstimateSweep { recorded: 2, skipped: 1 };
    assert!(matches!(
        s.step(&subscription(), EstimateEvent::Cancelled),
        EstimateAction::Stop(TaskRun::Interrupted)
    ));
    assert_eq!(s, EstimateSweep { recorded: 2, skipped: 1 });
}

#[test]
fn a_price_sweep_skips_unusable_quotes_and_fails_on_other_write_errors() {
    let mut s = PriceSweep::new();
    assert!(matches!(s.step(PriceEvent::QuoteWritten(Ok(()))), PriceAction::Next));
    assert!(matches!(
        s.step(PriceEvent::QuoteWritten(Err(AppError::Validation("price must be positive".into())))),
        PriceAction::Next
    ));
    assert!(matches!(s.step(PriceEvent::FetchFailed), PriceAction::Next));
    assert!(matches!(s.step(PriceEvent::TickerDone), PriceAction::Next));
    assert_eq!(s, PriceSweep { refreshed: 1, skipped: 1 });
    let db = AppError::Database(DatabaseFailure::Other, "disk full".into());
    match s.step(PriceEvent::QuoteWritten(Err(db.clone()))) {
        PriceAction::Fail(e) => assert_eq!(e, db),
        other => panic!("expected a failure, got {other:?}"),
    }
    assert_eq!(s, PriceSweep { refreshed: 1, skipped: 1 });
    assert!(matches!(s.step(PriceEvent::Cancelled), PriceAction::Stop(TaskRun::Interrupted)));
}

#[test]
fn a_poll_syncs_only_enabled_unattended_providers_and_counts_outcomes() {
    let mut t = Tally::new();
    let go = |enabled, accepts_payload| PollEvent::Considered { enabled, accepts_payload };
    assert_eq!(t.step(go(true, Some(false))), PollAction::Sync);
    assert_eq!(t.step(go(false, Some(false))), PollAction::Next);
    assert_eq!(t.step(go(true, Some(true))), PollAction::Next);
    assert_eq!(t.step(go(true, None)), PollAction::Next);
    assert_eq!(t.step(PollEvent::Synced(Some(SyncOutcome::Succeeded))), PollAction::Next);
    assert_eq!(t.step(PollEvent::Synced(Some(SyncOutcome::Disconnected))), PollAction::Next);
    assert_eq!(t.step(PollEvent::Synced(None)), PollAction::Next);
    assert_eq!((t.synced, t.disconnected, t.failed), (1, 1, 1));
    assert_eq!(t.step(PollEvent::Cancelled), PollAction::Stop(TaskRun::Interrupted));
    assert_eq!((t.synced, t.disconnected, t.failed), (1, 1, 1));
}

#[test]
fn a_sync_refuses_when_its_slot_is_taken() {
    let mut slots = SyncSlots::new();
    let mut first = SyncRun::new(7, "akahu".into());
    assert!(matches!(first.claim(&mut slots), SyncAction::Resolve));
    let mut run = SyncRun::new(7, "akahu".into());
    match run.claim(&mut slots) {
        SyncAction::Refuse(e) => assert_eq!(
            e.message(),
            "a sync of provider 7 is already running — refusing to start a second one"
        ),
        other => panic!("expected a refusal, got {other:?}"),
    }
    assert_eq!(run.stage, SyncStage::Done);
    assert!(!run.holds_slot);
    run.end(&mut slots);
    assert!(slots.is_claimed(7), "a refused run leaves the running sync's claim alone");
    first.end(&mut slots);
    assert!(!slots.is_claimed(7));
    let mut again = SyncRun::new(7, "akahu".into());
    assert!(matches!(again.claim(&mut slots), SyncAction::Resolve));
}

#[test]
fn a_sync_refuses_an_unknown_kind() {
    let mut slots = SyncSlots::new();
    let mut run = SyncRun::new(7, "mystery".into());
    assert!(matches!(run.claim(&mut slots), SyncAction::Resolve));
    match run.resolved(false) {
        SyncAction::Refuse(e) => assert_eq!(e.message(), "unknown provider kind 'mystery'"),
        other => panic!("expected a refusal, got {other:?}"),
    }
    assert!(slots.is_claimed(7));
    run.end(&mut slots);
    assert!(!slots.is_claimed(7));
}

#[test]
fn a_failed_fetch_is_recorded_before_it_is_answered() {
    let mut slots = SyncSlots::new();
    let mut run = SyncRun::new(7, "akahu".into());
    run.claim(&mut slots);
    assert!(matches!(run.resolved(true), SyncAction::Fetch));
    match run.fetch_failed("upstream timed out") {
        SyncAction::RecordFailure { detail, error } => {
            assert_eq!(detail, "upstream timed out");
            assert_eq!(error.message(), "sync failed: upstream timed out");
        }
        other => panic!("expected a recorded failure, got {other:?}"),
    }
    assert_eq!(run.stage, SyncStage::Done);
}

#[test]
fn a_sync_runs_in_order_and_records_a_balance_refusal() {
    let mut slots = SyncSlots::new();
    let mut run = SyncRun::new(7, "akahu".into());
    run.claim(&mut slots);
    run.resolved(true);
    match run.fetched() {
        SyncAction::Import { tag } => assert_eq!(tag, "akahu#7"),
        other => panic!("expected an import, got {other:?}"),
    }
    assert!(matches!(run.imported(12, 3), SyncAction::ReadBalance));
    let bal = ProviderBalance {
        minor: -250_000_00,
        currency_code: "AUD".into(),
        limit_minor: None,
        initial_principal_minor: None,
        institution: None,
    };
    match run.balance_read("NZD", Some((false, bal))) {
        SyncAction::Finish { writes, imported, skipped, detail } => {
            assert_eq!((imported, skipped), (12, 3));
            let w = writes.expect("planned writes");
            assert_eq!(w.valuation_minor, None);
            let why = detail.expect("a refusal on the sync row");
            assert!(why.contains("AUD") && why.contains("NZD"), "{why}");
            assert_eq!(w.refused.as_deref(), Some(why.as_str()));
        }
        other => panic!("expected a finish, got {other:?}"),
    }
    assert_eq!(run.stage, SyncStage::Done);
}

#[test]
fn a_sync_without_a_balance_finishes_with_no_writes() {
    let mut slots = SyncSlots::new();
    let mut run = SyncRun::new(3, "akahu".into());
    run.claim(&mut slots);
    run.resolved(true);
    run.fetched();
    run.imported(0, 0);
    match run.balance_read("NZD", None) {
        SyncAction::Finish { writes, detail, .. } => {
            assert!(writes.is_none());
            assert!(detail.is_none());
        }
        other => panic!("expected a finish, got {other:?}"),
    }
}

#[test]
fn a_timestamp_reads_as_the_day_it_starts_with() {
    let d = Day::parse("2025-12-11T09:00:00Z").unwrap();
    assert_eq!((d.year(), d.month(), d.day()), (2025, 12, 11));
    let d = Day::parse("2025-12-11").unwrap();
    assert_eq!((d.year(), d.month(), d.day()), (2025, 12, 11));
    assert!(Day::parse("2025-02-30").is_none());
    assert!(Day::parse("2025-02-30T00:00:00Z").is_none());
}

fn day(s: &str) -> Day {
    Day::parse(s).unwrap()
}

#[test]
fn a_price_lookup_answers_from_the_cache_when_it_holds_the_day() {
    let mut l = PriceLookup::new(day("2026-07-10"), "NZX".into());
    assert!(matches!(l.cache_read(true), LookupAction::AnswerCached));
    assert_eq!(l.stage, LookupStage::Done);
}

#[test]
fn a_price_lookup_backfills_ten_days_on_a_miss() {
    let mut l = PriceLookup::new(day("2026-07-10"), "NZX".into());
    match l.cache_read(false) {
        LookupAction::Fetch { from, exchange } => {
            assert_eq!(from.to_text(), "2026-06-30");
            assert_eq!(exchange.as_deref(), Some("NZX"));
        }
        other => panic!("expected a fetch, got {other:?}"),
    }
    let mut l = PriceLookup::new(day("2026-03-05"), String::new());
    match l.cache_read(false) {
        LookupAction::Fetch { from, exchange } => {
            assert_eq!(from.to_text(), "2026-02-23");
            assert!(exchange.is_none());
        }
        other => panic!("expected a fetch, got {other:?}"),
    }
}

#[test]
fn a_price_lookup_drops_unusable_quotes_and_reads_the_cache() {
    let mut l = PriceLookup::new(day("2026-07-10"), "NZX".into());
    l.cache_read(false);
    assert!(matches!(l.fetched(Ok(())), LookupAction::Next));
    assert!(matches!(l.quote_written(Ok(())), LookupAction::Next));
    let gbx = AppError::Validation("unknown currency 'GBX'".into());
    assert!(matches!(l.quote_written(Err(gbx)), LookupAction::Next));
    assert_eq!(l.stage, LookupStage::Writing);
    assert!(matches!(l.all_written(), LookupAction::ReadCache));
}

#[test]
fn a_price_lookup_surfaces_a_database_error_and_a_feed_outage() {
    let mut l = PriceLookup::new(day("2026-07-10"), "NZX".into());
    l.cache_read(false);
    l.fetched(Ok(()));
    let db = AppError::Database(DatabaseFailure::PoolTimedOut, "pool timed out".into());
    match l.quote_written(Err(db.clone())) {
        LookupAction::Fail(e) => assert_eq!(e, db),
        other => panic!("expected a failure, got {other:?}"),
    }
    let mut l = PriceLookup::new(day("2026-07-10"), "NZX".into());
    l.cache_read(false);
    match l.fetched(Err("connection reset")) {
        LookupAction::Fail(e) => assert_eq!(e, AppError::Upstream("connection reset".into())),
        other => panic!("expected a failure, got {other:?}"),
    }
    assert_eq!(l.stage, LookupStage::Done);
}

#[test]
fn a_backfill_reaches_back_into_the_first_year_but_not_before_it() {
    let d = Day::from_parts(-262143, 1, 11).unwrap();
    let from = sure::stock_prices::backfill_start(d);
    assert_eq!((from.year(), from.month(), from.day()), (-262143, 1, 1));
    let d = Day::from_parts(2024, 3, 5).unwrap();
    assert_eq!(sure::stock_prices::backfill_start(d).to_text(), "2024-02-24");
}
