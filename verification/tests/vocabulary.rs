use sure::brokerage::{manual_kind, BrokerageActivity30d, BrokerageImportResult, LotKind};
use sure::categories::CategoryKind;
use sure::crons::CronKind;
use sure::equity::{cliff12, vest48, EquityEventKind};
use sure::forecast::ForecastTargetType;
use sure::iso_date::IsoDate;
use sure::providers::SyncOutcome;
use sure::rules::RuleRunKind;
use sure::strategies::SaveInvestmentStrategy;
use sure::text::{decimal, parse_i64, parse_u32, trim};

#[test]
fn every_stored_kind_round_trips_through_its_text() {
    for k in [CronKind::Appreciation, CronKind::Depreciation, CronKind::Interest, CronKind::FixedTransaction] {
        assert_eq!(CronKind::from_str(k.as_str()), Ok(k));
    }
    for k in [CategoryKind::Income, CategoryKind::Expense, CategoryKind::Transfer] {
        assert_eq!(CategoryKind::from_str(k.as_str()), Ok(k));
    }
    for k in [LotKind::Buy, LotKind::Sell, LotKind::Corporate] {
        assert_eq!(LotKind::from_str(k.as_str()), Ok(k));
    }
    for k in [ForecastTargetType::Account, ForecastTargetType::Category] {
        assert_eq!(ForecastTargetType::from_str(k.as_str()), Ok(k));
    }
    for k in [RuleRunKind::Single, RuleRunKind::All, RuleRunKind::Auto] {
        assert_eq!(RuleRunKind::from_str(k.as_str()), Ok(k));
    }
    for k in [SyncOutcome::Succeeded, SyncOutcome::Error, SyncOutcome::Disconnected] {
        assert_eq!(SyncOutcome::from_str(k.as_str()), Ok(k));
    }
    assert_eq!(SyncOutcome::Succeeded.as_str(), "ok");
    assert!(!SyncOutcome::Succeeded.needs_attention());
    assert!(SyncOutcome::Disconnected.needs_attention());
    assert_eq!(CronKind::from_str("monthly"), Err("unknown cron kind 'monthly'".to_string()));
    assert_eq!(CategoryKind::default(), CategoryKind::Expense);
    assert_eq!(EquityEventKind::Cliff.as_str(), "cliff");
    assert_eq!(manual_kind(), LotKind::Buy);
    assert_eq!((vest48(), cliff12()), (48, 12));
    assert_eq!(BrokerageActivity30d::default().trades, 0);
    assert!(BrokerageImportResult::default().warnings.is_empty());
}

fn strategy() -> SaveInvestmentStrategy {
    SaveInvestmentStrategy {
        label: "Index fund".into(),
        active_from: IsoDate::parse("2026-01-01").unwrap(),
        active_to: None,
        income_share_bps: 1_000,
        income_stream_id: None,
        windfall_share_bps: 10_000,
        debt_above_bps: None,
        target_account_id: 3,
        enabled: true,
        sort_order: 0,
        notes: None,
    }
}

#[test]
fn a_reasonable_strategy_validates() {
    assert!(strategy().validate().is_ok());
}

#[test]
fn a_strategy_reports_every_problem() {
    let mut s = strategy();
    s.label = " ".into();
    s.income_share_bps = 0;
    s.windfall_share_bps = 0;
    s.debt_above_bps = Some(-1);
    s.active_to = Some(IsoDate::parse("2025-12-31").unwrap());
    assert_eq!(
        s.validate().unwrap_err(),
        vec![
            "a strategy needs a label".to_string(),
            "debt_above_bps cannot be negative".to_string(),
            "active_to is before active_from, which is a strategy that is never active".to_string(),
            "a strategy that invests no share of income and no share of a windfall would do nothing".to_string(),
        ]
    );
    let mut s = strategy();
    s.income_share_bps = 10_001;
    assert_eq!(
        s.validate().unwrap_err(),
        vec!["income_share_bps must be between 0 and 10000, got 10001".to_string()]
    );
}

#[test]
fn numbers_render_and_parse_as_std_does() {
    for n in [0i64, 7, -7, 1_000_000, i64::MAX, i64::MIN] {
        assert_eq!(decimal(n), n.to_string());
        assert_eq!(parse_i64(&n.to_string()), Some(n));
    }
    assert_eq!(parse_u32("4294967295"), Some(u32::MAX));
    assert_eq!(parse_u32("4294967296"), None);
    assert_eq!(parse_u32(""), None);
    assert_eq!(parse_u32("+"), None);
    assert_eq!(parse_i64("-"), None);
    assert_eq!(parse_i64("12a"), None);
    assert_eq!(trim("  \t a b \n"), "a b");
    assert_eq!(trim("\u{3000}x\u{a0}"), "x");
}

use sure::error::AppError;
use sure::stock_prices::{
    after_quote_write, exchange_hint, is_unusable_quote, tickers_to_refresh, QuoteOutcome,
    SharesTicker,
};

fn t(ticker: &str, exchange: &str) -> SharesTicker {
    SharesTicker { ticker: ticker.into(), exchange: exchange.into() }
}

#[test]
fn a_listing_held_both_ways_is_fetched_once() {
    let tickers = tickers_to_refresh(
        vec![t("MEL", "NZX"), t("BAD", "")],
        vec![t("VOD", "LSE"), t("MEL", "NZX"), t("MEL", "ASX")],
    );
    let keys: Vec<(String, String)> = tickers.into_iter().map(|t| (t.ticker, t.exchange)).collect();
    assert_eq!(
        keys,
        vec![
            ("MEL".to_string(), "NZX".to_string()),
            ("BAD".to_string(), String::new()),
            ("VOD".to_string(), "LSE".to_string()),
            ("MEL".to_string(), "ASX".to_string()),
        ]
    );
    assert_eq!(exchange_hint(""), None);
    assert_eq!(exchange_hint("NZX"), Some("NZX"));
}

#[test]
fn only_an_unknown_currency_quote_is_skipped() {
    assert!(is_unusable_quote(&AppError::validation("unknown currency GBX".into())));
    assert!(!is_unusable_quote(&AppError::Internal("disk I/O error".into())));
    assert!(matches!(after_quote_write(Ok(())), QuoteOutcome::Stored));
    assert!(matches!(
        after_quote_write(Err(AppError::validation("unknown currency GBX".into()))),
        QuoteOutcome::Skipped
    ));
    assert!(matches!(
        after_quote_write(Err(AppError::Internal("locked".into()))),
        QuoteOutcome::Fatal(AppError::Internal(_))
    ));
}
