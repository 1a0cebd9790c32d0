use sure::balance_delta::{
    derive_from, derive_rows, is_opted_in, AccountClass, ImportRow, Valuation, ValuationSource,
    FROM_KEY, OPT_IN_KEY,
};
use sure::calendar::Day;

fn d(s: &str) -> Day {
    Day::parse(s).unwrap()
}

fn valuation(as_of: &str, value_minor: i64, source: ValuationSource) -> Valuation {
    Valuation {
        id: 0,
        account_id: 6,
        as_of: as_of.to_string(),
        value_minor,
        currency_code: "NZD".to_string(),
        source,
        note: None,
        created_at: String::new(),
    }
}

fn provider_valuation(as_of: &str, value_minor: i64) -> Valuation {
    valuation(as_of, value_minor, ValuationSource::Provider)
}

fn liability(valuations: &[Valuation], today: &str) -> Vec<ImportRow> {
    derive_rows(&valuations.to_vec(), None, d(today), AccountClass::Liability)
}

#[test]
fn a_repayment_on_a_liability_derives_a_positive_transaction() {
    let rows = liability(
        &[provider_valuation("2026-08-01", -30_000_00), provider_valuation("2026-08-02", -29_600_00)],
        "2026-08-03",
    );
    assert_eq!(rows.len(), 1);
    assert_eq!(rows[0].amount_minor, 400_00);
    assert_eq!(rows[0].description, "Repayment (derived)");
    assert_eq!(rows[0].posted_at, "2026-08-02T12:00:00+00:00");
    assert_eq!(rows[0].external_id, "2026-08-01..2026-08-02");
}

#[test]
fn a_drawdown_on_a_liability_derives_a_negative_transaction() {
    let rows = liability(
        &[provider_valuation("2026-08-01", -30_000_00), provider_valuation("2026-08-02", -30_350_00)],
        "2026-08-03",
    );
    assert_eq!(rows.len(), 1);
    assert_eq!(rows[0].amount_minor, -350_00);
    assert_eq!(rows[0].description, "Drawdown or fee (derived)");
}

#[test]
fn an_unchanged_balance_derives_nothing() {
    let rows = liability(
        &[
            provider_valuation("2026-08-01", -30_000_00),
            provider_valuation("2026-08-02", -30_000_00),
            provider_valuation("2026-08-03", -30_000_00),
        ],
        "2026-08-04",
    );
    assert!(rows.is_empty());
}

#[test]
fn the_pair_ending_today_is_left_until_it_closes() {
    let valuations = [
        provider_valuation("2026-08-01", -30_000_00),
        provider_valuation("2026-08-02", -29_600_00),
        provider_valuation("2026-08-03", -29_000_00),
    ];
    let rows = liability(&valuations, "2026-08-03");
    assert_eq!(rows.len(), 1);
    assert_eq!(rows[0].external_id, "2026-08-01..2026-08-02");
    let rows = liability(&valuations, "2026-08-04");
    assert_eq!(rows.len(), 2);
    assert_eq!(rows[1].external_id, "2026-08-02..2026-08-03");
    assert_eq!(rows[1].amount_minor, 600_00);
}

#[test]
fn a_gap_in_the_series_yields_one_spanning_delta() {
    let rows = liability(
        &[provider_valuation("2026-08-01", -30_000_00), provider_valuation("2026-08-09", -29_000_00)],
        "2026-08-10",
    );
    assert_eq!(rows.len(), 1);
    assert_eq!(rows[0].amount_minor, 1_000_00);
    assert_eq!(rows[0].external_id, "2026-08-01..2026-08-09");
    assert_eq!(rows[0].posted_at, "2026-08-09T12:00:00+00:00");
}

#[test]
fn days_before_the_cutover_are_left_to_the_importer() {
    let valuations = vec![
        provider_valuation("2026-07-29", -31_000_00),
        provider_valuation("2026-07-30", -30_000_00),
        provider_valuation("2026-07-31", -29_600_00),
    ];
    let rows = derive_rows(&valuations, Some(d("2026-07-31")), d("2026-08-01"), AccountClass::Liability);
    assert_eq!(rows.len(), 1);
    assert_eq!(rows[0].external_id, "2026-07-30..2026-07-31");
}

#[test]
fn only_provider_valuations_are_differenced() {
    let rows = liability(
        &[
            provider_valuation("2026-08-01", -30_000_00),
            valuation("2026-08-02", -12_345_00, ValuationSource::Manual),
            valuation("2026-08-02", -99_999_00, ValuationSource::Cron),
            provider_valuation("2026-08-03", -29_600_00),
        ],
        "2026-08-04",
    );
    assert_eq!(rows.len(), 1);
    assert_eq!(rows[0].amount_minor, 400_00);
    assert_eq!(rows[0].external_id, "2026-08-01..2026-08-03");
}

#[test]
fn an_out_of_order_series_is_differenced_by_date() {
    let rows = liability(
        &[
            provider_valuation("2026-08-03", -29_000_00),
            provider_valuation("2026-08-01", -30_000_00),
            provider_valuation("2026-08-02", -29_600_00),
        ],
        "2026-08-04",
    );
    assert_eq!(rows.iter().map(|r| r.amount_minor).collect::<Vec<_>>(), [400_00, 600_00]);
}

#[test]
fn re_deriving_the_same_series_produces_identical_ids() {
    let valuations = [
        provider_valuation("2026-08-01", -30_000_00),
        provider_valuation("2026-08-02", -29_600_00),
        provider_valuation("2026-08-05", -29_000_00),
    ];
    let first = liability(&valuations, "2026-08-06");
    let second = liability(&valuations, "2026-08-06");
    assert_eq!(
        first.iter().map(|r| &r.external_id).collect::<Vec<_>>(),
        second.iter().map(|r| &r.external_id).collect::<Vec<_>>()
    );
    assert_eq!(first.len(), 2);
}

#[test]
fn non_liability_accounts_get_neutral_wording() {
    let valuations = vec![provider_valuation("2026-08-01", 10_000_00), provider_valuation("2026-08-02", 10_500_00)];
    let rows = derive_rows(&valuations, None, d("2026-08-03"), AccountClass::Cash);
    assert_eq!(rows[0].description, "Balance increase (derived)");
}

/// The connection's setting under `key`, as the provider config stores it.
fn setting(config: &str, key: &str) -> Option<serde_json::Value> {
    let v: serde_json::Value = serde_json::from_str(config).unwrap();
    v.get(key).cloned()
}

#[test]
fn opting_in_requires_the_explicit_flag() {
    let flag = |config: &str| setting(config, OPT_IN_KEY).and_then(|v| v.as_bool());
    assert!(!is_opted_in(flag("{}")));
    assert!(!is_opted_in(flag(r#"{ "external_account_id": "acc_1" }"#)));
    assert!(!is_opted_in(flag(r#"{ "derive_transactions_from_balance": false }"#)));
    assert!(is_opted_in(flag(r#"{ "derive_transactions_from_balance": true }"#)));
}

#[test]
fn a_missing_or_unreadable_cutover_means_derive_everything() {
    let from = |config: &str| {
        let s = setting(config, FROM_KEY).and_then(|v| v.as_str().map(str::to_string));
        derive_from(s.as_deref())
    };
    assert_eq!(from("{}"), None);
    assert_eq!(from(r#"{ "derive_from": "" }"#), None);
    assert_eq!(from(r#"{ "derive_from": "2026-07-31" }"#), Some(d("2026-07-31")));
}

#[test]
fn days_are_read_tolerantly_and_written_as_chrono_does() {
    assert_eq!(d("2026-07-31T09:30:00Z").to_text(), "2026-07-31");
    assert_eq!(Day::from_parts(-1, 1, 1).unwrap().to_text(), "-0001-01-01");
    assert_eq!(Day::from_parts(10000, 12, 31).unwrap().to_text(), "+10000-12-31");
    assert_eq!(Day::from_parts(0, 1, 1).unwrap().to_text(), "0000-01-01");
    assert!(Day::parse("31/07/2026").is_none());
    assert!(Day::from_parts(2026, 2, 29).is_none());
    assert_eq!(d("2026-02-10").last_of_month().day(), 28);
    assert_eq!(d("2024-02-10").last_of_month().day(), 29);
}

#[test]
fn derived_rows_carry_the_connections_tag_and_need_an_enabled_opt_in() {
    assert_eq!(sure::balance_delta::balance_delta_tag(42), "balance-delta#42");
    assert!(sure::balance_delta::derives_for(true, Some(true)));
    assert!(!sure::balance_delta::derives_for(false, Some(true)));
    assert!(!sure::balance_delta::derives_for(true, Some(false)));
    assert!(!sure::balance_delta::derives_for(true, None));
}
