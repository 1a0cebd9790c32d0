use sure::accounts::AccountKind;
use sure::providers::ProviderAccount;
use sure::sync::{
    account_numbers_to_adopt, already_running, plan_balance_writes, sync_detail, sync_failed,
    sync_provider_tag, unknown_provider_kind, LinkedConnection, ProviderBalance, SyncSlots,
    MAX_SYNC_DETAIL_CHARS,
};

fn oversized_error() -> String {
    format!("failed to deserialize response: {}", "SYNTHETIC-BODY-FILLER ".repeat(200))
}

#[test]
fn truncates_an_oversized_provider_error() {
    let detail = sync_detail(&oversized_error());
    assert!(detail.ends_with("… (truncated)"));
    assert_eq!(
        detail.chars().count(),
        MAX_SYNC_DETAIL_CHARS + "… (truncated)".chars().count()
    );
    assert!(detail.starts_with("failed to deserialize response: SYNTHETIC-BODY-FILLER"));
}

#[test]
fn leaves_a_short_provider_error_alone() {
    let detail = sync_detail("upstream timed out");
    assert_eq!(detail, "upstream timed out");
}

#[test]
fn cuts_multibyte_text_on_a_char_boundary() {
    let body: String = "ゑ".repeat(MAX_SYNC_DETAIL_CHARS + 10);
    let detail = sync_detail(&body);
    assert!(detail.ends_with("… (truncated)"));
    assert_eq!(detail.chars().filter(|c| *c == 'ゑ').count(), MAX_SYNC_DETAIL_CHARS);
}

#[test]
fn marks_only_when_it_actually_cut() {
    let exact: String = "x".repeat(MAX_SYNC_DETAIL_CHARS);
    assert_eq!(sync_detail(&exact), exact);
    let one_over: String = "x".repeat(MAX_SYNC_DETAIL_CHARS + 1);
    assert_eq!(sync_detail(&one_over), format!("{exact}… (truncated)"));
}

#[test]
fn refuses_a_second_concurrent_sync_of_the_same_provider() {
    let mut slots = SyncSlots::new();
    assert!(slots.claim(1));
    assert!(!slots.claim(1));
    assert!(slots.is_claimed(1));
    let e = already_running(1);
    assert_eq!(e.code(), "conflict");
    assert_eq!(
        e.message(),
        "a sync of provider 1 is already running — refusing to start a second one"
    );
}

#[test]
fn syncs_different_providers_concurrently() {
    let mut slots = SyncSlots::new();
    assert!(slots.claim(1));
    assert!(slots.claim(2));
}

#[test]
fn releases_the_slot_when_the_fetch_fails() {
    let mut slots = SyncSlots::new();
    assert!(slots.claim(7));
    let e = sync_failed(&sync_detail("upstream said no"));
    assert_eq!(e.message(), "sync failed: upstream said no");
    slots.release(7);
    assert!(!slots.is_claimed(7));
    assert!(slots.claim(7));
}

fn balance(currency: &str) -> ProviderBalance {
    ProviderBalance {
        minor: -250_000_00,
        currency_code: currency.into(),
        limit_minor: Some(5_000_00),
        initial_principal_minor: Some(400_000_00),
        institution: Some("Fake Bank".into()),
    }
}

#[test]
fn refuses_a_balance_in_a_different_currency_and_records_why() {
    let w = plan_balance_writes(false, "NZD", &balance("AUD"));
    assert_eq!(w.valuation_minor, None);
    assert_eq!(w.credit_limit_minor, None);
    assert_eq!(w.original_amount_minor, None);
    assert_eq!(w.institution.as_deref(), Some("Fake Bank"));
    let why = w.refused.expect("a refusal");
    assert!(why.contains("AUD") && why.contains("NZD"), "{why}");
}

#[test]
fn a_brokerage_account_reports_no_refusal_for_a_foreign_balance() {
    let w = plan_balance_writes(true, "NZD", &balance("USD"));
    assert!(w.refused.is_none());
    assert_eq!(w.valuation_minor, None);
}

#[test]
fn records_a_balance_in_the_accounts_own_currency() {
    let w = plan_balance_writes(false, "NZD", &balance("NZD"));
    assert_eq!(w.valuation_minor, Some(-250_000_00));
    assert_eq!(w.credit_limit_minor, Some(5_000_00));
    assert_eq!(w.original_amount_minor, Some(400_000_00));
    assert!(w.refused.is_none());
}

#[test]
fn compares_currency_codes_case_insensitively() {
    let w = plan_balance_writes(false, "NZD", &balance("nzd"));
    assert!(w.refused.is_none());
    assert_eq!(w.valuation_minor, Some(-250_000_00));
}

#[test]
fn a_sync_names_its_rows_and_its_failures() {
    assert_eq!(sync_provider_tag("akahu", 12), "akahu#12");
    assert_eq!(unknown_provider_kind("nope").message(), "unknown provider kind 'nope'");
}

fn upstream(external_id: &str, number: Option<&str>) -> ProviderAccount {
    ProviderAccount {
        external_id: external_id.to_string(),
        name: "Everyday".to_string(),
        currency_code: "NZD".to_string(),
        institution: Some("Fake Bank".to_string()),
        authorisation_id: None,
        account_number: number.map(str::to_string),
        kind_hint: AccountKind::Bank,
        balance_minor: 0,
        supports_transactions: true,
        joint: false,
        original_amount_hint_minor: None,
    }
}

/// A `providers` row of the fake kind pointing at `account_id`, configured with the upstream
/// id a link writes.
fn linked(_id: i64, account_id: i64, external_id: &str) -> LinkedConnection {
    LinkedConnection {
        kind: "fake".to_string(),
        account_id,
        external_account_id: Some(external_id.to_string()),
    }
}

#[test]
fn adopts_the_account_number_every_linked_account_reports() {
    let rows = vec![linked(1, 501, "acc_a"), linked(2, 502, "acc_b")];
    let listing = vec![
        upstream("acc_a", Some("12-3456-0000001-51")),
        upstream("acc_b", Some("12-3456-0000002-51")),
    ];
    let written = account_numbers_to_adopt("fake", &listing, &rows);
    assert_eq!(written.len(), 2);
    assert_eq!(
        written,
        vec![
            (501, "12-3456-0000001-51".to_string()),
            (502, "12-3456-0000002-51".to_string())
        ]
    );
}

#[test]
fn skips_accounts_the_upstream_reports_no_number_for() {
    let rows = vec![linked(1, 501, "acc_a"), linked(2, 502, "acc_nonumber")];
    let listing = vec![
        upstream("acc_a", Some("12-3456-0000001-51")),
        upstream("acc_nonumber", None),
        upstream("acc_unlinked", Some("12-3456-0000456-00")),
    ];
    let written = account_numbers_to_adopt("fake", &listing, &rows);
    assert_eq!(written.len(), 1);
    assert_eq!(written, vec![(501, "12-3456-0000001-51".to_string())]);
}

#[test]
fn a_provider_without_discovery_adopts_nothing() {
    let written = account_numbers_to_adopt("fake", &[], &[linked(1, 501, "acc_a")]);
    assert_eq!(written.len(), 0);
    assert!(written.is_empty());
}

#[test]
fn a_failed_listing_is_refused_with_the_kind_named() {
    let e = sure::sync::listing_failed("akahu", "connection reset");
    assert_eq!(e.message(), "could not list akahu accounts: connection reset");
    assert!(matches!(e, sure::error::AppError::Validation(_)));
}

#[test]
fn an_adoption_counts_only_the_numbers_it_filled_in() {
    let mut t = sure::sync::AdoptionTally::new();
    t.written(true);
    t.written(false);
    t.written(true);
    assert_eq!(t.filled, 2);
}
