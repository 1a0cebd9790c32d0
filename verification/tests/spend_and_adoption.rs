use sure::accounts::AccountKind;
use sure::calendar::Day;
use sure::categories::CategoryKind;
use sure::people::Ownership;
use sure::providers::ProviderAccount;
use sure::report_dates::report_window;
use sure::reports::{spend_bucket, Categories, GroupBy, SpendTransaction, SpendWindow};
use sure::rule_engine::{Current, RunPlan};
use sure::rules::Rule;
use sure::sync::{account_numbers_to_adopt, LinkedConnection};

fn d(y: i32, m: u32, day: u32) -> Day {
    Day::from_parts(y, m, day).unwrap()
}

fn window(attributed_to: Option<Ownership>, include_one_off: bool) -> SpendWindow {
    SpendWindow { from: d(2026, 1, 1), to: d(2026, 1, 31), include_one_off, attributed_to }
}

fn coffee() -> SpendTransaction {
    SpendTransaction {
        attribution: Ownership::Joint,
        linked_transaction_id: None,
        account_kind: AccountKind::Bank,
        is_one_off: false,
        category_id: Some(5),
        posted_at: "2026-01-15".to_string(),
        account_id: 2,
        account_name: "Everyday".to_string(),
        amount_minor: -450,
        currency_code: "NZD".to_string(),
        merchant_id: None,
        merchant: Some("The Roastery".to_string()),
    }
}

fn cats() -> Categories {
    let mut c = Categories::new();
    c.insert(5, None, "Food", CategoryKind::Expense);
    c.insert(9, None, "Transfers", CategoryKind::Transfer);
    c
}

#[test]
fn an_ordinary_purchase_in_the_window_counts() {
    assert!(window(None, false).keeps(&cats(), &coffee()));
    assert!(window(Some(Ownership::Joint), false).keeps(&cats(), &coffee()));
}

#[test]
fn spend_excludes_transfers_instruments_one_offs_and_other_owners() {
    let c = cats();
    let w = window(None, false);
    let linked = SpendTransaction { linked_transaction_id: Some(7), ..coffee() };
    assert!(!w.keeps(&c, &linked));
    let transfer = SpendTransaction { category_id: Some(9), ..coffee() };
    assert!(!w.keeps(&c, &transfer));
    let mortgage = SpendTransaction { account_kind: AccountKind::Mortgage, ..coffee() };
    assert!(!w.keeps(&c, &mortgage));
    let one_off = SpendTransaction { is_one_off: true, ..coffee() };
    assert!(!w.keeps(&c, &one_off));
    assert!(window(None, true).keeps(&c, &one_off));
    let someone = window(Some(Ownership::Person { person_id: 3 }), false);
    assert!(!someone.keeps(&c, &coffee()));
}

#[test]
fn spend_window_is_inclusive_and_reads_dates_tolerantly() {
    let c = cats();
    let w = window(None, false);
    for (posted, kept) in [
        ("2026-01-01", true),
        ("2026-01-31", true),
        ("2026-01-31T23:59:59", true),
        ("2025-12-31", false),
        ("2026-02-01", false),
        ("31/01/2026", false),
    ] {
        let t = SpendTransaction { posted_at: posted.to_string(), ..coffee() };
        assert_eq!(w.keeps(&c, &t), kept, "{posted}");
    }
}

fn upstream(external_id: &str, number: Option<&str>) -> ProviderAccount {
    ProviderAccount {
        external_id: external_id.to_string(),
        name: "Everyday".to_string(),
        currency_code: "NZD".to_string(),
        institution: None,
        authorisation_id: None,
        account_number: number.map(str::to_string),
        kind_hint: AccountKind::Bank,
        balance_minor: 0,
        supports_transactions: true,
        joint: false,
        original_amount_hint_minor: None,
    }
}

fn linked(kind: &str, account_id: i64, external: Option<&str>) -> LinkedConnection {
    LinkedConnection {
        kind: kind.to_string(),
        account_id,
        external_account_id: external.map(str::to_string),
    }
}

#[test]
fn account_numbers_are_adopted_for_linked_accounts_of_the_kind() {
    let listing = vec![
        upstream("acc_1", Some("12-3456-0001-00")),
        upstream("acc_2", None),
        upstream("acc_3", Some("12-3456-0003-00")),
    ];
    let rows = vec![
        linked("akahu", 10, Some("acc_1")),
        linked("akahu", 11, Some("acc_2")),
        linked("csv", 12, Some("acc_3")),
        linked("akahu", 13, None),
        linked("akahu", 14, Some("acc_3")),
        linked("akahu", 15, Some("acc_9")),
    ];
    let got = account_numbers_to_adopt("akahu", &listing, &rows);
    assert_eq!(
        got,
        vec![(10, "12-3456-0001-00".to_string()), (14, "12-3456-0003-00".to_string())]
    );
}

#[test]
fn the_last_listed_number_for_an_id_wins() {
    let listing = vec![
        upstream("acc_1", Some("first")),
        upstream("acc_1", Some("second")),
        upstream("acc_1", None),
    ];
    let got = account_numbers_to_adopt("akahu", &listing, &[linked("akahu", 1, Some("acc_1"))]);
    assert_eq!(got, vec![(1, "second".to_string())]);
    assert!(account_numbers_to_adopt("akahu", &[], &[linked("akahu", 1, Some("acc_1"))]).is_empty());
}

fn rule(id: i64, set_category_id: Option<i64>, stop_on_match: bool) -> Rule {
    Rule {
        id,
        name: "r".to_string(),
        description: None,
        expression: "true".to_string(),
        set_category_id,
        set_one_off: None,
        set_merchant_id: None,
        overwrite_manual: false,
        stop_on_match,
        priority: 0,
        enabled: true,
        created_at: "2026-01-01".to_string(),
        updated_at: "2026-01-01".to_string(),
    }
}

#[test]
fn a_run_plan_counts_matches_and_records_only_changes() {
    let mut plan = RunPlan::new();
    let mut cur = Current {
        category_id: None,
        categorized_by_rule_id: None,
        is_one_off: false,
        merchant_id: None,
    };
    // A rule that did not match changes nothing and lets the next rule look.
    assert!(plan.observe(&rule(1, Some(4), true), 100, &mut cur, false));
    assert_eq!(plan.matched, 0);
    // A matching, non-stopping rule categorizes.
    assert!(plan.observe(&rule(2, Some(4), false), 100, &mut cur, true));
    assert_eq!(cur.category_id, Some(4));
    assert_eq!(cur.categorized_by_rule_id, Some(2));
    // A second match that sets the same category is counted but records nothing, and stops.
    assert!(!plan.observe(&rule(3, Some(4), true), 100, &mut cur, true));
    assert_eq!(plan.matched, 2);
    assert_eq!(plan.applications.len(), 1);
    let a = &plan.applications[0];
    assert_eq!((a.rule_id, a.transaction_id), (2, 100));
    assert_eq!((a.prev_category_id, a.new_category_id), (None, Some(4)));
}

#[test]
fn spend_buckets_along_each_axis() {
    let mut c = Categories::new();
    c.insert(1, None, "Food", CategoryKind::Expense);
    c.insert(5, Some(1), "Groceries", CategoryKind::Expense);
    let t = coffee();
    assert_eq!(
        spend_bucket(&t, &c, GroupBy::Category),
        ("c5".to_string(), Some(5), "Food > Groceries".to_string())
    );
    let uncategorised = SpendTransaction { category_id: None, ..coffee() };
    assert_eq!(
        spend_bucket(&uncategorised, &c, GroupBy::Category),
        ("c0".to_string(), None, "Uncategorised".to_string())
    );
    assert_eq!(
        spend_bucket(&t, &c, GroupBy::Account),
        ("a2".to_string(), Some(2), "Everyday".to_string())
    );
    assert_eq!(
        spend_bucket(&t, &c, GroupBy::Month),
        ("2026-01".to_string(), None, "2026-01".to_string())
    );
}

#[test]
fn merchant_buckets_fold_payee_case_for_the_key_only() {
    let c = Categories::new();
    let shouty = SpendTransaction { merchant: Some("COUNTDOWN".to_string()), ..coffee() };
    let quiet = SpendTransaction { merchant: Some("Countdown".to_string()), ..coffee() };
    let a = spend_bucket(&shouty, &c, GroupBy::Merchant);
    let b = spend_bucket(&quiet, &c, GroupBy::Merchant);
    assert_eq!(a, ("tcountdown".to_string(), None, "COUNTDOWN".to_string()));
    assert_eq!(a.0, b.0);
    assert_eq!(b.2, "Countdown");
    let recorded = SpendTransaction { merchant_id: Some(8), ..coffee() };
    assert_eq!(
        spend_bucket(&recorded, &c, GroupBy::Merchant),
        ("m8".to_string(), Some(8), "The Roastery".to_string())
    );
    let unnamed = SpendTransaction { merchant_id: Some(8), merchant: None, ..coffee() };
    assert_eq!(spend_bucket(&unnamed, &c, GroupBy::Merchant).2, "(unnamed merchant)");
    for merchant in [None, Some(String::new())] {
        let none = SpendTransaction { merchant, ..coffee() };
        assert_eq!(
            spend_bucket(&none, &c, GroupBy::Merchant),
            ("t".to_string(), None, "(no merchant)".to_string())
        );
    }
}

#[test]
fn a_date_too_short_to_slice_is_its_own_month_bucket() {
    let c = Categories::new();
    let short = SpendTransaction { posted_at: "2026".to_string(), ..coffee() };
    assert_eq!(spend_bucket(&short, &c, GroupBy::Month).0, "2026");
    // Byte 7 inside a character: no slice, the whole text.
    let wide = SpendTransaction { posted_at: "2026-0é1".to_string(), ..coffee() };
    assert_eq!(spend_bucket(&wide, &c, GroupBy::Month).0, "2026-0é1");
}

#[test]
fn a_report_window_defaults_each_bound() {
    let today = d(2026, 6, 30);
    assert_eq!(
        report_window(Some("2026-01-01"), Some("2026-03-31"), today, None),
        (d(2026, 1, 1), d(2026, 3, 31))
    );
    assert_eq!(report_window(None, None, today, Some("2020-07-01")), (d(2020, 7, 1), today));
    assert_eq!(report_window(None, None, today, None), (today, today));
    assert_eq!(
        report_window(Some("garbage"), Some("2026-02-30"), today, Some("2021-05-05T10:00:00")),
        (d(2021, 5, 5), today)
    );
}
