use std::cell::RefCell;
use std::collections::HashMap;

use sure::balance_walk::{value_from_walk, value_walk, ValueWalk};
use sure::calendar::Day;
use sure::ledger::{Ledger, LedgerRow};
use sure::reports::narrow_minor;

type Rows = HashMap<i64, Vec<(Day, i64, String)>>;

fn d(s: &str) -> Day {
    Day::parse(s).unwrap()
}

/// Movements in one currency, in the shape the ledger carries them.
fn in_ccy(ccy: &str, rows: &[(Day, i64)]) -> Vec<(Day, i64, String)> {
    rows.iter().map(|(d, a)| (*d, *a, ccy.to_string())).collect()
}

fn nzd(rows: &[(Day, i64)]) -> Vec<(Day, i64, String)> {
    in_ccy("NZD", rows)
}

fn rows_of(m: &Rows, id: i64) -> &[(Day, i64, String)] {
    m.get(&id).map(|v| v.as_slice()).unwrap_or(&[])
}

/// A rate table quoted against one base currency: `(base, quote, rate)` means one unit of
/// `base` buys `rate` units of `quote`. Remembers every currency it could not convert.
struct Rates {
    base: String,
    rates: Vec<(String, f64)>,
    unconverted: RefCell<Vec<String>>,
}

impl Rates {
    fn with_rates(base: &str, rates: &[(&str, &str, f64)]) -> Self {
        Rates {
            base: base.to_string(),
            rates: rates.iter().map(|(_, q, r)| (q.to_string(), *r)).collect(),
            unconverted: RefCell::new(Vec::new()),
        }
    }

    fn convert(&self, minor: i64, from: &str, to: &str) -> Option<i64> {
        if from == to {
            return Some(minor);
        }
        let rate = if to == self.base {
            self.rates.iter().find(|(q, _)| q == from).map(|(_, r)| *r)
        } else {
            None
        };
        match rate {
            Some(r) => Some((minor as f64 / r).round() as i64),
            None => {
                self.unconverted.borrow_mut().push(from.to_string());
                None
            }
        }
    }

    fn unconverted(&self) -> Vec<String> {
        self.unconverted.borrow().clone()
    }
}

/// An account's value and the currency it is quoted in, converting each foreign subtotal
/// through `fx`.
fn account_value_at(
    id: i64,
    ccy: &str,
    date: Day,
    fx: &Rates,
    tx: &Rows,
    val: &Rows,
) -> Option<(i64, String)> {
    let walk = value_walk(ccy, &date, rows_of(tx, id), rows_of(val, id));
    let converted: Vec<Option<i64>> = match &walk {
        ValueWalk::Total { currency, foreign, .. } => foreign
            .iter()
            .map(|(code, minor)| fx.convert(*minor, code, currency))
            .collect(),
        ValueWalk::Read { .. } => Vec::new(),
    };
    value_from_walk(&walk, &converted)
}

/// The minor-unit answer for a ledger that needs no conversion.
fn value_at(id: i64, ccy: &str, date: Day, tx: &Rows, val: &Rows) -> i64 {
    let walk = value_walk(ccy, &date, rows_of(tx, id), rows_of(val, id));
    if let ValueWalk::Total { foreign, .. } = &walk {
        assert!(foreign.is_empty(), "a single-currency ledger needs no exchange rate");
    }
    value_from_walk(&walk, &[]).expect("a single-currency ledger needs no exchange rate").0
}

#[test]
fn mortgage_reconstructs_its_negative_balance_backwards_from_todays_valuation() {
    let mut tx = HashMap::new();
    tx.insert(
        7i64,
        nzd(&[
            (d("2025-12-11"), 485_000_00),
            (d("2026-01-12"), 313_81),
            (d("2026-02-09"), 434_70),
        ]),
    );
    let mut val = HashMap::new();
    val.insert(7i64, vec![(d("2026-07-19"), -484_251_49, "NZD".to_string())]);

    assert_eq!(value_at(7, "NZD", d("2025-12-01"), &tx, &val), 0);
    assert_eq!(value_at(7, "NZD", d("2025-12-15"), &tx, &val), -485_000_00);
    assert_eq!(value_at(7, "NZD", d("2026-01-20"), &tx, &val), -484_686_19);
    assert_eq!(value_at(7, "NZD", d("2026-07-19"), &tx, &val), -484_251_49);
}

#[test]
fn property_is_zero_before_purchase_and_valued_after() {
    let tx = HashMap::new();
    let mut val = HashMap::new();
    val.insert(9i64, vec![(d("2025-12-12"), 770_000_00, "NZD".to_string())]);

    assert_eq!(value_at(9, "NZD", d("2025-12-01"), &tx, &val), 0);
    assert_eq!(value_at(9, "NZD", d("2025-12-12"), &tx, &val), 770_000_00);
    assert_eq!(value_at(9, "NZD", d("2026-06-01"), &tx, &val), 770_000_00);
}

#[test]
fn a_multi_currency_account_converts_each_currency_before_summing() {
    let fx = Rates::with_rates("NZD", &[("NZD", "USD", 0.5), ("NZD", "AUD", 0.8)]);
    let mut rows = nzd(&[(d("2026-01-05"), 100_00)]);
    rows.extend(in_ccy("USD", &[(d("2026-01-06"), 50_00)]));
    rows.extend(in_ccy("AUD", &[(d("2026-01-07"), 40_00)]));
    let tx = HashMap::from([(16i64, rows)]);
    let val = HashMap::new();

    let (value, ccy) = account_value_at(16, "NZD", d("2026-02-01"), &fx, &tx, &val).unwrap();
    assert_eq!(value, 250_00, "raw minor units would have read 190_00");
    assert_eq!(ccy, "NZD");
    assert!(fx.unconverted().is_empty());
}

#[test]
fn the_valuation_anchor_walk_converts_the_movements_it_subtracts() {
    let fx = Rates::with_rates("NZD", &[("NZD", "USD", 0.5)]);
    let mut rows = nzd(&[(d("2026-01-05"), 30_00)]);
    rows.extend(in_ccy("USD", &[(d("2026-01-06"), 25_00)]));
    let tx = HashMap::from([(16i64, rows)]);
    let val = HashMap::from([(16i64, vec![(d("2026-02-01"), 500_00, "NZD".to_string())])]);

    let (value, ccy) = account_value_at(16, "NZD", d("2026-01-05"), &fx, &tx, &val).unwrap();
    assert_eq!(value, 450_00, "raw minor units would have read 475_00");
    assert_eq!(ccy, "NZD");
}

#[test]
fn a_held_currency_with_no_rate_refuses_the_whole_account_value() {
    let fx = Rates::with_rates("NZD", &[("NZD", "USD", 0.5)]);
    let mut rows = nzd(&[(d("2026-01-05"), 100_00)]);
    rows.extend(in_ccy("USD", &[(d("2026-01-06"), 50_00)]));
    rows.extend(in_ccy("JPY", &[(d("2026-01-07"), 10_000)]));
    let tx = HashMap::from([(16i64, rows)]);
    let val = HashMap::new();

    assert_eq!(account_value_at(16, "NZD", d("2026-02-01"), &fx, &tx, &val), None);
    assert_eq!(fx.unconverted(), vec!["JPY".to_string()]);
}

#[test]
fn a_single_currency_account_needs_no_rate_at_all() {
    let fx = Rates::with_rates("NZD", &[]);
    let tx = HashMap::from([(
        21i64,
        in_ccy("JPY", &[(d("2026-01-05"), 500_000), (d("2026-01-06"), -100_000)]),
    )]);
    let val = HashMap::new();

    let (value, ccy) = account_value_at(21, "JPY", d("2026-02-01"), &fx, &tx, &val).unwrap();
    assert_eq!(value, 400_000);
    assert_eq!(ccy, "JPY");
    assert!(fx.unconverted().is_empty());
}

#[test]
fn cash_account_without_valuations_sums_transactions() {
    let mut tx = HashMap::new();
    tx.insert(3i64, nzd(&[(d("2026-01-05"), 500_00), (d("2026-01-10"), -120_00)]));
    let val = HashMap::new();

    assert_eq!(value_at(3, "NZD", d("2026-01-01"), &tx, &val), 0);
    assert_eq!(value_at(3, "NZD", d("2026-01-07"), &tx, &val), 500_00);
    assert_eq!(value_at(3, "NZD", d("2026-01-31"), &tx, &val), 380_00);
}

#[test]
fn two_rows_at_the_wire_ceiling_still_sum_exactly() {
    let ceiling = sure::money::MAX_MONEY_MINOR;
    let mut tx = HashMap::new();
    tx.insert(11i64, nzd(&[(d("2026-01-05"), ceiling), (d("2026-01-06"), ceiling)]));
    let val = HashMap::new();

    assert_eq!(
        value_at(11, "NZD", d("2026-02-01"), &tx, &val),
        2 * ceiling,
        "the ceiling is chosen so this fits in an i64 with room to spare"
    );
}

#[test]
fn a_pre_existing_over_ceiling_row_saturates_instead_of_panicking_or_wrapping() {
    let mut tx = HashMap::new();
    tx.insert(12i64, nzd(&[(d("2026-01-05"), i64::MAX), (d("2026-01-06"), i64::MAX)]));
    let val = HashMap::new();

    assert_eq!(
        value_at(12, "NZD", d("2026-02-01"), &tx, &val),
        i64::MAX,
        "must clamp at the ceiling of the type, not wrap negative"
    );

    let mut tx = HashMap::new();
    tx.insert(13i64, nzd(&[(d("2026-01-05"), i64::MIN), (d("2026-01-06"), i64::MIN)]));
    assert_eq!(value_at(13, "NZD", d("2026-02-01"), &tx, &val), i64::MIN);
}

#[test]
fn the_valuation_anchor_subtraction_saturates_too() {
    let mut tx = HashMap::new();
    tx.insert(14i64, nzd(&[(d("2026-01-05"), i64::MAX), (d("2026-01-06"), i64::MAX)]));
    let mut val = HashMap::new();
    val.insert(14i64, vec![(d("2026-03-01"), i64::MIN, "NZD".to_string())]);

    assert_eq!(
        value_at(14, "NZD", d("2026-01-05"), &tx, &val),
        i64::MIN,
        "anchor − later movements must clamp, not wrap"
    );
}

#[test]
fn an_imported_history_reads_zero_before_its_earliest_transaction() {
    let movements = nzd(&[
        (d("2020-01-01"), -15_694_18),
        (d("2020-01-01"), -2_000_00),
        (d("2021-05-05"), -900_00),
    ]);
    let mut val = HashMap::new();
    val.insert(8i64, vec![(d("2026-08-03"), 100_00, "NZD".to_string())]);

    let mut tx = HashMap::new();
    tx.insert(8i64, movements.clone());

    assert_eq!(value_at(8, "NZD", d("2020-01-01"), &tx, &val), 1_000_00);
    assert_eq!(value_at(8, "NZD", d("2021-05-05"), &tx, &val), 100_00);
    assert_eq!(value_at(8, "NZD", d("2026-08-03"), &tx, &val), 100_00);
    assert_eq!(value_at(8, "NZD", d("2019-12-31"), &tx, &val), 0);

    let mut with_opening = movements;
    with_opening.push((d("2019-12-31"), 18_694_18, "NZD".to_string()));
    let mut tx = HashMap::new();
    tx.insert(8i64, with_opening);

    assert_eq!(value_at(8, "NZD", d("2019-12-30"), &tx, &val), 0);
    assert_eq!(value_at(8, "NZD", d("2019-12-31"), &tx, &val), 18_694_18);
    assert_eq!(value_at(8, "NZD", d("2020-01-01"), &tx, &val), 1_000_00);
    assert_eq!(value_at(8, "NZD", d("2026-08-03"), &tx, &val), 100_00);
}

#[test]
fn an_early_valuation_freezes_the_account_and_hides_later_movements() {
    let mut tx = HashMap::new();
    tx.insert(
        8i64,
        nzd(&[
            (d("2020-01-01"), -15_694_18),
            (d("2020-01-01"), -2_000_00),
            (d("2021-05-05"), -900_00),
        ]),
    );
    let mut val = HashMap::new();
    val.insert(
        8i64,
        vec![
            (d("2019-12-31"), 18_694_18, "NZD".to_string()),
            (d("2026-08-03"), 100_00, "NZD".to_string()),
        ],
    );

    assert_eq!(value_at(8, "NZD", d("2021-01-01"), &tx, &val), 18_694_18);
    assert_eq!(value_at(8, "NZD", d("2025-01-01"), &tx, &val), 18_694_18);
    assert_eq!(value_at(8, "NZD", d("2026-08-03"), &tx, &val), 100_00);
}

#[test]
fn foreign_subtotals_come_sorted_by_currency_and_narrowed() {
    let mut rows = nzd(&[(d("2026-01-05"), 1)]);
    rows.extend(in_ccy("USD", &[(d("2026-01-06"), i64::MAX), (d("2026-01-07"), 5)]));
    rows.extend(in_ccy("AUD", &[(d("2026-01-06"), -7), (d("2026-03-01"), 100)]));
    let walk = value_walk("NZD", &d("2026-02-01"), &rows, &[]);
    assert_eq!(
        walk,
        ValueWalk::Total {
            currency: "NZD".to_string(),
            anchor: None,
            own: 1,
            foreign: vec![("AUD".to_string(), -7), ("USD".to_string(), i64::MAX)],
        }
    );
    assert_eq!(narrow_minor("t", None, i128::from(i64::MAX) + 5), i64::MAX);
}

fn row(account_id: i64, date: &str, amount_minor: i64, ccy: &str) -> LedgerRow {
    LedgerRow {
        account_id,
        date: date.to_string(),
        amount_minor,
        currency_code: ccy.to_string(),
    }
}

#[test]
fn a_ledger_files_rows_by_account_and_leaves_unreadable_dates_out() {
    let movements = vec![
        row(3, "2026-01-05", 500_00, "NZD"),
        row(4, "2026-01-06", 7_00, "NZD"),
        row(3, "31/07/2026", 1_000_000_00, "NZD"),
        row(3, "2026-01-10T09:30:00Z", -120_00, "NZD"),
    ];
    let valuations = vec![row(4, "2026-01-31", 99_00, "NZD")];
    let ledger = Ledger::load(&movements, &valuations);

    let walk = ledger.walk(3, "NZD", &d("2026-01-31"));
    assert_eq!(value_from_walk(&walk, &[]), Some((380_00, "NZD".to_string())));
    let walk = ledger.walk(4, "NZD", &d("2026-02-01"));
    assert_eq!(walk, ValueWalk::Read { value: 99_00, currency: "NZD".to_string() });
    let walk = ledger.walk(5, "USD", &d("2026-02-01"));
    assert_eq!(value_from_walk(&walk, &[]), Some((0, "USD".to_string())));
}
