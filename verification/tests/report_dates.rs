use sure::calendar::Day;
use sure::report_dates::{
    last_day_of_month, net_worth_window, sample_dates, Interval, MAX_STEPPED_SAMPLES,
};
use sure::stock_prices::backfill_start;

fn d(y: i32, m: u32, day: u32) -> Day {
    Day::from_parts(y, m, day).unwrap()
}

#[test]
fn monthly_samples_are_month_ends_closed_by_the_window_end() {
    let got = sample_dates(d(2026, 1, 15), d(2026, 3, 10), Interval::Month);
    assert_eq!(got, vec![d(2026, 1, 31), d(2026, 2, 28), d(2026, 3, 10)]);
}

#[test]
fn a_window_ending_on_a_month_end_is_not_closed_twice() {
    let got = sample_dates(d(2026, 1, 1), d(2026, 2, 28), Interval::Month);
    assert_eq!(got, vec![d(2026, 1, 31), d(2026, 2, 28)]);
}

#[test]
fn monthly_samples_cross_a_year_and_a_leap_february() {
    let got = sample_dates(d(2023, 12, 5), d(2024, 3, 1), Interval::Month);
    assert_eq!(
        got,
        vec![d(2023, 12, 31), d(2024, 1, 31), d(2024, 2, 29), d(2024, 3, 1)]
    );
}

#[test]
fn daily_samples_step_one_day_and_end_on_the_window_end() {
    let got = sample_dates(d(2025, 12, 30), d(2026, 1, 2), Interval::Day);
    assert_eq!(got, vec![d(2025, 12, 30), d(2025, 12, 31), d(2026, 1, 1), d(2026, 1, 2)]);
}

#[test]
fn weekly_samples_step_seven_days_and_end_on_the_window_end() {
    let got = sample_dates(d(2026, 1, 1), d(2026, 1, 20), Interval::Week);
    assert_eq!(got, vec![d(2026, 1, 1), d(2026, 1, 8), d(2026, 1, 15), d(2026, 1, 20)]);
}

#[test]
fn a_window_that_ends_before_it_starts_is_sampled_on_its_end() {
    let got = sample_dates(d(2026, 5, 1), d(2026, 4, 1), Interval::Month);
    assert_eq!(got, vec![d(2026, 4, 1)]);
}

#[test]
fn a_one_day_window_is_sampled_once() {
    for interval in [Interval::Day, Interval::Week, Interval::Month] {
        assert_eq!(sample_dates(d(2026, 4, 1), d(2026, 4, 1), interval), vec![d(2026, 4, 1)]);
    }
}

#[test]
fn a_long_daily_window_is_capped_and_still_ends_on_its_end() {
    let got = sample_dates(d(2020, 1, 1), d(2030, 1, 1), Interval::Day);
    assert_eq!(got.len(), MAX_STEPPED_SAMPLES + 1);
    assert_eq!(got[0], d(2020, 1, 1));
    assert_eq!(got[MAX_STEPPED_SAMPLES - 1], d(2021, 2, 3));
    assert_eq!(*got.last().unwrap(), d(2030, 1, 1));
    for w in got.windows(2) {
        assert!(w[0].is_before(&w[1]));
    }
}

#[test]
fn last_day_of_month_knows_leap_years_and_month_zero() {
    assert_eq!(last_day_of_month(2024, 2), d(2024, 2, 29));
    assert_eq!(last_day_of_month(2023, 2), d(2023, 2, 28));
    assert_eq!(last_day_of_month(1900, 2), d(1900, 2, 28));
    assert_eq!(last_day_of_month(2000, 2), d(2000, 2, 29));
    assert_eq!(last_day_of_month(2026, 4), d(2026, 4, 30));
    assert_eq!(last_day_of_month(2026, 12), d(2026, 12, 31));
    assert_eq!(last_day_of_month(2026, 0), d(2025, 12, 31));
}

#[test]
fn next_and_prev_cross_month_and_year_boundaries() {
    assert_eq!(d(2025, 12, 31).next(), d(2026, 1, 1));
    assert_eq!(d(2024, 2, 28).next(), d(2024, 2, 29));
    assert_eq!(d(2024, 2, 29).next(), d(2024, 3, 1));
    assert_eq!(d(2026, 1, 1).prev(), d(2025, 12, 31));
    assert_eq!(d(2024, 3, 1).prev(), d(2024, 2, 29));
    assert_eq!(d(2023, 3, 1).prev(), d(2023, 2, 28));
}

#[test]
fn a_backfill_looks_ten_days_back() {
    assert_eq!(backfill_start(d(2026, 3, 5)), d(2026, 2, 23));
    assert_eq!(backfill_start(d(2026, 1, 4)), d(2025, 12, 25));
    assert_eq!(backfill_start(d(2024, 3, 10)), d(2024, 2, 29));
}

#[test]
fn a_net_worth_window_starts_at_the_earliest_row_on_record() {
    let today = d(2026, 6, 30);
    assert_eq!(
        net_worth_window(None, None, today, Some("2021-03-04"), Some("2020-11-30")),
        (d(2020, 11, 30), today)
    );
    assert_eq!(
        net_worth_window(None, Some("2026-01-31"), today, Some("2021-03-04"), None),
        (d(2021, 3, 4), d(2026, 1, 31))
    );
    assert_eq!(
        net_worth_window(Some("2025-01-01"), None, today, Some("2021-03-04"), None),
        (d(2025, 1, 1), today)
    );
}

#[test]
fn an_empty_ledger_looks_back_one_year() {
    let today = d(2026, 6, 30);
    assert_eq!(net_worth_window(None, None, today, None, None), (d(2025, 6, 30), today));
    assert_eq!(
        net_worth_window(Some("not a date"), Some("2024-03-01"), today, Some("31/01/2020"), None),
        (d(2023, 3, 2), d(2024, 3, 1))
    );
}

#[test]
fn days_earlier_steps_back_across_months_and_years() {
    assert_eq!(d(2026, 3, 1).days_earlier(1), d(2026, 2, 28));
    assert_eq!(d(2024, 3, 1).days_earlier(1), d(2024, 2, 29));
    assert_eq!(d(2026, 1, 10).days_earlier(10), d(2025, 12, 31));
    assert_eq!(d(2026, 6, 30).days_earlier(365), d(2025, 6, 30));
    assert_eq!(d(2026, 6, 30).days_earlier(0), d(2026, 6, 30));
}
