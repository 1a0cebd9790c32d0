use sure::income::{IncomeBasis, PayFrequency, PayStep, TakeHome, TakeHomeSource, TaxScaleId};

#[test]
fn income_every_enum_round_trips_through_its_stored_text() {
    for f in [
        PayFrequency::Weekly,
        PayFrequency::Fortnightly,
        PayFrequency::FourWeekly,
        PayFrequency::Monthly,
        PayFrequency::Quarterly,
        PayFrequency::Annual,
    ] {
        assert_eq!(PayFrequency::from_str(f.as_str()), Ok(f));
    }
    for b in [IncomeBasis::Net, IncomeBasis::GrossNzPaye] {
        assert_eq!(IncomeBasis::from_str(b.as_str()), Ok(b));
    }
    assert!(PayFrequency::from_str("biweekly").is_err());
    assert!(IncomeBasis::from_str("gross").is_err());
}

#[test]
fn a_basis_knows_whether_a_scale_applies() {
    assert_eq!(IncomeBasis::Net.tax_scale(), None);
    assert_eq!(IncomeBasis::GrossNzPaye.tax_scale(), Some(TaxScaleId::NzPaye));
    assert!(!IncomeBasis::Net.is_gross());
    assert!(IncomeBasis::GrossNzPaye.is_gross());
}

#[test]
fn frequencies_step_the_way_payroll_does() {
    assert_eq!(PayFrequency::FourWeekly.step(), PayStep::Days(28));
    assert_eq!(PayFrequency::Quarterly.step(), PayStep::Months(3));
    assert_eq!(PayFrequency::Weekly.step(), PayStep::Days(7));
    assert_eq!(PayFrequency::Annual.step(), PayStep::Months(12));
    assert_eq!(
        PayFrequency::from_str("biweekly"),
        Err("unknown pay frequency 'biweekly'".to_string())
    );
}

#[test]
fn an_already_net_stream_keeps_all_of_it() {
    let th = TakeHome::all_of_it();
    assert_eq!(th.source, TakeHomeSource::AlreadyNet);
    assert_eq!(th.average_bps, 10_000);
    assert_eq!(th.marginal_bps, 10_000);
    assert_eq!(TakeHomeSource::Statutory.as_str(), "statutory");
}

#[test]
fn payroll_periods_per_year() {
    assert_eq!(PayFrequency::Weekly.periods_per_year(), 52);
    assert_eq!(PayFrequency::Fortnightly.periods_per_year(), 26);
    assert_eq!(PayFrequency::FourWeekly.periods_per_year(), 13);
    assert_eq!(PayFrequency::Monthly.periods_per_year(), 12);
    assert_eq!(PayFrequency::Quarterly.periods_per_year(), 4);
    assert_eq!(PayFrequency::Annual.periods_per_year(), 1);
}

#[test]
fn periods_per_year_are_payrolls_divisors_not_calendar_arithmetic() {
    assert_eq!(f64::from(PayFrequency::Fortnightly.periods_per_year()), 26.0);
    assert_eq!(f64::from(PayFrequency::FourWeekly.periods_per_year()), 13.0);
    // 13 x 28 = 364, which is where four-weekly's calendar drift comes from.
    assert_eq!(PayFrequency::FourWeekly.step(), PayStep::Days(28));
    assert_eq!(PayFrequency::Quarterly.step(), PayStep::Months(3));
}
