use sure::iso_date::IsoDate;
use sure::life_events::{
    effect_amounts_in_range, EffectColumns, EffectTarget, LifeEffectKind, LifeEffectSpec,
    LifeEventKind, RelationKind, SaveForecastEvent, StepAmount,
};

fn every_spec() -> Vec<LifeEffectSpec> {
    vec![
        LifeEffectSpec::IncomeStep {
            income_stream_id: 7,
            amount: StepAmount::Absolute { annual_amount_minor: 96_000_00 },
        },
        LifeEffectSpec::IncomeStep { income_stream_id: 7, amount: StepAmount::Percent { rate_bps: 1_200 } },
        LifeEffectSpec::IncomeStart { income_stream_id: 8 },
        LifeEffectSpec::IncomeEnd { income_stream_id: 8 },
        LifeEffectSpec::IncomePause { person_id: 3, months: 12, replacement_rate_bps: 6_000 },
        LifeEffectSpec::RecurringDelta {
            category_id: 11,
            amount_minor: 1_200_00,
            delay_months: 12,
            ramp_months: 3,
            duration_months: Some(48),
        },
        LifeEffectSpec::RecurringDelta {
            category_id: 11,
            amount_minor: 400_00,
            delay_months: 0,
            ramp_months: 0,
            duration_months: None,
        },
        LifeEffectSpec::SetBaseline { target: EffectTarget::Category { category_id: 4 }, amount_minor: 5_000_00 },
        LifeEffectSpec::SetBaseline { target: EffectTarget::Account { account_id: 2 }, amount_minor: 770_000_00 },
        LifeEffectSpec::OneOffAmount { target: EffectTarget::Account { account_id: 2 }, amount_minor: -3_000_00 },
        LifeEffectSpec::OneOffAmount { target: EffectTarget::Category { category_id: 4 }, amount_minor: 900_00 },
    ]
}

#[test]
fn every_effect_round_trips_through_its_columns() {
    for spec in every_spec() {
        let cols = spec.as_columns();
        let back = LifeEffectSpec::from_columns(spec.kind(), cols)
            .unwrap_or_else(|e| panic!("{spec:?} failed to round-trip: {e}"));
        assert_eq!(spec, back);
    }
}

#[test]
fn an_impossible_column_combination_is_an_error_not_a_coercion() {
    assert!(LifeEffectSpec::from_columns(
        LifeEffectKind::IncomeStep,
        EffectColumns { income_stream_id: Some(1), ..EffectColumns::default() }
    )
    .is_err());
    assert!(LifeEffectSpec::from_columns(
        LifeEffectKind::IncomeStep,
        EffectColumns {
            income_stream_id: Some(1),
            amount_minor: Some(1),
            rate_bps: Some(1),
            ..EffectColumns::default()
        }
    )
    .is_err());
    assert!(LifeEffectSpec::from_columns(
        LifeEffectKind::OneOffAmount,
        EffectColumns { amount_minor: Some(1), ..EffectColumns::default() }
    )
    .is_err());
    assert!(LifeEffectSpec::from_columns(
        LifeEffectKind::OneOffAmount,
        EffectColumns {
            amount_minor: Some(1),
            account_id: Some(1),
            category_id: Some(2),
            ..EffectColumns::default()
        }
    )
    .is_err());
    assert!(LifeEffectSpec::from_columns(
        LifeEffectKind::IncomePause,
        EffectColumns { person_id: Some(1), rate_bps: Some(0), ..EffectColumns::default() }
    )
    .is_err());
    let e = LifeEffectSpec::from_columns(LifeEffectKind::IncomePause, EffectColumns::default()).unwrap_err();
    assert!(e.contains("income_pause"), "{e}");
}

#[test]
fn life_events_every_enum_round_trips_through_its_stored_text() {
    for k in [
        LifeEventKind::Promotion,
        LifeEventKind::Child,
        LifeEventKind::CareerBreak,
        LifeEventKind::JobStart,
        LifeEventKind::JobEnd,
        LifeEventKind::Adjustment,
        LifeEventKind::Custom,
    ] {
        assert_eq!(LifeEventKind::from_str(k.as_str()), Ok(k));
    }
    for k in [
        LifeEffectKind::IncomeStep,
        LifeEffectKind::IncomeStart,
        LifeEffectKind::IncomeEnd,
        LifeEffectKind::IncomePause,
        LifeEffectKind::RecurringDelta,
        LifeEffectKind::SetBaseline,
        LifeEffectKind::OneOffAmount,
    ] {
        assert_eq!(LifeEffectKind::from_str(k.as_str()), Ok(k));
    }
    for k in [RelationKind::After, RelationKind::OnlyIf] {
        assert_eq!(RelationKind::from_str(k.as_str()), Ok(k));
    }
    assert!(LifeEventKind::from_str("sabbatical").is_err());
}

fn save(probability_bps: i64, spread: i64, effects: Vec<LifeEffectSpec>) -> SaveForecastEvent {
    SaveForecastEvent {
        label: "First child".into(),
        kind: LifeEventKind::Child,
        person_id: None,
        expected_on: IsoDate::parse("2029-06-01").unwrap(),
        timing_spread_months: spread,
        probability_bps,
        notes: None,
        effects,
        relations: vec![],
    }
}

#[test]
fn validation_collects_every_problem_at_once() {
    let mut body = save(
        20_000,
        9_999,
        vec![LifeEffectSpec::IncomePause { person_id: 1, months: 0, replacement_rate_bps: 40_000 }],
    );
    body.label = "  ".into();
    let problems = body.validate().unwrap_err();
    let all = problems.join("; ");
    assert!(all.contains("label"), "{all}");
    assert!(all.contains("probability_bps"), "{all}");
    assert!(all.contains("timing_spread_months"), "{all}");
    assert!(all.contains("at least one month"), "{all}");
    assert!(all.contains("replacement_rate_bps"), "{all}");
}

#[test]
fn the_boundaries_of_probability_and_spread_are_allowed() {
    assert!(save(0, 0, vec![]).validate().is_ok());
    assert!(save(10_000, 600, vec![]).validate().is_ok());
}

#[test]
fn an_event_with_no_effects_is_legal() {
    assert!(save(8_000, 24, vec![]).validate().is_ok());
}

#[test]
fn a_pay_cut_past_minus_one_hundred_percent_is_refused() {
    let body = save(
        10_000,
        0,
        vec![LifeEffectSpec::IncomeStep { income_stream_id: 1, amount: StepAmount::Percent { rate_bps: -12_000 } }],
    );
    assert!(body.validate().is_err());
}

#[test]
fn an_out_of_range_amount_is_refused_at_the_edge() {
    assert!(effect_amounts_in_range(&every_spec()).is_ok());
    assert!(effect_amounts_in_range(&[LifeEffectSpec::OneOffAmount {
        target: EffectTarget::Account { account_id: 1 },
        amount_minor: i64::MAX,
    }])
    .is_err());
}

#[test]
fn each_problem_is_worded_exactly_and_in_order() {
    let mut body = save(
        -1,
        601,
        vec![
            LifeEffectSpec::IncomeStart { income_stream_id: 1 },
            LifeEffectSpec::RecurringDelta {
                category_id: 1,
                amount_minor: 1,
                delay_months: -1,
                ramp_months: 0,
                duration_months: Some(0),
            },
        ],
    );
    body.label = "".into();
    assert_eq!(
        body.validate().unwrap_err(),
        vec![
            "label must not be empty".to_string(),
            "probability_bps must be between 0 and 10000, got -1".to_string(),
            "timing_spread_months must be between 0 and 600, got 601".to_string(),
            "effect 1: delay and ramp cannot be negative".to_string(),
            "effect 1: a duration must be at least one month".to_string(),
        ]
    );
}

#[test]
fn every_out_of_range_amount_is_named() {
    let r = effect_amounts_in_range(&[
        LifeEffectSpec::SetBaseline { target: EffectTarget::Category { category_id: 1 }, amount_minor: -100_000_000_000_001 },
        LifeEffectSpec::IncomeStep { income_stream_id: 1, amount: StepAmount::Percent { rate_bps: i64::MAX } },
        LifeEffectSpec::IncomeStep { income_stream_id: 1, amount: StepAmount::Absolute { annual_amount_minor: i64::MIN } },
    ]);
    assert_eq!(
        r.unwrap_err(),
        vec![
            "amount -100000000000001 is out of range".to_string(),
            "amount -9223372036854775808 is out of range".to_string(),
        ]
    );
}

#[test]
fn a_missing_column_is_named_with_its_kind() {
    assert_eq!(
        LifeEffectSpec::from_columns(LifeEffectKind::RecurringDelta, EffectColumns {
            category_id: Some(1),
            amount_minor: Some(2),
            ..EffectColumns::default()
        }),
        Err("recurring_delta effect is missing delay_months".to_string())
    );
    assert_eq!(
        LifeEffectSpec::from_columns(LifeEffectKind::SetBaseline, EffectColumns::default()),
        Err("set_baseline effect targets nothing".to_string())
    );
    assert_eq!(
        LifeEventKind::from_str("sabbatical"),
        Err("unknown forecast event kind 'sabbatical'".to_string())
    );
}
