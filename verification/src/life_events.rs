//! Forecast events: what might happen, how likely, roughly when, and what it does.
//!
//! One model for both the certainties the forecast has always had ("my bonus lands in March",
//! `kind = Adjustment` with 100% probability and no spread) and the probabilistic ones ("a
//! child, some time around 2029, 80% likely").
//!
//! An effect is stored as a kind plus nine nullable columns. [`LifeEffectSpec::as_columns`] and
//! [`LifeEffectSpec::from_columns`] are the one mapping each way, and
//! [`lemma_effect_columns_round_trip`] proves that no effect can be stored and read back as a
//! different thing.

use vstd::prelude::*;

use crate::money::{in_money_range, Money};
use crate::iso_date::IsoDate;
use crate::text::{
    append_decimal, append_nat_decimal, int_decimal, join2, str_eq, texts, trim, trimmed,
};

verus! {

/// What sort of event this is, for presentation and for choosing a form template.
///
/// The simulation never branches on this; it branches on the event's effects.
#[derive(Debug, Clone, Copy, PartialEq, Eq, Structural)]
pub enum LifeEventKind {
    Promotion,
    Child,
    CareerBreak,
    JobStart,
    JobEnd,
    /// A dated, exact change.
    Adjustment,
    Custom,
}

impl LifeEventKind {
    /// The stored text of each kind.
    pub open spec fn text(self) -> Seq<char> {
        match self {
            LifeEventKind::Promotion => "promotion"@,
            LifeEventKind::Child => "child"@,
            LifeEventKind::CareerBreak => "career_break"@,
            LifeEventKind::JobStart => "job_start"@,
            LifeEventKind::JobEnd => "job_end"@,
            LifeEventKind::Adjustment => "adjustment"@,
            LifeEventKind::Custom => "custom"@,
        }
    }

    /// The kind whose stored text is `s`, if any.
    pub open spec fn parse_text(s: Seq<char>) -> Option<LifeEventKind> {
        if s == "promotion"@ {
            Some(LifeEventKind::Promotion)
        } else if s == "child"@ {
            Some(LifeEventKind::Child)
        } else if s == "career_break"@ {
            Some(LifeEventKind::CareerBreak)
        } else if s == "job_start"@ {
            Some(LifeEventKind::JobStart)
        } else if s == "job_end"@ {
            Some(LifeEventKind::JobEnd)
        } else if s == "adjustment"@ {
            Some(LifeEventKind::Adjustment)
        } else if s == "custom"@ {
            Some(LifeEventKind::Custom)
        } else {
            None
        }
    }

    pub fn as_str(self) -> (r: &'static str)
        ensures
            r@ == self.text(),
    {
        match self {
            LifeEventKind::Promotion => "promotion",
            LifeEventKind::Child => "child",
            LifeEventKind::CareerBreak => "career_break",
            LifeEventKind::JobStart => "job_start",
            LifeEventKind::JobEnd => "job_end",
            LifeEventKind::Adjustment => "adjustment",
            LifeEventKind::Custom => "custom",
        }
    }

    /// Read a stored kind back. Unknown text is an error that quotes it.
    pub fn from_str(s: &str) -> (r: Result<LifeEventKind, String>)
        ensures
            match Self::parse_text(s@) {
                Some(k) => r == Ok::<LifeEventKind, String>(k),
                None => r matches Err(m) && m@ == "unknown forecast event kind '"@ + s@ + "'"@,
            },
    {
        if str_eq(s, "promotion") {
            Ok(LifeEventKind::Promotion)
        } else if str_eq(s, "child") {
            Ok(LifeEventKind::Child)
        } else if str_eq(s, "career_break") {
            Ok(LifeEventKind::CareerBreak)
        } else if str_eq(s, "job_start") {
            Ok(LifeEventKind::JobStart)
        } else if str_eq(s, "job_end") {
            Ok(LifeEventKind::JobEnd)
        } else if str_eq(s, "adjustment") {
            Ok(LifeEventKind::Adjustment)
        } else if str_eq(s, "custom") {
            Ok(LifeEventKind::Custom)
        } else {
            let mut m = join2("unknown forecast event kind '", s);
            m.append("'");
            Err(m)
        }
    }
}

/// Every event kind reads back from its stored text as itself.
pub proof fn lemma_life_event_kind_round_trip(k: LifeEventKind)
    ensures
        LifeEventKind::parse_text(k.text()) == Some(k),
{
    reveal_strlit("promotion");
    reveal_strlit("child");
    reveal_strlit("career_break");
    reveal_strlit("job_start");
    reveal_strlit("job_end");
    reveal_strlit("adjustment");
    reveal_strlit("custom");
    assert("promotion"@.len() == 9);
    assert("child"@.len() == 5);
    assert("career_break"@.len() == 12);
    assert("job_start"@.len() == 9);
    assert("job_end"@.len() == 7);
    assert("adjustment"@.len() == 10);
    assert("custom"@.len() == 6);
    assert("job_start"@[0] == 'j');
    assert("promotion"@[0] == 'p');
}

/// The discriminant of a stored effect row. Text only at the column edge.
#[derive(Debug, Clone, Copy, PartialEq, Eq, Structural)]
pub enum LifeEffectKind {
    IncomeStep,
    IncomeStart,
    IncomeEnd,
    IncomePause,
    RecurringDelta,
    SetBaseline,
    OneOffAmount,
}

impl LifeEffectKind {
    /// The stored text of each kind.
    pub open spec fn text(self) -> Seq<char> {
        match self {
            LifeEffectKind::IncomeStep => "income_step"@,
            LifeEffectKind::IncomeStart => "income_start"@,
            LifeEffectKind::IncomeEnd => "income_end"@,
            LifeEffectKind::IncomePause => "income_pause"@,
            LifeEffectKind::RecurringDelta => "recurring_delta"@,
            LifeEffectKind::SetBaseline => "set_baseline"@,
            LifeEffectKind::OneOffAmount => "one_off_amount"@,
        }
    }

    /// The kind whose stored text is `s`, if any.
    pub open spec fn parse_text(s: Seq<char>) -> Option<LifeEffectKind> {
        if s == "income_step"@ {
            Some(LifeEffectKind::IncomeStep)
        } else if s == "income_start"@ {
            Some(LifeEffectKind::IncomeStart)
        } else if s == "income_end"@ {
            Some(LifeEffectKind::IncomeEnd)
        } else if s == "income_pause"@ {
            Some(LifeEffectKind::IncomePause)
        } else if s == "recurring_delta"@ {
            Some(LifeEffectKind::RecurringDelta)
        } else if s == "set_baseline"@ {
            Some(LifeEffectKind::SetBaseline)
        } else if s == "one_off_amount"@ {
            Some(LifeEffectKind::OneOffAmount)
        } else {
            None
        }
    }

    pub fn as_str(self) -> (r: &'static str)
        ensures
            r@ == self.text(),
    {
        match self {
            LifeEffectKind::IncomeStep => "income_step",
            LifeEffectKind::IncomeStart => "income_start",
            LifeEffectKind::IncomeEnd => "income_end",
            LifeEffectKind::IncomePause => "income_pause",
            LifeEffectKind::RecurringDelta => "recurring_delta",
            LifeEffectKind::SetBaseline => "set_baseline",
            LifeEffectKind::OneOffAmount => "one_off_amount",
        }
    }

    /// Read a stored kind back. Unknown text is an error that quotes it.
    pub fn from_str(s: &str) -> (r: Result<LifeEffectKind, String>)
        ensures
            match Self::parse_text(s@) {
                Some(k) => r == Ok::<LifeEffectKind, String>(k),
                None => r matches Err(m) && m@ == "unknown forecast effect kind '"@ + s@ + "'"@,
            },
    {
        if str_eq(s, "income_step") {
            Ok(LifeEffectKind::IncomeStep)
        } else if str_eq(s, "income_start") {
            Ok(LifeEffectKind::IncomeStart)
        } else if str_eq(s, "income_end") {
            Ok(LifeEffectKind::IncomeEnd)
        } else if str_eq(s, "income_pause") {
            Ok(LifeEffectKind::IncomePause)
        } else if str_eq(s, "recurring_delta") {
            Ok(LifeEffectKind::RecurringDelta)
        } else if str_eq(s, "set_baseline") {
            Ok(LifeEffectKind::SetBaseline)
        } else if str_eq(s, "one_off_amount") {
            Ok(LifeEffectKind::OneOffAmount)
        } else {
            let mut m = join2("unknown forecast effect kind '", s);
            m.append("'");
            Err(m)
        }
    }
}

/// Every effect kind reads back from its stored text as itself.
pub proof fn lemma_life_effect_kind_round_trip(k: LifeEffectKind)
    ensures
        LifeEffectKind::parse_text(k.text()) == Some(k),
{
    reveal_strlit("income_step");
    reveal_strlit("income_start");
    reveal_strlit("income_end");
    reveal_strlit("income_pause");
    reveal_strlit("recurring_delta");
    reveal_strlit("set_baseline");
    reveal_strlit("one_off_amount");
    assert("income_step"@.len() == 11);
    assert("income_start"@.len() == 12);
    assert("income_end"@.len() == 10);
    assert("income_pause"@.len() == 12);
    assert("recurring_delta"@.len() == 15);
    assert("set_baseline"@.len() == 12);
    assert("one_off_amount"@.len() == 14);
    assert("income_pause"@[0] == 'i');
    assert("income_pause"@[7] == 'p');
    assert("income_start"@[0] == 'i');
    assert("income_start"@[7] == 's');
    assert("set_baseline"@[0] == 's');
}

/// How a promotion moves a stream's level: by an absolute annual figure or by a rate.
#[derive(Debug, Clone, Copy, PartialEq, Eq, Structural)]
pub enum StepAmount {
    Absolute { annual_amount_minor: i64 },
    Percent { rate_bps: i64 },
}

/// What a baseline change or a one-off lands on.
#[derive(Debug, Clone, Copy, PartialEq, Eq, Structural)]
pub enum EffectTarget {
    Account { account_id: i64 },
    Category { category_id: i64 },
}

/// One thing an event does. An event has any number of them.
#[derive(Debug, Clone, Copy, PartialEq, Eq, Structural)]
pub enum LifeEffectSpec {
    /// A promotion.
    IncomeStep { income_stream_id: i64, amount: StepAmount },
    /// A job begins: the stream pays from the sampled month.
    IncomeStart { income_stream_id: i64 },
    /// A job ends: the stream stops paying from the sampled month.
    IncomeEnd { income_stream_id: i64 },
    /// A career break: pauses every stream this person has for `months`, paying
    /// `replacement_rate_bps` of normal meanwhile.
    IncomePause { person_id: i64, months: i64, replacement_rate_bps: i64 },
    /// An ongoing cost that starts `delay_months` after the event, ramps linearly to full over
    /// `ramp_months`, and optionally stops after `duration_months`.
    RecurringDelta {
        category_id: i64,
        amount_minor: i64,
        delay_months: i64,
        ramp_months: i64,
        duration_months: Option<i64>,
    },
    /// Replace an account's value or a category's monthly baseline from this month on.
    SetBaseline { target: EffectTarget, amount_minor: i64 },
    /// A single-month delta: a bonus, a pram, moving costs.
    OneOffAmount { target: EffectTarget, amount_minor: i64 },
}

/// The nine nullable columns an effect row carries.
#[derive(Debug, Clone, Copy, PartialEq, Eq, Structural)]
pub struct EffectColumns {
    pub income_stream_id: Option<i64>,
    pub person_id: Option<i64>,
    pub category_id: Option<i64>,
    pub account_id: Option<i64>,
    pub amount_minor: Option<i64>,
    pub rate_bps: Option<i64>,
    pub delay_months: Option<i64>,
    pub ramp_months: Option<i64>,
    pub duration_months: Option<i64>,
}

/// A row with every column null.
pub open spec fn empty_columns() -> EffectColumns {
    EffectColumns {
        income_stream_id: None,
        person_id: None,
        category_id: None,
        account_id: None,
        amount_minor: None,
        rate_bps: None,
        delay_months: None,
        ramp_months: None,
        duration_months: None,
    }
}

impl Default for EffectColumns {
    fn default() -> (c: EffectColumns)
        ensures
            c == empty_columns(),
    {
        EffectColumns {
            income_stream_id: None,
            person_id: None,
            category_id: None,
            account_id: None,
            amount_minor: None,
            rate_bps: None,
            delay_months: None,
            ramp_months: None,
            duration_months: None,
        }
    }
}

/// The `(account_id, category_id)` columns of a target.
pub open spec fn target_columns(t: EffectTarget) -> (Option<i64>, Option<i64>) {
    match t {
        EffectTarget::Account { account_id } => (Some(account_id), None),
        EffectTarget::Category { category_id } => (None, Some(category_id)),
    }
}

impl LifeEffectSpec {
    /// The discriminant of each effect.
    pub open spec fn kind_of(self) -> LifeEffectKind {
        match self {
            LifeEffectSpec::IncomeStep { .. } => LifeEffectKind::IncomeStep,
            LifeEffectSpec::IncomeStart { .. } => LifeEffectKind::IncomeStart,
            LifeEffectSpec::IncomeEnd { .. } => LifeEffectKind::IncomeEnd,
            LifeEffectSpec::IncomePause { .. } => LifeEffectKind::IncomePause,
            LifeEffectSpec::RecurringDelta { .. } => LifeEffectKind::RecurringDelta,
            LifeEffectSpec::SetBaseline { .. } => LifeEffectKind::SetBaseline,
            LifeEffectSpec::OneOffAmount { .. } => LifeEffectKind::OneOffAmount,
        }
    }

    /// The columns an effect is stored in: each field in its own column, every other column
    /// null.
    pub open spec fn columns(self) -> EffectColumns {
        match self {
            LifeEffectSpec::IncomeStep { income_stream_id, amount } => match amount {
                StepAmount::Absolute { annual_amount_minor } => EffectColumns {
                    income_stream_id: Some(income_stream_id),
                    amount_minor: Some(annual_amount_minor),
                    ..empty_columns()
                },
                StepAmount::Percent { rate_bps } => EffectColumns {
                    income_stream_id: Some(income_stream_id),
                    rate_bps: Some(rate_bps),
                    ..empty_columns()
                },
            },
            LifeEffectSpec::IncomeStart { income_stream_id } => EffectColumns {
                income_stream_id: Some(income_stream_id),
                ..empty_columns()
            },
            LifeEffectSpec::IncomeEnd { income_stream_id } => EffectColumns {
                income_stream_id: Some(income_stream_id),
                ..empty_columns()
            },
            LifeEffectSpec::IncomePause { person_id, months, replacement_rate_bps } => EffectColumns {
                person_id: Some(person_id),
                duration_months: Some(months),
                rate_bps: Some(replacement_rate_bps),
                ..empty_columns()
            },
            LifeEffectSpec::RecurringDelta {
                category_id,
                amount_minor,
                delay_months,
                ramp_months,
                duration_months,
            } => EffectColumns {
                category_id: Some(category_id),
                amount_minor: Some(amount_minor),
                delay_months: Some(delay_months),
                ramp_months: Some(ramp_months),
                duration_months,
                ..empty_columns()
            },
            LifeEffectSpec::SetBaseline { target, amount_minor } => EffectColumns {
                account_id: target_columns(target).0,
                category_id: target_columns(target).1,
                amount_minor: Some(amount_minor),
                ..empty_columns()
            },
            LifeEffectSpec::OneOffAmount { target, amount_minor } => EffectColumns {
                account_id: target_columns(target).0,
                category_id: target_columns(target).1,
                amount_minor: Some(amount_minor),
                ..empty_columns()
            },
        }
    }

    pub fn kind(self) -> (k: LifeEffectKind)
        ensures
            k == self.kind_of(),
    {
        match self {
            LifeEffectSpec::IncomeStep { .. } => LifeEffectKind::IncomeStep,
            LifeEffectSpec::IncomeStart { .. } => LifeEffectKind::IncomeStart,
            LifeEffectSpec::IncomeEnd { .. } => LifeEffectKind::IncomeEnd,
            LifeEffectSpec::IncomePause { .. } => LifeEffectKind::IncomePause,
            LifeEffectSpec::RecurringDelta { .. } => LifeEffectKind::RecurringDelta,
            LifeEffectSpec::SetBaseline { .. } => LifeEffectKind::SetBaseline,
            LifeEffectSpec::OneOffAmount { .. } => LifeEffectKind::OneOffAmount,
        }
    }

    /// The columns to bind. The only place these values become columns.
    pub fn as_columns(self) -> (c: EffectColumns)
        ensures
            c == self.columns(),
    {
        let none = EffectColumns::default();
        match self {
            LifeEffectSpec::IncomeStep { income_stream_id, amount } => {
                let (amount_minor, rate_bps) = match amount {
                    StepAmount::Absolute { annual_amount_minor } => (
                        Some(annual_amount_minor),
                        None,
                    ),
                    StepAmount::Percent { rate_bps } => (None, Some(rate_bps)),
                };
                EffectColumns {
                    income_stream_id: Some(income_stream_id),
                    amount_minor,
                    rate_bps,
                    ..none
                }
            },
            LifeEffectSpec::IncomeStart { income_stream_id }
            | LifeEffectSpec::IncomeEnd { income_stream_id } => EffectColumns {
                income_stream_id: Some(income_stream_id),
                ..none
            },
            LifeEffectSpec::IncomePause { person_id, months, replacement_rate_bps } => EffectColumns {
                person_id: Some(person_id),
                duration_months: Some(months),
                rate_bps: Some(replacement_rate_bps),
                ..none
            },
            LifeEffectSpec::RecurringDelta {
                category_id,
                amount_minor,
                delay_months,
                ramp_months,
                duration_months,
            } => EffectColumns {
                category_id: Some(category_id),
                amount_minor: Some(amount_minor),
                delay_months: Some(delay_months),
                ramp_months: Some(ramp_months),
                duration_months,
                ..none
            },
            LifeEffectSpec::SetBaseline { target, amount_minor }
            | LifeEffectSpec::OneOffAmount { target, amount_minor } => {
                let (account_id, category_id) = match target {
                    EffectTarget::Account { account_id } => (Some(account_id), None),
                    EffectTarget::Category { category_id } => (None, Some(category_id)),
                };
                EffectColumns { account_id, category_id, amount_minor: Some(amount_minor), ..none }
            },
        }
    }

    /// Rebuild from the stored columns.
    ///
    /// Every combination this refuses is one the schema already makes impossible, so an `Err`
    /// means the row was written by something that went around every writer; it is reported,
    /// naming the kind, never coerced into whichever variant looks closest.
    pub fn from_columns(kind: LifeEffectKind, c: EffectColumns) -> (r: Result<
        LifeEffectSpec,
        String,
    >)
        ensures
            match decode_effect(kind, c) {
                Ok(spec) => r == Ok::<LifeEffectSpec, String>(spec),
                Err(msg) => r matches Err(m) && m@ == msg,
            },
    {
        match kind {
            LifeEffectKind::IncomeStep => {
                let income_stream_id = match want(kind, c.income_stream_id, "income_stream_id") {
                    Ok(v) => v,
                    Err(e) => return Err(e),
                };
                let amount = match (c.amount_minor, c.rate_bps) {
                    (Some(annual_amount_minor), None) => StepAmount::Absolute {
                        annual_amount_minor,
                    },
                    (None, Some(rate_bps)) => StepAmount::Percent { rate_bps },
                    (Some(_), Some(_)) => {
                        return Err(
                            String::from_str(
                                "income_step has both an absolute amount and a percentage",
                            ),
                        );
                    },
                    (None, None) => {
                        return Err(
                            String::from_str("income_step has neither an amount nor a rate"),
                        );
                    },
                };
                Ok(LifeEffectSpec::IncomeStep { income_stream_id, amount })
            },
            LifeEffectKind::IncomeStart => match want(
                kind,
                c.income_stream_id,
                "income_stream_id",
            ) {
                Ok(income_stream_id) => Ok(LifeEffectSpec::IncomeStart { income_stream_id }),
                Err(e) => Err(e),
            },
            LifeEffectKind::IncomeEnd => match want(kind, c.income_stream_id, "income_stream_id") {
                Ok(income_stream_id) => Ok(LifeEffectSpec::IncomeEnd { income_stream_id }),
                Err(e) => Err(e),
            },
            LifeEffectKind::IncomePause => {
                let person_id = match want(kind, c.person_id, "person_id") {
                    Ok(v) => v,
                    Err(e) => return Err(e),
                };
                let months = match want(kind, c.duration_months, "duration_months") {
                    Ok(v) => v,
                    Err(e) => return Err(e),
                };
                let replacement_rate_bps = match want(kind, c.rate_bps, "rate_bps") {
                    Ok(v) => v,
                    Err(e) => return Err(e),
                };
                Ok(LifeEffectSpec::IncomePause { person_id, months, replacement_rate_bps })
            },
            LifeEffectKind::RecurringDelta => {
                let category_id = match want(kind, c.category_id, "category_id") {
                    Ok(v) => v,
                    Err(e) => return Err(e),
                };
                let amount_minor = match want(kind, c.amount_minor, "amount_minor") {
                    Ok(v) => v,
                    Err(e) => return Err(e),
                };
                let delay_months = match want(kind, c.delay_months, "delay_months") {
                    Ok(v) => v,
                    Err(e) => return Err(e),
                };
                let ramp_months = match want(kind, c.ramp_months, "ramp_months") {
                    Ok(v) => v,
                    Err(e) => return Err(e),
                };
                Ok(
                    LifeEffectSpec::RecurringDelta {
                        category_id,
                        amount_minor,
                        delay_months,
                        ramp_months,
                        duration_months: c.duration_months,
                    },
                )
            },
            LifeEffectKind::SetBaseline => {
                let target = match target_of(kind, &c) {
                    Ok(t) => t,
                    Err(e) => return Err(e),
                };
                let amount_minor = match want(kind, c.amount_minor, "amount_minor") {
                    Ok(v) => v,
                    Err(e) => return Err(e),
                };
                Ok(LifeEffectSpec::SetBaseline { target, amount_minor })
            },
            LifeEffectKind::OneOffAmount => {
                let target = match target_of(kind, &c) {
                    Ok(t) => t,
                    Err(e) => return Err(e),
                };
                let amount_minor = match want(kind, c.amount_minor, "amount_minor") {
                    Ok(v) => v,
                    Err(e) => return Err(e),
                };
                Ok(LifeEffectSpec::OneOffAmount { target, amount_minor })
            },
        }
    }
}

/// The refusal for a required column that is null.
pub open spec fn missing_message(kind: LifeEffectKind, field: Seq<char>) -> Seq<char> {
    kind.text() + " effect is missing "@ + field
}

/// A required column's value, or the refusal naming it.
pub open spec fn want_column(kind: LifeEffectKind, v: Option<i64>, field: Seq<char>) -> Result<
    i64,
    Seq<char>,
> {
    match v {
        Some(x) => Ok(x),
        None => Err(missing_message(kind, field)),
    }
}

/// The target of a baseline or one-off row: exactly one of the account and category columns.
pub open spec fn decode_target(kind: LifeEffectKind, c: EffectColumns) -> Result<
    EffectTarget,
    Seq<char>,
> {
    match (c.account_id, c.category_id) {
        (Some(account_id), None) => Ok(EffectTarget::Account { account_id }),
        (None, Some(category_id)) => Ok(EffectTarget::Category { category_id }),
        (Some(_), Some(_)) => Err(kind.text() + " effect targets both an account and a category"@),
        (None, None) => Err(kind.text() + " effect targets nothing"@),
    }
}

/// The effect a stored row holds, or the refusal. Required columns are checked in the order
/// the effect's fields are listed; the first one missing is the one named.
pub open spec fn decode_effect(kind: LifeEffectKind, c: EffectColumns) -> Result<
    LifeEffectSpec,
    Seq<char>,
> {
    match kind {
        LifeEffectKind::IncomeStep => match want_column(
            kind,
            c.income_stream_id,
            "income_stream_id"@,
        ) {
            Err(e) => Err(e),
            Ok(income_stream_id) => match (c.amount_minor, c.rate_bps) {
                (Some(a), None) => Ok(
                    LifeEffectSpec::IncomeStep {
                        income_stream_id,
                        amount: StepAmount::Absolute { annual_amount_minor: a },
                    },
                ),
                (None, Some(r)) => Ok(
                    LifeEffectSpec::IncomeStep {
                        income_stream_id,
                        amount: StepAmount::Percent { rate_bps: r },
                    },
                ),
                (Some(_), Some(_)) => Err(
                    "income_step has both an absolute amount and a percentage"@,
                ),
                (None, None) => Err("income_step has neither an amount nor a rate"@),
            },
        },
        LifeEffectKind::IncomeStart => match want_column(
            kind,
            c.income_stream_id,
            "income_stream_id"@,
        ) {
            Err(e) => Err(e),
            Ok(id) => Ok(LifeEffectSpec::IncomeStart { income_stream_id: id }),
        },
        LifeEffectKind::IncomeEnd => match want_column(
            kind,
            c.income_stream_id,
            "income_stream_id"@,
        ) {
            Err(e) => Err(e),
            Ok(id) => Ok(LifeEffectSpec::IncomeEnd { income_stream_id: id }),
        },
        LifeEffectKind::IncomePause => match want_column(kind, c.person_id, "person_id"@) {
            Err(e) => Err(e),
            Ok(person_id) => match want_column(kind, c.duration_months, "duration_months"@) {
                Err(e) => Err(e),
                Ok(months) => match want_column(kind, c.rate_bps, "rate_bps"@) {
                    Err(e) => Err(e),
                    Ok(rate) => Ok(
                        LifeEffectSpec::IncomePause {
                            person_id,
                            months,
                            replacement_rate_bps: rate,
                        },
                    ),
                },
            },
        },
        LifeEffectKind::RecurringDelta => match want_column(kind, c.category_id, "category_id"@) {
            Err(e) => Err(e),
            Ok(category_id) => match want_column(kind, c.amount_minor, "amount_minor"@) {
                Err(e) => Err(e),
                Ok(amount_minor) => match want_column(kind, c.delay_months, "delay_months"@) {
                    Err(e) => Err(e),
                    Ok(delay_months) => match want_column(kind, c.ramp_months, "ramp_months"@) {
                        Err(e) => Err(e),
                        Ok(ramp_months) => Ok(
                            LifeEffectSpec::RecurringDelta {
                                category_id,
                                amount_minor,
                                delay_months,
                                ramp_months,
                                duration_months: c.duration_months,
                            },
                        ),
                    },
                },
            },
        },
        LifeEffectKind::SetBaseline => match decode_target(kind, c) {
            Err(e) => Err(e),
            Ok(target) => match want_column(kind, c.amount_minor, "amount_minor"@) {
                Err(e) => Err(e),
                Ok(amount_minor) => Ok(LifeEffectSpec::SetBaseline { target, amount_minor }),
            },
        },
        LifeEffectKind::OneOffAmount => match decode_target(kind, c) {
            Err(e) => Err(e),
            Ok(target) => match want_column(kind, c.amount_minor, "amount_minor"@) {
                Err(e) => Err(e),
                Ok(amount_minor) => Ok(LifeEffectSpec::OneOffAmount { target, amount_minor }),
            },
        },
    }
}

fn want(kind: LifeEffectKind, v: Option<i64>, field: &str) -> (r: Result<i64, String>)
    ensures
        match want_column(kind, v, field@) {
            Ok(x) => r == Ok::<i64, String>(x),
            Err(msg) => r matches Err(m) && m@ == msg,
        },
{
    match v {
        Some(x) => Ok(x),
        None => {
            let mut m = join2(kind.as_str(), " effect is missing ");
            m.append(field);
            Err(m)
        },
    }
}

fn target_of(kind: LifeEffectKind, c: &EffectColumns) -> (r: Result<EffectTarget, String>)
    ensures
        match decode_target(kind, *c) {
            Ok(t) => r == Ok::<EffectTarget, String>(t),
            Err(msg) => r matches Err(m) && m@ == msg,
        },
{
    match (c.account_id, c.category_id) {
        (Some(account_id), None) => Ok(EffectTarget::Account { account_id }),
        (None, Some(category_id)) => Ok(EffectTarget::Category { category_id }),
        (Some(_), Some(_)) => Err(
            join2(kind.as_str(), " effect targets both an account and a category"),
        ),
        (None, None) => Err(join2(kind.as_str(), " effect targets nothing")),
    }
}

/// Storing an effect and reading it back gives the same effect, for every effect.
pub proof fn lemma_effect_columns_round_trip(spec: LifeEffectSpec)
    ensures
        decode_effect(spec.kind_of(), spec.columns()) == Ok::<LifeEffectSpec, Seq<char>>(spec),
{
}

/// Every refusal of a stored row begins with the stored text of its kind, so a corrupt row
/// can be found from the message alone.
pub proof fn lemma_effect_refusal_names_kind(kind: LifeEffectKind, c: EffectColumns)
    ensures
        decode_effect(kind, c) matches Err(m) ==> m.len() >= kind.text().len() && m.subrange(
            0,
            kind.text().len() as int,
        ) == kind.text(),
{
    reveal_strlit("income_step");
    reveal_strlit("income_step has both an absolute amount and a percentage");
    reveal_strlit("income_step has neither an amount nor a rate");
    if let Err(m) = decode_effect(kind, c) {
        let t = kind.text();
        assert(m.subrange(0, t.len() as int) =~= t);
    }
}

/// How one event constrains another.
#[derive(Debug, Clone, Copy, PartialEq, Eq, Structural)]
pub enum RelationKind {
    /// At least `min_gap_months` after the parent's sampled month, applied by clamping up.
    After,
    /// Only on paths where the parent occurred.
    OnlyIf,
}

impl RelationKind {
    /// The stored text of each kind.
    pub open spec fn text(self) -> Seq<char> {
        match self {
            RelationKind::After => "after"@,
            RelationKind::OnlyIf => "only_if"@,
        }
    }

    /// The kind whose stored text is `s`, if any.
    pub open spec fn parse_text(s: Seq<char>) -> Option<RelationKind> {
        if s == "after"@ {
            Some(RelationKind::After)
        } else if s == "only_if"@ {
            Some(RelationKind::OnlyIf)
        } else {
            None
        }
    }

    pub fn as_str(self) -> (r: &'static str)
        ensures
            r@ == self.text(),
    {
        match self {
            RelationKind::After => "after",
            RelationKind::OnlyIf => "only_if",
        }
    }

    /// Read a stored kind back. Unknown text is an error that quotes it.
    pub fn from_str(s: &str) -> (r: Result<RelationKind, String>)
        ensures
            match Self::parse_text(s@) {
                Some(k) => r == Ok::<RelationKind, String>(k),
                None => r matches Err(m) && m@ == "unknown forecast event relation kind '"@ + s@
                    + "'"@,
            },
    {
        if str_eq(s, "after") {
            Ok(RelationKind::After)
        } else if str_eq(s, "only_if") {
            Ok(RelationKind::OnlyIf)
        } else {
            let mut m = join2("unknown forecast event relation kind '", s);
            m.append("'");
            Err(m)
        }
    }
}

/// Every relation kind reads back from its stored text as itself.
pub proof fn lemma_relation_kind_round_trip(k: RelationKind)
    ensures
        RelationKind::parse_text(k.text()) == Some(k),
{
    reveal_strlit("after");
    reveal_strlit("only_if");
    assert("after"@.len() == 5);
    assert("only_if"@.len() == 7);
}

#[derive(Debug, Clone, Copy)]
pub struct ForecastEventRelation {
    pub id: i64,
    pub event_id: i64,
    pub depends_on_event_id: i64,
    pub kind: RelationKind,
    pub min_gap_months: i64,
}

#[derive(Debug, Clone, Copy)]
pub struct SaveForecastEventRelation {
    pub depends_on_event_id: i64,
    pub kind: RelationKind,
    pub min_gap_months: i64,
}

#[derive(Debug, Clone, Copy)]
pub struct ForecastEventEffect {
    pub id: i64,
    pub event_id: i64,
    pub sort_order: i64,
    pub spec: LifeEffectSpec,
}

#[derive(Debug, Clone)]
pub struct ForecastEvent {
    pub id: i64,
    pub label: String,
    pub kind: LifeEventKind,
    pub person_id: Option<i64>,
    pub expected_on: String,
    /// Half-width of a uniform hard window, in months. 0 = the date is certain.
    pub timing_spread_months: i64,
    pub probability_bps: i64,
    pub notes: Option<String>,
    pub effects: Vec<ForecastEventEffect>,
    pub relations: Vec<ForecastEventRelation>,
    pub created_at: String,
    pub updated_at: String,
}

/// Write body: a full replace, effects and relations included, validated as one.
#[derive(Debug)]
pub struct SaveForecastEvent {
    pub label: String,
    pub kind: LifeEventKind,
    pub person_id: Option<i64>,
    pub expected_on: IsoDate,
    pub timing_spread_months: i64,
    pub probability_bps: i64,
    pub notes: Option<String>,
    pub effects: Vec<LifeEffectSpec>,
    pub relations: Vec<SaveForecastEventRelation>,
}

/// The probability a body that says nothing about it asserts: a certainty.
pub fn certain() -> (p: i64)
    ensures
        p == 10_000,
{
    10_000
}

/// A problem found in effect `i`, prefixed with its position.
pub open spec fn at_effect(i: int, m: Seq<char>) -> Seq<char> {
    "effect "@ + int_decimal(i) + ": "@ + m
}

/// One item when `cond` holds, none otherwise.
pub open spec fn one_if(cond: bool, m: Seq<char>) -> Seq<Seq<char>> {
    if cond {
        seq![m]
    } else {
        Seq::empty()
    }
}

/// The problems with effect `i`: a pause that lasts no time or replaces an impossible share
/// of pay, a recurring cost with a negative delay or ramp or an empty duration, a pay change
/// below -100%.
pub open spec fn effect_problems(i: int, e: LifeEffectSpec) -> Seq<Seq<char>> {
    match e {
        LifeEffectSpec::IncomePause { months, replacement_rate_bps, .. } => one_if(
            months <= 0,
            at_effect(i, "a pause must last at least one month"@),
        ) + one_if(
            !(0 <= replacement_rate_bps <= 10_000),
            at_effect(
                i,
                "replacement_rate_bps must be between 0 and 10000, got "@ + int_decimal(
                    replacement_rate_bps as int,
                ),
            ),
        ),
        LifeEffectSpec::RecurringDelta { delay_months, ramp_months, duration_months, .. } => one_if(
            delay_months < 0 || ramp_months < 0,
            at_effect(i, "delay and ramp cannot be negative"@),
        ) + one_if(
            duration_months matches Some(d) && d <= 0,
            at_effect(i, "a duration must be at least one month"@),
        ),
        LifeEffectSpec::IncomeStep { amount, .. } => one_if(
            amount matches StepAmount::Percent { rate_bps } && rate_bps <= -10_000,
            at_effect(i, "a pay change below -100% is not a pay change — use a job ending"@),
        ),
        _ => Seq::empty(),
    }
}

/// The problems with the first `n` effects, in order.
pub open spec fn effects_problems(effects: Seq<LifeEffectSpec>, n: int) -> Seq<Seq<char>>
    decreases n,
{
    if n <= 0 {
        Seq::empty()
    } else {
        effects_problems(effects, n - 1) + effect_problems(n - 1, effects[n - 1])
    }
}

/// Every problem with a forecast event body, in the order they are reported: the label, the
/// probability, the timing spread, then each effect in turn.
pub open spec fn event_problems(e: SaveForecastEvent) -> Seq<Seq<char>> {
    one_if(trimmed(e.label@).len() == 0, "label must not be empty"@) + one_if(
        !(0 <= e.probability_bps <= 10_000),
        "probability_bps must be between 0 and 10000, got "@ + int_decimal(
            e.probability_bps as int,
        ),
    ) + one_if(
        !(0 <= e.timing_spread_months <= 600),
        "timing_spread_months must be between 0 and 600, got "@ + int_decimal(
            e.timing_spread_months as int,
        ),
    ) + effects_problems(e.effects@, e.effects@.len() as int)
}

/// An effect is accepted exactly when it is one the forecast can run: a pause lasts at least
/// a month and replaces between 0 and 10000 basis points of pay; a recurring cost has no
/// negative delay or ramp and, if it ends, lasts at least a month; a pay change by a
/// percentage is above -100% (a cut of 100% or more is a job ending); every other effect is
/// always accepted. A pay change of -100% or below is refused with exactly one problem,
/// naming the effect's position.
pub proof fn lemma_effect_accepted_exactly_when_sound(i: int, e: LifeEffectSpec)
    ensures
        effect_problems(i, e).len() == 0 <==> (match e {
            LifeEffectSpec::IncomePause { months, replacement_rate_bps, .. } => months > 0 && 0
                <= replacement_rate_bps <= 10_000,
            LifeEffectSpec::RecurringDelta { delay_months, ramp_months, duration_months, .. } =>
                delay_months >= 0 && ramp_months >= 0 && !(duration_months matches Some(d) && d <= 0),
            LifeEffectSpec::IncomeStep { amount, .. } => !(amount matches StepAmount::Percent {
                rate_bps,
            } && rate_bps <= -10_000),
            _ => true,
        }),
        (e matches LifeEffectSpec::IncomeStep { amount, .. } && amount matches StepAmount::Percent {
            rate_bps,
        } && rate_bps <= -10_000) ==> effect_problems(i, e) == seq![
            at_effect(i, "a pay change below -100% is not a pay change — use a job ending"@),
        ],
{
}

proof fn lemma_effects_accepted(effects: Seq<LifeEffectSpec>, n: int)
    requires
        0 <= n <= effects.len(),
    ensures
        effects_problems(effects, n).len() == 0 <==> forall|i: int|
            0 <= i < n ==> (#[trigger] effect_problems(i, effects[i])).len() == 0,
    decreases n,
{
    if n > 0 {
        lemma_effects_accepted(effects, n - 1);
    }
}

/// A forecast event is accepted exactly when its label is not blank, its probability is
/// between 0 and 10000 basis points, its timing spread between 0 and 600 months, and each
/// effect is one the forecast can run (see [`lemma_effect_accepted_exactly_when_sound`]):
/// a pay cut short of 100% among them is no problem, and one of 100% or more always is.
pub proof fn lemma_event_accepted_exactly_when_sound(e: SaveForecastEvent)
    ensures
        event_problems(e).len() == 0 <==> (trimmed(e.label@).len() > 0 && 0 <= e.probability_bps
            <= 10_000 && 0 <= e.timing_spread_months <= 600 && forall|i: int|
            0 <= i < e.effects@.len() ==> (match #[trigger] e.effects@[i] {
                LifeEffectSpec::IncomePause { months, replacement_rate_bps, .. } => months > 0 && 0
                    <= replacement_rate_bps <= 10_000,
                LifeEffectSpec::RecurringDelta { delay_months, ramp_months, duration_months, .. } =>
                    delay_months >= 0 && ramp_months >= 0 && !(duration_months matches Some(d) && d
                    <= 0),
                LifeEffectSpec::IncomeStep { amount, .. } => !(amount matches StepAmount::Percent {
                    rate_bps,
                } && rate_bps <= -10_000),
                _ => true,
            })),
{
    let effects = e.effects@;
    lemma_effects_accepted(effects, effects.len() as int);
    let sound_all = forall|i: int| 0 <= i < effects.len() ==> runnable(#[trigger] effects[i]);
    let ok_all = forall|i: int|
        0 <= i < effects.len() ==> (#[trigger] effect_problems(i, effects[i])).len() == 0;
    if sound_all {
        assert forall|i: int| 0 <= i < effects.len() implies (#[trigger] effect_problems(i, effects[i])).len()
            == 0 by {
            assert(runnable(effects[i]));
            lemma_effect_accepted_exactly_when_sound(i, effects[i]);
        }
    }
    if ok_all {
        assert forall|i: int| 0 <= i < effects.len() implies runnable(#[trigger] effects[i]) by {
            assert(effect_problems(i, effects[i]).len() == 0);
            lemma_effect_accepted_exactly_when_sound(i, effects[i]);
        }
    }
}

/// Whether an effect is one the forecast can run; the statement of
/// [`lemma_effect_accepted_exactly_when_sound`], named for its proof.
spec fn runnable(e: LifeEffectSpec) -> bool {
    match e {
        LifeEffectSpec::IncomePause { months, replacement_rate_bps, .. } => months > 0 && 0
            <= replacement_rate_bps <= 10_000,
        LifeEffectSpec::RecurringDelta { delay_months, ramp_months, duration_months, .. } =>
            delay_months >= 0 && ramp_months >= 0 && !(duration_months matches Some(d) && d <= 0),
        LifeEffectSpec::IncomeStep { amount, .. } => !(amount matches StepAmount::Percent {
            rate_bps,
        } && rate_bps <= -10_000),
        _ => true,
    }
}

fn push_problem(problems: &mut Vec<String>, m: String)
    ensures
        texts(final(problems)@) == texts(old(problems)@).push(m@),
{
    problems.push(m);
    proof {
        assert(texts(final(problems)@) =~= texts(old(problems)@).push(m@));
    }
}

fn effect_message(i: usize, m: &str) -> (r: String)
    ensures
        r@ == at_effect(i as int, m@),
{
    let mut r = String::from_str("effect ");
    append_nat_decimal(&mut r, i as u64);
    r.append(": ");
    r.append(m);
    r
}

impl SaveForecastEvent {
    /// Every problem at once, not the first one found. Ranges only: the shape of each field is
    /// already enforced by its type.
    pub fn validate(&self) -> (r: Result<(), Vec<String>>)
        ensures
            r is Ok <==> event_problems(*self).len() == 0,
            r matches Err(v) ==> texts(v@) == event_problems(*self),
    {
        let mut problems: Vec<String> = Vec::new();
        let t = trim(self.label.as_str());
        if t.as_str().unicode_len() == 0 {
            push_problem(&mut problems, String::from_str("label must not be empty"));
        }
        if !(0 <= self.probability_bps && self.probability_bps <= 10_000) {
            let mut m = String::from_str("probability_bps must be between 0 and 10000, got ");
            append_decimal(&mut m, self.probability_bps);
            push_problem(&mut problems, m);
        }
        if !(0 <= self.timing_spread_months && self.timing_spread_months <= 600) {
            let mut m = String::from_str("timing_spread_months must be between 0 and 600, got ");
            append_decimal(&mut m, self.timing_spread_months);
            push_problem(&mut problems, m);
        }
        let ghost head = texts(problems@);
        let mut i: usize = 0;
        while i < self.effects.len()
            invariant
                i <= self.effects@.len(),
                texts(problems@) == head + effects_problems(self.effects@, i as int),
            decreases self.effects@.len() - i,
        {
            let ghost before = texts(problems@);
            match self.effects[i] {
                LifeEffectSpec::IncomePause { months, replacement_rate_bps, .. } => {
                    if months <= 0 {
                        push_problem(
                            &mut problems,
                            effect_message(i, "a pause must last at least one month"),
                        );
                    }
                    if !(0 <= replacement_rate_bps && replacement_rate_bps <= 10_000) {
                        let mut m = String::from_str(
                            "replacement_rate_bps must be between 0 and 10000, got ",
                        );
                        append_decimal(&mut m, replacement_rate_bps);
                        push_problem(&mut problems, effect_message(i, m.as_str()));
                    }
                },
                LifeEffectSpec::RecurringDelta { delay_months, ramp_months, duration_months, .. } => {
                    if delay_months < 0 || ramp_months < 0 {
                        push_problem(
                            &mut problems,
                            effect_message(i, "delay and ramp cannot be negative"),
                        );
                    }
                    let empty_duration = match duration_months {
                        Some(d) => d <= 0,
                        None => false,
                    };
                    if empty_duration {
                        push_problem(
                            &mut problems,
                            effect_message(i, "a duration must be at least one month"),
                        );
                    }
                },
                LifeEffectSpec::IncomeStep { amount, .. } => {
                    if let StepAmount::Percent { rate_bps } = amount {
                        if rate_bps <= -10_000 {
                            push_problem(
                                &mut problems,
                                effect_message(
                                    i,
                                    "a pay change below -100% is not a pay change — use a job ending",
                                ),
                            );
                        }
                    }
                },
                LifeEffectSpec::IncomeStart { .. }
                | LifeEffectSpec::IncomeEnd { .. }
                | LifeEffectSpec::SetBaseline { .. }
                | LifeEffectSpec::OneOffAmount { .. } => {},
            }
            proof {
                assert(texts(problems@) =~= before + effect_problems(
                    i as int,
                    self.effects@[i as int],
                ));
                assert(head + effects_problems(self.effects@, i + 1) =~= before + effect_problems(
                    i as int,
                    self.effects@[i as int],
                ));
            }
            i = i + 1;
        }
        proof {
            assert(texts(problems@) =~= event_problems(*self));
        }
        if problems.len() == 0 {
            Ok(())
        } else {
            Err(problems)
        }
    }
}

/// The amount of an effect that the money bound applies to, if it carries one: the absolute
/// step, the recurring delta, the baseline, the one-off. Rates and ids are not money.
pub open spec fn checked_amount(e: LifeEffectSpec) -> Option<i64> {
    match e {
        LifeEffectSpec::IncomeStep { amount, .. } => match amount {
            StepAmount::Absolute { annual_amount_minor } => Some(annual_amount_minor),
            StepAmount::Percent { .. } => None,
        },
        LifeEffectSpec::RecurringDelta { amount_minor, .. } => Some(amount_minor),
        LifeEffectSpec::SetBaseline { amount_minor, .. } => Some(amount_minor),
        LifeEffectSpec::OneOffAmount { amount_minor, .. } => Some(amount_minor),
        LifeEffectSpec::IncomeStart { .. } => None,
        LifeEffectSpec::IncomeEnd { .. } => None,
        LifeEffectSpec::IncomePause { .. } => None,
    }
}

/// The problem reported for one effect's amount, if it is outside the money bound.
pub open spec fn amount_problem(e: LifeEffectSpec) -> Seq<Seq<char>> {
    match checked_amount(e) {
        Some(v) => if in_money_range(v as int) {
            Seq::empty()
        } else {
            seq!["amount "@ + int_decimal(v as int) + " is out of range"@]
        },
        None => Seq::empty(),
    }
}

/// One problem per out-of-range amount, in the order of the effects.
pub open spec fn amount_problems(effects: Seq<LifeEffectSpec>) -> Seq<Seq<char>>
    decreases effects.len(),
{
    if effects.len() == 0 {
        Seq::empty()
    } else {
        amount_problems(effects.drop_last()) + amount_problem(effects.last())
    }
}

/// The money bound, applied to the amounts inside the effect union: one problem for each
/// amount a [`Money`] could not hold, all at once.
pub fn effect_amounts_in_range(effects: &[LifeEffectSpec]) -> (r: Result<(), Vec<String>>)
    ensures
        r is Ok <==> amount_problems(effects@).len() == 0,
        r matches Err(v) ==> texts(v@) == amount_problems(effects@),
{
    let mut problems: Vec<String> = Vec::new();
    let mut i: usize = 0;
    while i < effects.len()
        invariant
            i <= effects@.len(),
            texts(problems@) == amount_problems(effects@.subrange(0, i as int)),
        decreases effects@.len() - i,
    {
        let e = effects[i];
        let amount: Option<i64> = match e {
            LifeEffectSpec::IncomeStep { amount, .. } => match amount {
                StepAmount::Absolute { annual_amount_minor } => Some(annual_amount_minor),
                StepAmount::Percent { .. } => None,
            },
            LifeEffectSpec::RecurringDelta { amount_minor, .. }
            | LifeEffectSpec::SetBaseline { amount_minor, .. }
            | LifeEffectSpec::OneOffAmount { amount_minor, .. } => Some(amount_minor),
            LifeEffectSpec::IncomeStart { .. }
            | LifeEffectSpec::IncomeEnd { .. }
            | LifeEffectSpec::IncomePause { .. } => None,
        };
        let ghost before = problems@;
        if let Some(v) = amount {
            if Money::new(v).is_err() {
                let mut m = String::from_str("amount ");
                append_decimal(&mut m, v);
                m.append(" is out of range");
                problems.push(m);
                proof {
                    assert(texts(problems@) =~= texts(before).push(m@));
                }
            }
        }
        proof {
            let next = effects@.subrange(0, i + 1);
            assert(next.drop_last() =~= effects@.subrange(0, i as int));
            assert(next.last() == e);
            assert(texts(problems@) =~= amount_problems(next));
        }
        i = i + 1;
    }
    proof {
        assert(effects@.subrange(0, i as int) =~= effects@);
    }
    if problems.len() == 0 {
        Ok(())
    } else {
        Err(problems)
    }
}

} // verus!
